//! The sealed-sender encryption collaborator: sealing a query body
//! under a target configuration and opening a sealed response with the
//! per-query client secret. Both are delegated to odoh-rs behind
//! trusted declarations; the protocol logic around them is verified.

use vstd::prelude::*;

use crate::config::OdohConfig;
use crate::message::QueryBody;

verus! {

/// The plaintext that opening a sealed response yields: the DNS
/// message carried by `response` when it authenticates under `secret`
/// bound to the original query body, `None` on any authentication
/// failure. Opening is a function of these arguments alone.
pub uninterp spec fn odoh_open(
    secret: Seq<u8>,
    response: Seq<u8>,
    dns_msg: Seq<u8>,
    padding: Seq<u8>,
) -> Option<Seq<u8>>;

/// Relies on odoh-rs's `create_query_msg`: seals the query body under
/// the configuration's public key with a fresh ephemeral key
/// encapsulation and returns the wire-visible sealed query together
/// with the 16-byte client secret that later opens the response. The
/// sealed bytes and the secret depend on fresh randomness, so nothing
/// relates two calls on the same input.
#[verifier::external_body]
pub(crate) fn seal_query(config: &OdohConfig, query: &QueryBody) -> (r: Option<(Vec<u8>, Vec<u8>)>)
    ensures
        r is Some ==> r.unwrap().1@.len() == 16,
{
    let contents = odoh_rs::protocol::ObliviousDoHConfigContents {
        kem_id: config.kem_id,
        kdf_id: config.kdf_id,
        aead_id: config.aead_id,
        public_key: config.public_key.clone(),
    };
    let body = odoh_rs::protocol::ObliviousDoHQueryBody {
        dns_msg: query.dns_msg.clone(),
        padding: query.padding.clone(),
    };
    odoh_rs::protocol::create_query_msg(&contents, &body).ok()
}

/// Relies on odoh-rs's `parse_received_response`: opens the sealed
/// response with the client secret, authenticated against the original
/// query body, and hands back the opened DNS message bytes.
#[verifier::external_body]
pub(crate) fn open_response(secret: &Vec<u8>, response: &[u8], query: &QueryBody) -> (r: Option<
    Vec<u8>,
>)
    ensures
        r is Some <==> odoh_open(secret@, response@, query@.dns_msg, query@.padding) is Some,
        r is Some ==> r.unwrap()@ == odoh_open(
            secret@,
            response@,
            query@.dns_msg,
            query@.padding,
        ).unwrap(),
{
    let body = odoh_rs::protocol::ObliviousDoHQueryBody {
        dns_msg: query.dns_msg.clone(),
        padding: query.padding.clone(),
    };
    odoh_rs::protocol::parse_received_response(secret, response, &body).ok().map(|b| b.dns_msg)
}

} // verus!
