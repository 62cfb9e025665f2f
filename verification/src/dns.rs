//! The DNS message codec collaborator: building a plain DNS query for
//! a domain and query-type label, and parsing decrypted response bytes
//! as a DNS message. Both are delegated to trust-dns-proto behind
//! trusted declarations.

use vstd::prelude::*;

verus! {

#[verifier::external_type_specification]
#[verifier::external_body]
pub struct ExMessage(trust_dns_proto::op::Message);

/// The serialized DNS query for a domain and a query-type label:
/// `None` when either label is invalid. The query is built with a
/// fixed zero message id, so the bytes are a function of the two
/// labels alone.
pub uninterp spec fn dns_query_bytes(domain: Seq<char>, qtype: Seq<char>) -> Option<Seq<u8>>;

/// Whether the bytes parse as a DNS message; a function of the bytes
/// alone.
pub uninterp spec fn dns_parse_ok(bytes: Seq<u8>) -> bool;

/// Relies on trust-dns-proto's `RecordType::from_str`,
/// `Name::from_str` and `Message::to_vec`: builds one recursive DNS
/// query with message id 0 and serializes it, deterministically in the
/// two labels.
#[verifier::external_body]
pub(crate) fn build_dns_query(domain: &str, qtype: &str) -> (r: Option<Vec<u8>>)
    ensures
        r is Some <==> dns_query_bytes(domain@, qtype@) is Some,
        r is Some ==> r.unwrap()@ == dns_query_bytes(domain@, qtype@).unwrap(),
{
    let qtype = match <trust_dns_proto::rr::RecordType as core::str::FromStr>::from_str(qtype) {
        Ok(t) => t,
        Err(_) => return None,
    };
    let name = match <trust_dns_proto::rr::Name as core::str::FromStr>::from_str(domain) {
        Ok(n) => n,
        Err(_) => return None,
    };
    let mut msg = trust_dns_proto::op::Message::new();
    msg.set_id(0);
    msg.set_message_type(trust_dns_proto::op::MessageType::Query);
    msg.set_recursion_desired(true);
    msg.add_query(trust_dns_proto::op::Query::query(name, qtype));
    msg.to_vec().ok()
}

/// Relies on trust-dns-proto's `Message::from_vec`: whether the bytes
/// parse as a DNS message is a function of the bytes alone.
#[verifier::external_body]
pub(crate) fn parse_dns_message(bytes: &[u8]) -> (r: Option<trust_dns_proto::op::Message>)
    ensures
        r is Some <==> dns_parse_ok(bytes@),
{
    trust_dns_proto::op::Message::from_vec(bytes).ok()
}

} // verus!
