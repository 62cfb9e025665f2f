//! Oblivious DNS-over-HTTPS (ODoH) client session library.
//!
//! A session discovers a target resolver's published encryption
//! configuration set, selects the first configuration this client
//! supports, seals DNS queries under that configuration, plans the
//! HTTP request that carries the sealed query (directly to the target
//! or indirected through a proxy), and opens the sealed response with
//! the per-query secret established at encryption time.

use vstd::prelude::*;

mod config;
mod crypto;
mod dns;
mod message;
mod session;
mod transport;

pub use crypto::odoh_open;
pub use dns::{dns_parse_ok, dns_query_bytes};
pub use message::{QueryBody, QueryBodyView, spec_padding_ok, wipe};
pub use session::{
    DEFAULT_PADDING_LEN, ODOHRequest, ODOHResponse, ODOHSession, RequestView, ResponseView,
    spec_opened,
};
pub use transport::{RequestPlan, accept_discovery, url_endpoint, url_normalized};
pub use config::{
    ConfigView, OdohConfig, SUPPORTED_AEAD_ID, SUPPORTED_KDF_ID, SUPPORTED_KEM_ID, be16,
    clone_bytes, config_views, lemma_first_supported_is_first, lemma_first_supported_none,
    parse_config_set, select_config, spec_first_supported, spec_parse_configs, spec_record,
    spec_supported,
};

verus! {

/// The failure taxonomy of one resolution. Every error is terminal for
/// the resolution that raised it: nothing is retried and no partial
/// result is returned.
#[derive(Debug, PartialEq, Eq)]
pub enum OdohError {
    /// The target could not be reached, its address is invalid, or its
    /// published configuration payload cannot be parsed.
    Discovery,
    /// No published configuration matches a client-supported
    /// algorithm suite.
    UnsupportedConfig,
    /// The domain or query type cannot form a valid DNS query.
    Encoding,
    /// Key encapsulation or AEAD setup failed; fatal and unexpected
    /// with valid inputs.
    Crypto,
    /// The transport failed: `Some(status)` for a non-success HTTP
    /// status, `None` for a connection or addressing failure.
    Transport(Option<u16>),
    /// AEAD authentication of the response failed: the response was
    /// tampered with, truncated, or sealed under a different secret.
    Decryption,
    /// The response decrypted correctly but its plaintext is not a
    /// valid DNS message.
    MalformedResponse,
}

} // verus!
