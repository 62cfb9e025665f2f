//! The per-target session: discovery of the selected configuration,
//! sealing of queries, transport planning, and opening of sealed
//! responses. One session owns one target, an optional proxy and the
//! configuration selected at construction; it processes one request at
//! a time and every error is terminal for its resolution.

use vstd::prelude::*;

use crate::OdohError;
use crate::config::{
    OdohConfig, parse_config_set, select_config, spec_first_supported, spec_parse_configs,
};
use crate::crypto::{odoh_open, open_response, seal_query};
use crate::dns::{build_dns_query, dns_parse_ok, dns_query_bytes, parse_dns_message};
use crate::message::{QueryBody, QueryBodyView, spec_padding_ok, wipe};
use crate::transport::{RequestPlan, normalize_url, target_endpoint, url_endpoint, url_normalized};

verus! {

/// Default number of zero padding bytes wrapped around each query.
pub const DEFAULT_PADDING_LEN: usize = 1;

/// A per-target ODoH client session: the target's query endpoint, the
/// optional proxy, and the configuration selected at construction and
/// reused for every query of the session.
#[derive(Debug)]
pub struct ODOHSession {
    /// The target's query endpoint: the target address with the query
    /// path set.
    pub target_url: String,
    /// The target's host, named to the proxy in proxied mode.
    pub target_host: String,
    /// The proxy address, when indirection is configured.
    pub proxy: Option<String>,
    /// The selected configuration.
    pub target_config: OdohConfig,
}

/// One in-flight query's crypto state: the wrapped plaintext, the
/// per-query client secret (never transmitted, required to open the
/// response), and the sealed query sent over the wire.
#[derive(Debug)]
pub struct ODOHRequest {
    pub query: QueryBody,
    pub client_secret: Vec<u8>,
    pub encrypted_query: Vec<u8>,
}

/// Mathematical model of a request.
#[verifier::ext_equal]
pub struct RequestView {
    pub query: QueryBodyView,
    pub client_secret: Seq<u8>,
    pub encrypted_query: Seq<u8>,
}

impl View for ODOHRequest {
    type V = RequestView;

    open spec fn view(&self) -> RequestView {
        RequestView {
            query: self.query@,
            client_secret: self.client_secret@,
            encrypted_query: self.encrypted_query@,
        }
    }
}

impl ODOHRequest {
    /// Abandons an in-flight request without a response, wiping its
    /// client secret first so that per-query key material does not
    /// outlive the request.
    pub fn discard(self) {
        let ODOHRequest { query: _, client_secret, encrypted_query: _ } = self;
        let mut client_secret = client_secret;
        wipe(&mut client_secret);
    }
}

/// A sealed response paired with its originating request, whose secret
/// and query body authenticate the answer. A response cannot exist
/// without its request.
#[derive(Debug)]
pub struct ODOHResponse {
    pub request: ODOHRequest,
    pub encrypted_response: Vec<u8>,
}

/// Mathematical model of a paired response.
#[verifier::ext_equal]
pub struct ResponseView {
    pub request: RequestView,
    pub encrypted_response: Seq<u8>,
}

impl View for ODOHResponse {
    type V = ResponseView;

    open spec fn view(&self) -> ResponseView {
        ResponseView { request: self.request@, encrypted_response: self.encrypted_response@ }
    }
}

/// The plaintext that opening a paired response yields, when it
/// authenticates.
pub open spec fn spec_opened(r: ResponseView) -> Option<Seq<u8>> {
    odoh_open(r.request.client_secret, r.encrypted_response, r.request.query.dns_msg, r.request.query.padding)
}

impl ODOHSession {
    /// Builds a session from the target address, the optional proxy
    /// address, and the discovery payload fetched from the target's
    /// well-known path.
    ///
    /// Succeeds exactly when the target address normalizes to a query
    /// endpoint (it parses as a URL with a host) and the payload is a
    /// well-formed configuration set with a client-supported entry; the
    /// session then holds that endpoint, its host, and the first
    /// supported configuration. An invalid target address or payload is
    /// a discovery error; a well-formed set without a supported entry
    /// is exactly the unsupported-config error. An invalid proxy
    /// address is ignored, leaving the session direct.
    pub fn build(target: &str, proxy: Option<&str>, config_payload: &[u8]) -> (r: Result<
        ODOHSession,
        OdohError,
    >)
        ensures
            match r {
                Ok(s) => {
                    &&& url_endpoint(target@, "/dns-query"@) is Some
                    &&& s.target_url@ == url_endpoint(target@, "/dns-query"@).unwrap().0
                    &&& s.target_host@ == url_endpoint(target@, "/dns-query"@).unwrap().1
                    &&& spec_parse_configs(config_payload@) is Some
                    &&& Some(s.target_config@) == spec_first_supported(
                        spec_parse_configs(config_payload@).unwrap(),
                    )
                    &&& match proxy {
                        Some(p) => {
                            &&& (s.proxy is Some <==> url_normalized(p@) is Some)
                            &&& (s.proxy is Some ==> s.proxy.unwrap()@ == url_normalized(
                                p@,
                            ).unwrap())
                        },
                        None => s.proxy is None,
                    }
                },
                Err(e) => {
                    &&& (e == OdohError::Discovery || e == OdohError::UnsupportedConfig)
                    &&& (e == OdohError::Discovery <==> (url_endpoint(target@, "/dns-query"@)
                        is None || spec_parse_configs(config_payload@) is None))
                    &&& (e == OdohError::UnsupportedConfig <==> (url_endpoint(
                        target@,
                        "/dns-query"@,
                    ) is Some && spec_parse_configs(config_payload@) is Some
                        && spec_first_supported(
                        spec_parse_configs(config_payload@).unwrap(),
                    ) is None))
                },
            },
    {
        let endpoint = match target_endpoint(target, "/dns-query") {
            Some(pair) => pair,
            None => {
                return Err(OdohError::Discovery);
            },
        };
        let (target_url, target_host) = endpoint;
        let set = match parse_config_set(config_payload) {
            Ok(s) => s,
            Err(e) => {
                return Err(e);
            },
        };
        let target_config = match select_config(&set) {
            Ok(c) => c,
            Err(e) => {
                return Err(e);
            },
        };
        let proxy = match proxy {
            Some(p) => normalize_url(p),
            None => None,
        };
        Ok(ODOHSession { target_url, target_host, proxy, target_config })
    }

    /// Creates an oblivious query for a domain and query-type label,
    /// with the default padding length.
    pub fn create_request(&self, domain: &str, qtype: &str) -> (r: Result<ODOHRequest, OdohError>)
        ensures
            match r {
                Ok(req) => {
                    &&& dns_query_bytes(domain@, qtype@) is Some
                    &&& req@.query.dns_msg == dns_query_bytes(domain@, qtype@).unwrap()
                    &&& req@.query.padding.len() == DEFAULT_PADDING_LEN
                    &&& spec_padding_ok(req@.query)
                    &&& req@.client_secret.len() == 16
                },
                Err(e) => {
                    &&& (e == OdohError::Encoding || e == OdohError::Crypto)
                    &&& (e == OdohError::Encoding <==> dns_query_bytes(domain@, qtype@) is None)
                },
            },
    {
        self.create_request_padded(domain, qtype, DEFAULT_PADDING_LEN)
    }

    /// Creates an oblivious query for a domain and query-type label:
    /// builds the plain DNS query, wraps it with `padding_len` zero
    /// bytes, and seals it under the session's configuration, keeping
    /// the per-query client secret beside the sealed bytes.
    ///
    /// Fails with an encoding error exactly when the labels cannot
    /// form a DNS query, and with a crypto error when sealing fails
    /// (fatal, never retried).
    pub fn create_request_padded(&self, domain: &str, qtype: &str, padding_len: usize) -> (r:
        Result<ODOHRequest, OdohError>)
        ensures
            match r {
                Ok(req) => {
                    &&& dns_query_bytes(domain@, qtype@) is Some
                    &&& req@.query.dns_msg == dns_query_bytes(domain@, qtype@).unwrap()
                    &&& req@.query.padding.len() == padding_len
                    &&& spec_padding_ok(req@.query)
                    &&& req@.client_secret.len() == 16
                },
                Err(e) => {
                    &&& (e == OdohError::Encoding || e == OdohError::Crypto)
                    &&& (e == OdohError::Encoding <==> dns_query_bytes(domain@, qtype@) is None)
                },
            },
    {
        let dns_msg = match build_dns_query(domain, qtype) {
            Some(m) => m,
            None => {
                return Err(OdohError::Encoding);
            },
        };
        let query = QueryBody::new(dns_msg, padding_len);
        match seal_query(&self.target_config, &query) {
            Some((encrypted_query, client_secret)) => Ok(
                ODOHRequest { query, client_secret, encrypted_query },
            ),
            None => Err(OdohError::Crypto),
        }
    }

    /// Plans the transport request for a sealed query. With a proxy
    /// configured the destination is the proxy and the query
    /// parameters name the true target host and path; without one the
    /// destination is the target's query endpoint and no parameter is
    /// set. Either way the content and accept types are the ODoH media
    /// type and caching is forbidden.
    pub fn plan_request(&self) -> (r: RequestPlan)
        ensures
            r.media_type@ == "application/oblivious-dns-message"@,
            r.cache_control@ == "no-cache, no-store"@,
            self.proxy is Some ==> {
                &&& r.destination@ == self.proxy.unwrap()@
                &&& r.target_params is Some
                &&& r.target_params.unwrap().0@ == self.target_host@
                &&& r.target_params.unwrap().1@ == "/dns-query"@
            },
            self.proxy is None ==> {
                &&& r.destination@ == self.target_url@
                &&& r.target_params is None
            },
    {
        let media_type = "application/oblivious-dns-message".to_owned();
        let cache_control = "no-cache, no-store".to_owned();
        match &self.proxy {
            Some(p) => RequestPlan {
                destination: p.clone(),
                target_params: Some((self.target_host.clone(), "/dns-query".to_owned())),
                media_type,
                cache_control,
            },
            None => RequestPlan {
                destination: self.target_url.clone(),
                target_params: None,
                media_type,
                cache_control,
            },
        }
    }

    /// Pairs a transport outcome with its originating request. Success
    /// is exactly HTTP status 200 with a body; any other status fails
    /// the resolution with that status attached, before any decryption
    /// is attempted, and the request's client secret is wiped as the
    /// request is abandoned.
    pub fn accept_response(&self, request: ODOHRequest, status: u16, body: Vec<u8>) -> (r: Result<
        ODOHResponse,
        OdohError,
    >)
        ensures
            match r {
                Ok(resp) => {
                    &&& status == 200
                    &&& resp@.request == request@
                    &&& resp@.encrypted_response == body@
                },
                Err(e) => {
                    &&& status != 200
                    &&& e == OdohError::Transport(Some(status))
                },
            },
    {
        if status != 200 {
            request.discard();
            return Err(OdohError::Transport(Some(status)));
        }
        Ok(ODOHResponse { request, encrypted_response: body })
    }

    /// Opens a sealed response with the per-query secret, authenticated
    /// against the original query body, and parses the plaintext as a
    /// DNS message.
    ///
    /// An authentication failure (tampered, truncated or
    /// mismatched-secret response) is a decryption error and no byte of
    /// the unauthenticated plaintext is interpreted; a valid decryption
    /// whose plaintext is not a DNS message is a malformed-response
    /// error. The client secret is wiped before this returns, on every
    /// path.
    pub fn parse_response(&self, resp: ODOHResponse) -> (r: Result<
        trust_dns_proto::op::Message,
        OdohError,
    >)
        ensures
            match r {
                Ok(_) => spec_opened(resp@) is Some && dns_parse_ok(spec_opened(resp@).unwrap()),
                Err(e) => {
                    ||| (e == OdohError::Decryption && spec_opened(resp@) is None)
                    ||| (e == OdohError::MalformedResponse && spec_opened(resp@) is Some
                        && !dns_parse_ok(spec_opened(resp@).unwrap()))
                },
            },
    {
        let ODOHResponse { request, encrypted_response } = resp;
        let ODOHRequest { query, client_secret, encrypted_query: _ } = request;
        let mut client_secret = client_secret;
        let opened = open_response(&client_secret, encrypted_response.as_slice(), &query);
        wipe(&mut client_secret);
        match opened {
            None => Err(OdohError::Decryption),
            Some(plaintext) => match parse_dns_message(plaintext.as_slice()) {
                Some(message) => Ok(message),
                None => Err(OdohError::MalformedResponse),
            },
        }
    }
}

} // verus!

