//! End-to-end protocol tests: config parsing and selection, transport
//! addressing, and the seal/transport/open round trip against a local
//! mock resolver built on odoh-rs's server-side functions.

use hpke::Serializable;
use odoh_client::{
    ODOHRequest, ODOHResponse, ODOHSession, OdohError, QueryBody, parse_config_set, select_config,
    wipe,
};
use odoh_rs::key_utils::derive_keypair_from_seed;
use odoh_rs::protocol::{
    ObliviousDoHConfigContents, ObliviousDoHKeyPair, ObliviousDoHQueryBody, create_response_msg,
    parse_received_query,
};

fn record(kem: u16, kdf: u16, aead: u16, pk: &[u8]) -> Vec<u8> {
    let len = (6 + pk.len()) as u16;
    let mut r = Vec::new();
    r.extend_from_slice(&len.to_be_bytes());
    r.extend_from_slice(&kem.to_be_bytes());
    r.extend_from_slice(&kdf.to_be_bytes());
    r.extend_from_slice(&aead.to_be_bytes());
    r.extend_from_slice(pk);
    r
}

fn server_key_pair() -> ObliviousDoHKeyPair {
    let ikm = [7u8; 32];
    let (private_key, public_key) = derive_keypair_from_seed(&ikm);
    ObliviousDoHKeyPair {
        private_key,
        public_key: ObliviousDoHConfigContents {
            kem_id: 0x0020,
            kdf_id: 0x0001,
            aead_id: 0x0001,
            public_key: public_key.to_bytes().to_vec(),
        },
    }
}

fn session_with(proxy: Option<&str>) -> ODOHSession {
    let kp = server_key_pair();
    let payload = record(0x0020, 0x0001, 0x0001, &kp.public_key.public_key);
    ODOHSession::build("https://odoh.example.net", proxy, &payload).unwrap()
}

/// A plain DNS answer for `example.com` type A with record data 1.2.3.4.
fn answer_bytes() -> Vec<u8> {
    vec![
        0, 0, 0x81, 0x80, 0, 1, 0, 1, 0, 0, 0, 0, // header: response, 1 question, 1 answer
        7, b'e', b'x', b'a', b'm', b'p', b'l', b'e', 3, b'c', b'o', b'm', 0, 0, 1, 0,
        1, // question
        0xc0, 0x0c, 0, 1, 0, 1, 0, 0, 0, 60, 0, 4, 1, 2, 3, 4, // answer: A 1.2.3.4
    ]
}

/// Opens the sealed query as the target resolver would and returns the
/// decrypted query body with the server-side response secret.
fn mock_server_open(kp: &ObliviousDoHKeyPair, sealed_query: &[u8]) -> (ObliviousDoHQueryBody, Vec<u8>) {
    futures::executor::block_on(parse_received_query(kp, sealed_query)).unwrap()
}

fn mock_server_seal(secret: &[u8], answer: &[u8], query: &ObliviousDoHQueryBody) -> Vec<u8> {
    futures::executor::block_on(create_response_msg(secret, answer, Some(0), None, query)).unwrap()
}

#[test]
fn parse_config_set_reads_records() {
    let payload = [record(0x0020, 1, 1, &[1, 2, 3]), record(0x0021, 2, 2, &[])].concat();
    let set = parse_config_set(&payload).unwrap();
    assert_eq!(set.len(), 2);
    assert_eq!(set[0].kem_id, 0x0020);
    assert_eq!(set[0].kdf_id, 1);
    assert_eq!(set[0].aead_id, 1);
    assert_eq!(set[0].public_key, vec![1, 2, 3]);
    assert_eq!(set[1].kem_id, 0x0021);
    assert_eq!(set[1].public_key, Vec::<u8>::new());
}

#[test]
fn parse_config_set_empty_payload_is_empty_set() {
    assert_eq!(parse_config_set(&[]).unwrap().len(), 0);
}

#[test]
fn parse_config_set_truncated_record_fails() {
    let mut payload = record(0x0020, 1, 1, &[1, 2, 3]);
    payload.pop();
    assert_eq!(parse_config_set(&payload).unwrap_err(), OdohError::Discovery);
}

#[test]
fn parse_config_set_short_record_fails() {
    // a record body of five bytes cannot hold the algorithm triple
    let payload = vec![0, 5, 0, 0x20, 0, 1, 0];
    assert_eq!(parse_config_set(&payload).unwrap_err(), OdohError::Discovery);
}

#[test]
fn select_config_picks_first_match() {
    let payload = [
        record(0x0010, 1, 1, &[1]),
        record(0x0020, 1, 1, &[2]),
        record(0x0020, 1, 1, &[3]),
    ]
    .concat();
    let set = parse_config_set(&payload).unwrap();
    let chosen = select_config(&set).unwrap();
    assert_eq!(chosen.public_key, vec![2]);
}

#[test]
fn select_config_without_match_fails() {
    let payload = [record(0x0010, 1, 1, &[1]), record(0x0020, 2, 1, &[2])].concat();
    let set = parse_config_set(&payload).unwrap();
    assert_eq!(select_config(&set).unwrap_err(), OdohError::UnsupportedConfig);
}

#[test]
fn build_rejects_unsupported_config_set() {
    let payload = [record(0x0010, 1, 1, &[9u8; 32]), record(0x0020, 2, 1, &[8u8; 32])].concat();
    let err = ODOHSession::build("https://odoh.example.net", None, &payload).unwrap_err();
    assert_eq!(err, OdohError::UnsupportedConfig);
}

#[test]
fn build_rejects_invalid_target_address() {
    let payload = record(0x0020, 1, 1, &[9u8; 32]);
    let err = ODOHSession::build("not a url", None, &payload).unwrap_err();
    assert_eq!(err, OdohError::Discovery);
}

#[test]
fn hostless_target_is_discovery_error() {
    // parses as a URL, but one without a host component
    let payload = record(0x0020, 1, 1, &[9u8; 32]);
    let err = ODOHSession::build("mailto:someone@example.net", None, &payload).unwrap_err();
    assert_eq!(err, OdohError::Discovery);
}

#[test]
fn session_stores_endpoint_and_host() {
    let session = session_with(None);
    assert_eq!(session.target_url, "https://odoh.example.net/dns-query");
    assert_eq!(session.target_host, "odoh.example.net");
    assert_eq!(session.proxy, None);
}

#[test]
fn discovery_gate_accepts_success_status() {
    let payload = vec![1u8, 2, 3];
    assert_eq!(odoh_client::accept_discovery(200, payload.clone()).unwrap(), payload);
    assert_eq!(odoh_client::accept_discovery(204, vec![]).unwrap(), Vec::<u8>::new());
}

#[test]
fn discovery_gate_rejects_error_status() {
    assert_eq!(odoh_client::accept_discovery(404, vec![1u8]).unwrap_err(), OdohError::Discovery);
    assert_eq!(odoh_client::accept_discovery(500, vec![]).unwrap_err(), OdohError::Discovery);
    assert_eq!(odoh_client::accept_discovery(301, vec![]).unwrap_err(), OdohError::Discovery);
}

#[test]
fn query_body_wraps_with_zero_padding() {
    let q = QueryBody::new(vec![9u8, 8], 3);
    assert_eq!(q.dns_msg, vec![9u8, 8]);
    assert_eq!(q.padding, vec![0u8, 0, 0]);
}

#[test]
fn wipe_zeroes_in_place() {
    let mut buf = vec![1u8, 2, 3];
    wipe(&mut buf);
    assert_eq!(buf, vec![0u8, 0, 0]);
}

#[test]
fn proxy_addressing_names_true_target() {
    let session = session_with(Some("https://proxy.example.org/proxy"));
    let plan = session.plan_request();
    assert_eq!(plan.destination, "https://proxy.example.org/proxy");
    assert_eq!(
        plan.target_params,
        Some(("odoh.example.net".to_string(), "/dns-query".to_string()))
    );
    assert_eq!(plan.media_type, "application/oblivious-dns-message");
    assert_eq!(plan.cache_control, "no-cache, no-store");
}

#[test]
fn direct_addressing_targets_query_endpoint() {
    let session = session_with(None);
    let plan = session.plan_request();
    assert_eq!(plan.destination, "https://odoh.example.net/dns-query");
    assert_eq!(plan.target_params, None);
    assert_eq!(plan.media_type, "application/oblivious-dns-message");
    assert_eq!(plan.cache_control, "no-cache, no-store");
}

#[test]
fn invalid_proxy_address_leaves_session_direct() {
    let session = session_with(Some("no scheme at all"));
    assert_eq!(session.proxy, None);
    let plan = session.plan_request();
    assert_eq!(plan.destination, "https://odoh.example.net/dns-query");
}

#[test]
fn invalid_query_type_is_encoding_error() {
    let session = session_with(None);
    let err = session.create_request("example.com", "NOT-A-TYPE").unwrap_err();
    assert_eq!(err, OdohError::Encoding);
}

#[test]
fn undersized_public_key_is_crypto_error() {
    // a supported triple whose key no encapsulation can use
    let payload = record(0x0020, 1, 1, &[1, 2, 3]);
    let session = ODOHSession::build("https://odoh.example.net", None, &payload).unwrap();
    let err = session.create_request("example.com", "A").unwrap_err();
    assert_eq!(err, OdohError::Crypto);
}

#[test]
fn http_error_status_is_transport_error() {
    let session = session_with(None);
    let req = session.create_request("example.com", "A").unwrap();
    let err = session.accept_response(req, 500, Vec::new()).unwrap_err();
    assert_eq!(err, OdohError::Transport(Some(500)));
}

#[test]
fn encryption_is_randomized_per_request() {
    let session = session_with(None);
    let a = session.create_request("example.com", "A").unwrap();
    let b = session.create_request("example.com", "A").unwrap();
    assert_ne!(a.client_secret, b.client_secret);
    assert_ne!(a.encrypted_query, b.encrypted_query);
    // the encapsulated keys differ too: they sit after the one-byte
    // message type and the length-prefixed 32-byte key id
    assert_ne!(a.encrypted_query[37..69], b.encrypted_query[37..69]);
}

#[test]
fn resolution_round_trip_decodes_answer() {
    let kp = server_key_pair();
    let payload = record(0x0020, 0x0001, 0x0001, &kp.public_key.public_key);
    let session = ODOHSession::build("https://odoh.example.net", None, &payload).unwrap();
    let req = session.create_request("example.com", "A").unwrap();

    // the sealed query really carries the DNS query for example.com/A
    let (query_body, server_secret) = mock_server_open(&kp, &req.encrypted_query);
    let plain_query = trust_dns_proto::op::Message::from_vec(&query_body.dns_msg).unwrap();
    assert_eq!(plain_query.queries().len(), 1);
    assert_eq!(
        format!("{}", plain_query.queries()[0].name()).trim_end_matches('.'),
        "example.com"
    );
    assert_eq!(format!("{:?}", plain_query.queries()[0].query_type()), "A");

    let sealed_answer = mock_server_seal(&server_secret, &answer_bytes(), &query_body);
    let paired = session.accept_response(req, 200, sealed_answer).unwrap();
    let message = session.parse_response(paired).unwrap();
    let answers = message.answers();
    assert_eq!(answers.len(), 1);
    assert_eq!(format!("{}", answers[0].name()).trim_end_matches('.'), "example.com");
    assert_eq!(format!("{:?}", answers[0].rdata()), "A(1.2.3.4)");
}

#[test]
fn round_trip_preserves_padding_length() {
    let kp = server_key_pair();
    let payload = record(0x0020, 0x0001, 0x0001, &kp.public_key.public_key);
    let session = ODOHSession::build("https://odoh.example.net", None, &payload).unwrap();
    let req = session.create_request_padded("example.com", "AAAA", 5).unwrap();
    assert_eq!(req.query.padding, vec![0u8; 5]);
    let (query_body, server_secret) = mock_server_open(&kp, &req.encrypted_query);
    assert_eq!(query_body.padding.len(), 5);
    let sealed_answer = mock_server_seal(&server_secret, &answer_bytes(), &query_body);
    let paired = session.accept_response(req, 200, sealed_answer).unwrap();
    assert!(session.parse_response(paired).is_ok());
}

#[test]
fn tampered_response_is_a_decryption_error() {
    let kp = server_key_pair();
    let payload = record(0x0020, 0x0001, 0x0001, &kp.public_key.public_key);
    let session = ODOHSession::build("https://odoh.example.net", None, &payload).unwrap();
    let req = session.create_request("example.com", "A").unwrap();
    let (query_body, server_secret) = mock_server_open(&kp, &req.encrypted_query);
    let sealed_answer = mock_server_seal(&server_secret, &answer_bytes(), &query_body);

    for i in 0..sealed_answer.len() {
        for bit in 0..8u8 {
            let mut tampered = sealed_answer.clone();
            tampered[i] ^= 1 << bit;
            let resp = ODOHResponse {
                request: ODOHRequest {
                    query: QueryBody {
                        dns_msg: req.query.dns_msg.clone(),
                        padding: req.query.padding.clone(),
                    },
                    client_secret: req.client_secret.clone(),
                    encrypted_query: Vec::new(),
                },
                encrypted_response: tampered,
            };
            assert_eq!(session.parse_response(resp).unwrap_err(), OdohError::Decryption);
        }
    }
}

#[test]
fn unparsable_plaintext_is_a_malformed_response_error() {
    let kp = server_key_pair();
    let payload = record(0x0020, 0x0001, 0x0001, &kp.public_key.public_key);
    let session = ODOHSession::build("https://odoh.example.net", None, &payload).unwrap();
    let req = session.create_request("example.com", "A").unwrap();
    let (query_body, server_secret) = mock_server_open(&kp, &req.encrypted_query);
    // the resolver answers with bytes that are no DNS message
    let sealed_answer = mock_server_seal(&server_secret, &[0xff, 0xee], &query_body);
    let paired = session.accept_response(req, 200, sealed_answer).unwrap();
    assert_eq!(session.parse_response(paired).unwrap_err(), OdohError::MalformedResponse);
}
