//! The published configuration set: its wire format and the selection
//! of the first configuration this client supports.
//!
//! A discovery payload is a sequence of length-prefixed records. Each
//! record is a 16-bit big-endian length followed by that many body
//! bytes; the body holds the KEM, KDF and AEAD algorithm identifiers
//! (16-bit big-endian each) and then the target's public key, which
//! fills the rest of the record.

use vstd::prelude::*;

use crate::OdohError;

verus! {

/// KEM identifier of the client-supported suite: X25519 with HKDF-SHA256.
pub const SUPPORTED_KEM_ID: u16 = 0x0020;
/// KDF identifier of the client-supported suite: HKDF-SHA256.
pub const SUPPORTED_KDF_ID: u16 = 0x0001;
/// AEAD identifier of the client-supported suite: AES-128-GCM.
pub const SUPPORTED_AEAD_ID: u16 = 0x0001;

/// Mathematical model of one published configuration record.
#[verifier::ext_equal]
pub struct ConfigView {
    pub kem_id: u16,
    pub kdf_id: u16,
    pub aead_id: u16,
    pub public_key: Seq<u8>,
}

/// One published ODoH configuration: the algorithm triple and the
/// target's public key bytes.
#[derive(Debug)]
pub struct OdohConfig {
    pub kem_id: u16,
    pub kdf_id: u16,
    pub aead_id: u16,
    pub public_key: Vec<u8>,
}

impl View for OdohConfig {
    type V = ConfigView;

    open spec fn view(&self) -> ConfigView {
        ConfigView {
            kem_id: self.kem_id,
            kdf_id: self.kdf_id,
            aead_id: self.aead_id,
            public_key: self.public_key@,
        }
    }
}

/// The models of a sequence of configurations.
pub open spec fn config_views(s: Seq<OdohConfig>) -> Seq<ConfigView> {
    s.map_values(|c: OdohConfig| c@)
}

/// A configuration is supported exactly when its algorithm triple
/// matches the client-supported suite.
pub open spec fn spec_supported(c: ConfigView) -> bool {
    &&& c.kem_id == SUPPORTED_KEM_ID
    &&& c.kdf_id == SUPPORTED_KDF_ID
    &&& c.aead_id == SUPPORTED_AEAD_ID
}

/// The 16-bit big-endian value of two bytes.
pub open spec fn be16(hi: u8, lo: u8) -> u16 {
    (hi * 256 + lo) as u16
}

/// The configuration described by a record body: the three algorithm
/// identifiers and then the public key.
pub open spec fn spec_record(body: Seq<u8>) -> ConfigView
    recommends
        body.len() >= 6,
{
    ConfigView {
        kem_id: be16(body[0], body[1]),
        kdf_id: be16(body[2], body[3]),
        aead_id: be16(body[4], body[5]),
        public_key: body.subrange(6, body.len() as int),
    }
}

/// The configuration set described by a discovery payload, record by
/// record; `None` when the payload is truncated or a record is too
/// short to hold the algorithm triple.
pub open spec fn spec_parse_configs(s: Seq<u8>) -> Option<Seq<ConfigView>>
    decreases s.len(),
{
    if s.len() == 0 {
        Some(Seq::empty())
    } else if s.len() < 2 {
        None
    } else {
        let len = be16(s[0], s[1]) as int;
        if len < 6 || s.len() < 2 + len {
            None
        } else {
            match spec_parse_configs(s.skip(2 + len)) {
                Some(rest) => Some(seq![spec_record(s.subrange(2, 2 + len))] + rest),
                None => None,
            }
        }
    }
}

/// The first supported configuration of a set, in publication order.
pub open spec fn spec_first_supported(s: Seq<ConfigView>) -> Option<ConfigView>
    decreases s.len(),
{
    if s.len() == 0 {
        None
    } else if spec_supported(s[0]) {
        Some(s[0])
    } else {
        spec_first_supported(s.drop_first())
    }
}

/// Law: selection is first match in publication order. If entry `i` is
/// supported and no earlier entry is, selection yields entry `i`.
pub proof fn lemma_first_supported_is_first(s: Seq<ConfigView>, i: int)
    requires
        0 <= i < s.len(),
        spec_supported(s[i]),
        forall|j: int| 0 <= j < i ==> !spec_supported(s[j]),
    ensures
        spec_first_supported(s) == Some(s[i]),
    decreases i,
{
    if i > 0 {
        lemma_first_supported_is_first(s.drop_first(), i - 1);
    }
}

/// Law: a set with no supported entry selects nothing.
pub proof fn lemma_first_supported_none(s: Seq<ConfigView>)
    requires
        forall|j: int| 0 <= j < s.len() ==> !spec_supported(s[j]),
    ensures
        spec_first_supported(s) is None,
    decreases s.len(),
{
    if s.len() > 0 {
        lemma_first_supported_none(s.drop_first());
    }
}

/// Byte-for-byte copy of a byte vector.
pub fn clone_bytes(v: &Vec<u8>) -> (r: Vec<u8>)
    ensures
        r@ == v@,
{
    let n: usize = v.len();
    let mut r: Vec<u8> = Vec::new();
    let mut i: usize = 0;
    while i < n
        invariant
            i <= n,
            n == v@.len(),
            r@ =~= v@.subrange(0, i as int),
        decreases n - i,
    {
        r.push(v[i]);
        i = i + 1;
    }
    assert(r@ =~= v@);
    r
}

impl OdohConfig {
    /// A copy of this configuration with the same model.
    pub fn duplicate(&self) -> (r: OdohConfig)
        ensures
            r@ == self@,
    {
        let r = OdohConfig {
            kem_id: self.kem_id,
            kdf_id: self.kdf_id,
            aead_id: self.aead_id,
            public_key: clone_bytes(&self.public_key),
        };
        assert(r@ =~= self@);
        r
    }

    /// Whether this configuration's algorithm triple matches the
    /// client-supported suite.
    pub fn is_supported(&self) -> (r: bool)
        ensures
            r == spec_supported(self@),
    {
        self.kem_id == SUPPORTED_KEM_ID && self.kdf_id == SUPPORTED_KDF_ID
            && self.aead_id == SUPPORTED_AEAD_ID
    }
}

/// Parses a discovery payload into its configuration set.
///
/// Succeeds exactly when the payload is a well-formed sequence of
/// length-prefixed records; a truncated payload or a record too short
/// to hold the algorithm triple is a discovery failure.
pub fn parse_config_set(payload: &[u8]) -> (r: Result<Vec<OdohConfig>, OdohError>)
    ensures
        match r {
            Ok(cs) => spec_parse_configs(payload@) == Some(config_views(cs@)),
            Err(e) => e == OdohError::Discovery && spec_parse_configs(payload@) is None,
        },
{
    let n: usize = payload.len();
    let mut out: Vec<OdohConfig> = Vec::new();
    let mut i: usize = 0;
    proof {
        assert(payload@.skip(0) =~= payload@);
        match spec_parse_configs(payload@) {
            Some(rest) => {
                assert(config_views(out@) + rest =~= rest);
            },
            None => {},
        }
    }
    while i < n
        invariant
            i <= n,
            n == payload@.len(),
            match spec_parse_configs(payload@.skip(i as int)) {
                Some(rest) => spec_parse_configs(payload@) == Some(config_views(out@) + rest),
                None => spec_parse_configs(payload@) is None,
            },
        decreases n - i,
    {
        if n - i < 2 {
            return Err(OdohError::Discovery);
        }
        let len: usize = (payload[i] as usize) * 256 + (payload[i + 1] as usize);
        assert(len == be16(payload@.skip(i as int)[0], payload@.skip(i as int)[1]) as int);
        if len < 6 || n - i - 2 < len {
            return Err(OdohError::Discovery);
        }
        let kem_id: u16 = (payload[i + 2] as u16) * 256 + (payload[i + 3] as u16);
        let kdf_id: u16 = (payload[i + 4] as u16) * 256 + (payload[i + 5] as u16);
        let aead_id: u16 = (payload[i + 6] as u16) * 256 + (payload[i + 7] as u16);
        let end: usize = i + 2 + len;
        let mut pk: Vec<u8> = Vec::new();
        let mut j: usize = i + 8;
        while j < end
            invariant
                i + 8 <= j <= end,
                end <= n,
                n == payload@.len(),
                pk@ =~= payload@.subrange(i + 8, j as int),
            decreases end - j,
        {
            pk.push(payload[j]);
            j = j + 1;
        }
        let cfg = OdohConfig { kem_id, kdf_id, aead_id, public_key: pk };
        proof {
            let rem = payload@.skip(i as int);
            let body = rem.subrange(2, 2 + len);
            assert(body =~= payload@.subrange(i + 2, i + 2 + len));
            assert(cfg@.public_key =~= body.subrange(6, body.len() as int));
            assert(cfg@ =~= spec_record(body));
            assert(rem.skip(2 + len) =~= payload@.skip(i + 2 + len));
            assert(config_views(out@.push(cfg)) =~= config_views(out@) + seq![cfg@]);
            assert(forall|rest: Seq<ConfigView>|
                (config_views(out@) + (seq![cfg@] + rest)) =~= ((config_views(out@) + seq![cfg@])
                    + rest));
        }
        out.push(cfg);
        i = end;
    }
    proof {
        assert(payload@.skip(n as int) =~= Seq::<u8>::empty());
        assert(config_views(out@) + Seq::<ConfigView>::empty() =~= config_views(out@));
    }
    Ok(out)
}

/// Selects the first configuration of the set whose algorithm triple
/// this client supports; fails when no entry matches.
pub fn select_config(set: &Vec<OdohConfig>) -> (r: Result<OdohConfig, OdohError>)
    ensures
        match r {
            Ok(c) => spec_first_supported(config_views(set@)) == Some(c@),
            Err(e) => e == OdohError::UnsupportedConfig && spec_first_supported(config_views(set@)) is None,
        },
{
    let n: usize = set.len();
    let mut i: usize = 0;
    proof {
        assert(config_views(set@).skip(0) =~= config_views(set@));
    }
    while i < n
        invariant
            i <= n,
            n == set@.len(),
            spec_first_supported(config_views(set@)) == spec_first_supported(
                config_views(set@).skip(i as int),
            ),
        decreases n - i,
    {
        let c = &set[i];
        proof {
            assert(config_views(set@).skip(i as int)[0] == set@[i as int]@);
        }
        if c.is_supported() {
            return Ok(c.duplicate());
        }
        proof {
            assert(config_views(set@).skip(i as int).drop_first() =~= config_views(set@).skip(
                i + 1,
            ));
        }
        i = i + 1;
    }
    proof {
        assert(config_views(set@).skip(n as int) =~= Seq::<ConfigView>::empty());
    }
    Err(OdohError::UnsupportedConfig)
}

} // verus!

