//! The plaintext payload wrapped for encryption: a serialized DNS
//! query plus zero padding. Padding content is not security-critical,
//! but its length affects ciphertext size and is preserved through
//! encode and decode.

use vstd::prelude::*;

verus! {

/// Mathematical model of a query body.
#[verifier::ext_equal]
pub struct QueryBodyView {
    pub dns_msg: Seq<u8>,
    pub padding: Seq<u8>,
}

/// The plaintext wrapped for encryption: the serialized DNS query and
/// its padding bytes.
#[derive(Debug)]
pub struct QueryBody {
    pub dns_msg: Vec<u8>,
    pub padding: Vec<u8>,
}

impl View for QueryBody {
    type V = QueryBodyView;

    open spec fn view(&self) -> QueryBodyView {
        QueryBodyView { dns_msg: self.dns_msg@, padding: self.padding@ }
    }
}

/// Well-formed padding is all zeros.
pub open spec fn spec_padding_ok(q: QueryBodyView) -> bool {
    forall|i: int| 0 <= i < q.padding.len() ==> q.padding[i] == 0u8
}

impl QueryBody {
    /// Wraps a serialized DNS query with `padding_len` zero bytes.
    pub fn new(dns_msg: Vec<u8>, padding_len: usize) -> (r: QueryBody)
        ensures
            r@.dns_msg == dns_msg@,
            r@.padding.len() == padding_len,
            spec_padding_ok(r@),
    {
        let mut padding: Vec<u8> = Vec::new();
        let mut i: usize = 0;
        while i < padding_len
            invariant
                i <= padding_len,
                padding@.len() == i,
                forall|k: int| 0 <= k < i ==> padding@[k] == 0u8,
            decreases padding_len - i,
        {
            padding.push(0u8);
            i = i + 1;
        }
        QueryBody { dns_msg, padding }
    }
}

/// Overwrites a secret buffer with zeros, keeping its length, so that
/// per-query key material does not outlive its use.
pub fn wipe(buf: &mut Vec<u8>)
    ensures
        final(buf)@.len() == old(buf)@.len(),
        forall|i: int| 0 <= i < final(buf)@.len() ==> final(buf)@[i] == 0u8,
{
    let n: usize = buf.len();
    let mut z: Vec<u8> = Vec::new();
    let mut i: usize = 0;
    while i < n
        invariant
            i <= n,
            z@.len() == i,
            forall|k: int| 0 <= k < i ==> z@[k] == 0u8,
        decreases n - i,
    {
        z.push(0u8);
        i = i + 1;
    }
    *buf = z;
}

} // verus!
