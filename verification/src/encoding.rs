//! Fixed-width integer serialization used by the canonical byte encoding.
//!
//! Every multi-byte integer is written in little-endian order with a fixed
//! width, so that the byte stream fed to the hasher is a pure function of the
//! logical values encoded.

use vstd::prelude::*;

verus! {

/// A value with a canonical byte encoding: identical logical values yield
/// identical bytes, on every run and every machine. The hasher absorbs
/// values only through this trait, so a digest is a pure function of the
/// encoded inputs.
pub trait CanonicalEncode {
    /// The canonical byte encoding of the value.
    spec fn enc(&self) -> Seq<u8>;

    /// Appends the canonical encoding of the value to `out`.
    fn encode_append(&self, out: &mut Vec<u8>)
        ensures
            final(out)@ == old(out)@ + self.enc(),
    ;
}

impl CanonicalEncode for u32 {
    /// A 32-bit integer encodes as its four little-endian bytes.
    open spec fn enc(&self) -> Seq<u8> {
        u32_le(*self)
    }

    fn encode_append(&self, out: &mut Vec<u8>)
        ensures
            final(out)@ == old(out)@ + self.enc(),
    {
        push_u32_le(out, *self);
    }
}

/// Appends a whole byte slice.
pub fn append_bytes(out: &mut Vec<u8>, b: &[u8])
    ensures
        final(out)@ == old(out)@ + b@,
{
    let mut i: usize = 0;
    while i < b.len()
        invariant
            i <= b@.len(),
            out@ == old(out)@ + b@.take(i as int),
        decreases b@.len() - i,
    {
        out.push(b[i]);
        i = i + 1;
        proof {
            assert(out@ =~= old(out)@ + b@.take(i as int));
        }
    }
    proof {
        assert(old(out)@ + b@.take(b@.len() as int) =~= old(out)@ + b@);
    }
}

/// The eight little-endian bytes of a 64-bit integer.
pub open spec fn u64_le(n: u64) -> Seq<u8> {
    seq![
        (n & 0xff) as u8,
        ((n >> 8) & 0xff) as u8,
        ((n >> 16) & 0xff) as u8,
        ((n >> 24) & 0xff) as u8,
        ((n >> 32) & 0xff) as u8,
        ((n >> 40) & 0xff) as u8,
        ((n >> 48) & 0xff) as u8,
        ((n >> 56) & 0xff) as u8,
    ]
}

/// The four little-endian bytes of a 32-bit integer.
pub open spec fn u32_le(n: u32) -> Seq<u8> {
    seq![
        (n & 0xff) as u8,
        ((n >> 8) & 0xff) as u8,
        ((n >> 16) & 0xff) as u8,
        ((n >> 24) & 0xff) as u8,
    ]
}

/// Appends the eight little-endian bytes of `n`.
pub fn push_u64_le(out: &mut Vec<u8>, n: u64)
    ensures
        final(out)@ == old(out)@ + u64_le(n),
{
    out.push((n & 0xff) as u8);
    out.push(((n >> 8) & 0xff) as u8);
    out.push(((n >> 16) & 0xff) as u8);
    out.push(((n >> 24) & 0xff) as u8);
    out.push(((n >> 32) & 0xff) as u8);
    out.push(((n >> 40) & 0xff) as u8);
    out.push(((n >> 48) & 0xff) as u8);
    out.push(((n >> 56) & 0xff) as u8);
    proof {
        assert(out@ =~= old(out)@ + u64_le(n));
    }
}

/// Appends the four little-endian bytes of `n`.
pub fn push_u32_le(out: &mut Vec<u8>, n: u32)
    ensures
        final(out)@ == old(out)@ + u32_le(n),
{
    out.push((n & 0xff) as u8);
    out.push(((n >> 8) & 0xff) as u8);
    out.push(((n >> 16) & 0xff) as u8);
    out.push(((n >> 24) & 0xff) as u8);
    proof {
        assert(out@ =~= old(out)@ + u32_le(n));
    }
}

/// A common prefix keeps distinct byte sequences distinct.
pub proof fn lemma_concat_distinct_suffix(pre: Seq<u8>, x: Seq<u8>, y: Seq<u8>)
    requires
        x != y,
    ensures
        pre + x != pre + y,
{
    if x.len() == y.len() {
        if pre + x == pre + y {
            assert forall|i: int| 0 <= i < x.len() implies x[i] == y[i] by {
                assert((pre + x)[pre.len() + i] == (pre + y)[pre.len() + i]);
            }
            assert(x =~= y);
        }
    } else {
        assert((pre + x).len() != (pre + y).len());
    }
}

/// Two distinct 64-bit integers never share a little-endian encoding.
pub proof fn lemma_u64_le_injective(a: u64, b: u64)
    requires
        a != b,
    ensures
        u64_le(a) != u64_le(b),
{
    if u64_le(a) == u64_le(b) {
        assert(u64_le(a)[0] == u64_le(b)[0]);
        assert(u64_le(a)[1] == u64_le(b)[1]);
        assert(u64_le(a)[2] == u64_le(b)[2]);
        assert(u64_le(a)[3] == u64_le(b)[3]);
        assert(u64_le(a)[4] == u64_le(b)[4]);
        assert(u64_le(a)[5] == u64_le(b)[5]);
        assert(u64_le(a)[6] == u64_le(b)[6]);
        assert(u64_le(a)[7] == u64_le(b)[7]);
        assert(false) by (bit_vector)
            requires
                (a & 0xff) as u8 == (b & 0xff) as u8,
                ((a >> 8) & 0xff) as u8 == ((b >> 8) & 0xff) as u8,
                ((a >> 16) & 0xff) as u8 == ((b >> 16) & 0xff) as u8,
                ((a >> 24) & 0xff) as u8 == ((b >> 24) & 0xff) as u8,
                ((a >> 32) & 0xff) as u8 == ((b >> 32) & 0xff) as u8,
                ((a >> 40) & 0xff) as u8 == ((b >> 40) & 0xff) as u8,
                ((a >> 48) & 0xff) as u8 == ((b >> 48) & 0xff) as u8,
                ((a >> 56) & 0xff) as u8 == ((b >> 56) & 0xff) as u8,
                a != b,
        ;
    }
}

} // verus!
