//! Little-endian integer encoding and small byte-vector helpers used by
//! the key-derivation preimages and the recovery-data payload.

use vstd::prelude::*;

verus! {

/// The eight little-endian bytes of a `u64`.
pub open spec fn spec_u64_le(v: u64) -> Seq<u8> {
    Seq::new(8, |i: int| ((v >> (i * 8)) & 0xff) as u8)
}

/// A `u64` value widened to a 32-byte little-endian scalar encoding.
pub open spec fn spec_u64_le_32(v: u64) -> Seq<u8> {
    spec_u64_le(v) + Seq::new(24, |i: int| 0u8)
}

/// The 32-byte encoding of the zero scalar.
pub open spec fn zero_scalar_bytes() -> Seq<u8> {
    spec_u64_le_32(0)
}

/// The `u64` read back from eight little-endian bytes.
pub open spec fn spec_le_u64(s: Seq<u8>) -> u64 {
    (s[0] as u64) | (s[1] as u64) << 8 | (s[2] as u64) << 16 | (s[3] as u64) << 24
        | (s[4] as u64) << 32 | (s[5] as u64) << 40 | (s[6] as u64) << 48 | (s[7] as u64) << 56
}

/// Reading back the little-endian bytes of a value gives the value.
pub proof fn lemma_u64_le_round_trip(v: u64)
    ensures
        spec_le_u64(spec_u64_le(v)) == v,
{
    let s = spec_u64_le(v);
    assert(((v >> 0) & 0xff) < 256 && ((v >> 8) & 0xff) < 256 && ((v >> 16) & 0xff) < 256
        && ((v >> 24) & 0xff) < 256 && ((v >> 32) & 0xff) < 256 && ((v >> 40) & 0xff) < 256
        && ((v >> 48) & 0xff) < 256 && ((v >> 56) & 0xff) < 256) by (bit_vector);
    assert(s[0] as u64 == (v >> 0) & 0xff);
    assert(s[1] as u64 == (v >> 8) & 0xff);
    assert(s[2] as u64 == (v >> 16) & 0xff);
    assert(s[3] as u64 == (v >> 24) & 0xff);
    assert(s[4] as u64 == (v >> 32) & 0xff);
    assert(s[5] as u64 == (v >> 40) & 0xff);
    assert(s[6] as u64 == (v >> 48) & 0xff);
    assert(s[7] as u64 == (v >> 56) & 0xff);
    assert(((v >> 0) & 0xff) | ((v >> 8) & 0xff) << 8 | ((v >> 16) & 0xff) << 16
        | ((v >> 24) & 0xff) << 24 | ((v >> 32) & 0xff) << 32 | ((v >> 40) & 0xff) << 40
        | ((v >> 48) & 0xff) << 48 | ((v >> 56) & 0xff) << 56 == v) by (bit_vector);
}

/// Append the eight little-endian bytes of `v` to `out`.
pub fn push_u64_le(out: &mut Vec<u8>, v: u64)
    ensures
        final(out)@ == old(out)@ + spec_u64_le(v),
{
    let b0: u8 = ((v >> 0) & 0xff) as u8;
    let b1: u8 = ((v >> 8) & 0xff) as u8;
    let b2: u8 = ((v >> 16) & 0xff) as u8;
    let b3: u8 = ((v >> 24) & 0xff) as u8;
    let b4: u8 = ((v >> 32) & 0xff) as u8;
    let b5: u8 = ((v >> 40) & 0xff) as u8;
    let b6: u8 = ((v >> 48) & 0xff) as u8;
    let b7: u8 = ((v >> 56) & 0xff) as u8;
    out.push(b0);
    out.push(b1);
    out.push(b2);
    out.push(b3);
    out.push(b4);
    out.push(b5);
    out.push(b6);
    out.push(b7);
    proof {
        assert(out@ =~= old(out)@ + spec_u64_le(v));
    }
}

/// Read a `u64` from the eight little-endian bytes of `s` starting at
/// `start`.
pub fn read_u64_le(s: &Vec<u8>, start: usize) -> (r: u64)
    requires
        start + 8 <= s@.len(),
    ensures
        r == spec_le_u64(s@.subrange(start as int, start + 8)),
{
    let n: usize = s.len();
    assert(start + 8 <= n);
    let r: u64 = (s[start] as u64) | (s[start + 1] as u64) << 8 | (s[start + 2] as u64) << 16
        | (s[start + 3] as u64) << 24 | (s[start + 4] as u64) << 32 | (s[start + 5] as u64) << 40
        | (s[start + 6] as u64) << 48 | (s[start + 7] as u64) << 56;
    proof {
        let sub = s@.subrange(start as int, start + 8);
        assert(sub[0] == s@[start as int]);
        assert(sub[1] == s@[start as int + 1]);
        assert(sub[2] == s@[start as int + 2]);
        assert(sub[3] == s@[start as int + 3]);
        assert(sub[4] == s@[start as int + 4]);
        assert(sub[5] == s@[start as int + 5]);
        assert(sub[6] == s@[start as int + 6]);
        assert(sub[7] == s@[start as int + 7]);
    }
    r
}

/// Append all bytes of `src` to `dst`.
pub fn push_bytes(dst: &mut Vec<u8>, src: &[u8])
    ensures
        final(dst)@ == old(dst)@ + src@,
{
    let mut i: usize = 0;
    while i < src.len()
        invariant
            i <= src@.len(),
            dst@ == old(dst)@ + src@.subrange(0, i as int),
        decreases src@.len() - i,
    {
        let b: u8 = src[i];
        dst.push(b);
        i = i + 1;
        proof {
            assert(dst@ =~= old(dst)@ + src@.subrange(0, i as int));
        }
    }
    proof {
        assert(src@.subrange(0, src@.len() as int) =~= src@);
    }
}

/// The bytes of `src` from `start` (inclusive) to `end` (exclusive), as a
/// fresh vector.
pub fn sub_bytes(src: &Vec<u8>, start: usize, end: usize) -> (r: Vec<u8>)
    requires
        start <= end <= src@.len(),
    ensures
        r@ == src@.subrange(start as int, end as int),
{
    let mut out: Vec<u8> = Vec::new();
    let mut i: usize = start;
    while i < end
        invariant
            start <= i <= end <= src@.len(),
            out@ == src@.subrange(start as int, i as int),
        decreases end - i,
    {
        let b: u8 = src[i];
        out.push(b);
        i = i + 1;
        proof {
            assert(out@ =~= src@.subrange(start as int, i as int));
        }
    }
    out
}

/// A fresh vector holding the same bytes.
pub fn clone_bytes(src: &Vec<u8>) -> (r: Vec<u8>)
    ensures
        r@ == src@,
{
    let r = src.clone();
    proof {
        assert(r@ =~= src@);
    }
    r
}

} // verus!
