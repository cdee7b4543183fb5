//! Fixed-width little-endian codec primitives shared by the instruction
//! decoder and the escrow record layout.
use vstd::prelude::*;

verus! {

/// The u64 that an 8-byte little-endian sequence encodes.
pub open spec fn u64_from_le(s: Seq<u8>) -> u64
    recommends
        s.len() == 8,
{
    ((s[0] as u64) | ((s[1] as u64) << 8) | ((s[2] as u64) << 16) | ((s[3] as u64) << 24)
        | ((s[4] as u64) << 32) | ((s[5] as u64) << 40) | ((s[6] as u64) << 48) | ((s[7]
        as u64) << 56)) as u64
}

/// The 8-byte little-endian encoding of `v`.
pub open spec fn u64_to_le(v: u64) -> Seq<u8> {
    seq![
        (v & 0xff) as u8,
        ((v >> 8) & 0xff) as u8,
        ((v >> 16) & 0xff) as u8,
        ((v >> 24) & 0xff) as u8,
        ((v >> 32) & 0xff) as u8,
        ((v >> 40) & 0xff) as u8,
        ((v >> 48) & 0xff) as u8,
        ((v >> 56) & 0xff) as u8,
    ]
}

/// Law: decoding an encoding gives the value back.
pub proof fn lemma_u64_le_round_trip(v: u64)
    ensures
        u64_from_le(u64_to_le(v)) == v,
{
    assert((((v & 0xff) as u8 as u64) | ((((v >> 8) & 0xff) as u8 as u64) << 8) | ((((v >> 16)
        & 0xff) as u8 as u64) << 16) | ((((v >> 24) & 0xff) as u8 as u64) << 24) | ((((v >> 32)
        & 0xff) as u8 as u64) << 32) | ((((v >> 40) & 0xff) as u8 as u64) << 40) | ((((v >> 48)
        & 0xff) as u8 as u64) << 48) | ((((v >> 56) & 0xff) as u8 as u64) << 56)) as u64 == v)
        by (bit_vector);
}

/// Law: encoding a decoded 8-byte sequence gives the bytes back.
pub proof fn lemma_u64_le_bytes_round_trip(s: Seq<u8>)
    requires
        s.len() == 8,
    ensures
        u64_to_le(u64_from_le(s)) == s,
{
    let b0 = s[0];
    let b1 = s[1];
    let b2 = s[2];
    let b3 = s[3];
    let b4 = s[4];
    let b5 = s[5];
    let b6 = s[6];
    let b7 = s[7];
    let v = ((b0 as u64) | ((b1 as u64) << 8) | ((b2 as u64) << 16) | ((b3 as u64) << 24) | ((
    b4 as u64) << 32) | ((b5 as u64) << 40) | ((b6 as u64) << 48) | ((b7 as u64) << 56)) as u64;
    assert((v & 0xff) as u8 == b0 && ((v >> 8) & 0xff) as u8 == b1 && ((v >> 16) & 0xff) as u8
        == b2 && ((v >> 24) & 0xff) as u8 == b3 && ((v >> 32) & 0xff) as u8 == b4 && ((v >> 40)
        & 0xff) as u8 == b5 && ((v >> 48) & 0xff) as u8 == b6 && ((v >> 56) & 0xff) as u8 == b7)
        by (bit_vector)
        requires
            v == ((b0 as u64) | ((b1 as u64) << 8) | ((b2 as u64) << 16) | ((b3 as u64) << 24)
                | ((b4 as u64) << 32) | ((b5 as u64) << 40) | ((b6 as u64) << 48) | ((b7
            as u64) << 56)) as u64,
    ;
    assert(u64_to_le(u64_from_le(s)) =~= s);
}

/// Reads the little-endian u64 stored at offset `off`.
pub fn read_u64_le(data: &[u8], off: usize) -> (r: u64)
    requires
        off + 8 <= data@.len(),
    ensures
        r == u64_from_le(data@.subrange(off as int, off as int + 8)),
{
    let n = data.len();
    assert(off + 8 <= n);
    let r = ((data[off] as u64) | ((data[off + 1] as u64) << 8) | ((data[off + 2] as u64) << 16)
        | ((data[off + 3] as u64) << 24) | ((data[off + 4] as u64) << 32) | ((data[off + 5]
        as u64) << 40) | ((data[off + 6] as u64) << 48) | ((data[off + 7] as u64) << 56));
    proof {
        let s = data@.subrange(off as int, off as int + 8);
        assert(s[0] == data@[off as int] && s[1] == data@[off as int + 1] && s[2] == data@[off
            as int + 2] && s[3] == data@[off as int + 3] && s[4] == data@[off as int + 4] && s[5]
            == data@[off as int + 5] && s[6] == data@[off as int + 6] && s[7] == data@[off as int
            + 7]);
    }
    r
}

/// Appends the little-endian bytes of `v`.
pub fn push_u64_le(out: &mut Vec<u8>, v: u64)
    ensures
        final(out)@ == old(out)@ + u64_to_le(v),
{
    proof {
        assert((v & 0xff) <= 0xff && ((v >> 8) & 0xff) <= 0xff && ((v >> 16) & 0xff) <= 0xff && ((
        v >> 24) & 0xff) <= 0xff && ((v >> 32) & 0xff) <= 0xff && ((v >> 40) & 0xff) <= 0xff && ((
        v >> 48) & 0xff) <= 0xff && ((v >> 56) & 0xff) <= 0xff) by (bit_vector);
    }
    out.push((v & 0xff) as u8);
    out.push(((v >> 8) & 0xff) as u8);
    out.push(((v >> 16) & 0xff) as u8);
    out.push(((v >> 24) & 0xff) as u8);
    out.push(((v >> 32) & 0xff) as u8);
    out.push(((v >> 40) & 0xff) as u8);
    out.push(((v >> 48) & 0xff) as u8);
    out.push(((v >> 56) & 0xff) as u8);
    proof {
        assert(out@ =~= old(out)@ + u64_to_le(v));
    }
}

/// Appends every byte of `src`.
pub fn push_bytes(out: &mut Vec<u8>, src: &[u8])
    ensures
        final(out)@ == old(out)@ + src@,
{
    let mut i: usize = 0;
    while i < src.len()
        invariant
            i <= src@.len(),
            out@ == old(out)@ + src@.subrange(0, i as int),
        decreases src@.len() - i,
    {
        out.push(src[i]);
        proof {
            assert(out@ =~= old(out)@ + src@.subrange(0, i as int + 1));
        }
        i = i + 1;
    }
    proof {
        assert(src@.subrange(0, src@.len() as int) =~= src@);
    }
}

/// Copies the `len` bytes starting at offset `off` into a fresh vector.
pub fn read_bytes(data: &[u8], off: usize, len: usize) -> (r: Vec<u8>)
    requires
        off + len <= data@.len(),
    ensures
        r@ == data@.subrange(off as int, off as int + len as int),
{
    let n = data.len();
    let mut r: Vec<u8> = Vec::new();
    let mut i: usize = 0;
    while i < len
        invariant
            i <= len,
            off + len <= n == data@.len(),
            r@ == data@.subrange(off as int, off as int + i as int),
        decreases len - i,
    {
        r.push(data[off + i]);
        proof {
            assert(r@ =~= data@.subrange(off as int, off as int + i as int + 1));
        }
        i = i + 1;
    }
    r
}

/// Copies a byte vector.
pub fn clone_bytes(v: &Vec<u8>) -> (r: Vec<u8>)
    ensures
        r@ == v@,
{
    let r = read_bytes(v.as_slice(), 0, v.len());
    proof {
        assert(v@.subrange(0, v@.len() as int) =~= v@);
    }
    r
}

/// Whether two byte vectors hold the same bytes.
pub fn bytes_eq(a: &[u8], b: &[u8]) -> (r: bool)
    ensures
        r == (a@ == b@),
{
    if a.len() != b.len() {
        return false;
    }
    let mut i: usize = 0;
    while i < a.len()
        invariant
            i <= a@.len(),
            a@.len() == b@.len(),
            forall|j: int| 0 <= j < i ==> a@[j] == b@[j],
        decreases a@.len() - i,
    {
        if a[i] != b[i] {
            return false;
        }
        i = i + 1;
    }
    proof {
        assert(a@ =~= b@);
    }
    true
}

} // verus!
