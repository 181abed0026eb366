//! Little-endian integer encoding used by the binary snapshots.
use vstd::prelude::*;

verus! {

/// The four little-endian bytes of `v`.
pub open spec fn le32(v: u32) -> Seq<u8> {
    seq![
        (v & 0xff) as u8,
        ((v >> 8u32) & 0xff) as u8,
        ((v >> 16u32) & 0xff) as u8,
        ((v >> 24u32) & 0xff) as u8,
    ]
}

/// The eight little-endian bytes of `v`.
pub open spec fn le64(v: u64) -> Seq<u8> {
    le32((v & 0xffff_ffff) as u32) + le32((v >> 32u64) as u32)
}

/// The value of four little-endian bytes starting at `offset`.
pub open spec fn read_le32(bytes: Seq<u8>, offset: int) -> u32 {
    (bytes[offset] as u32) | ((bytes[offset + 1] as u32) << 8u32) | ((bytes[offset + 2] as u32)
        << 16u32) | ((bytes[offset + 3] as u32) << 24u32)
}

/// The value of eight little-endian bytes starting at `offset`.
pub open spec fn read_le64(bytes: Seq<u8>, offset: int) -> u64 {
    (read_le32(bytes, offset) as u64) | ((read_le32(bytes, offset + 4) as u64) << 32u64)
}

/// Reading back four encoded bytes gives the encoded value.
pub proof fn lemma_le32_roundtrip(v: u32)
    ensures
        le32(v).len() == 4,
        read_le32(le32(v), 0) == v,
{
    let b0 = (v & 0xff) as u8;
    let b1 = ((v >> 8u32) & 0xff) as u8;
    let b2 = ((v >> 16u32) & 0xff) as u8;
    let b3 = ((v >> 24u32) & 0xff) as u8;
    assert((b0 as u32) | ((b1 as u32) << 8u32) | ((b2 as u32) << 16u32) | ((b3 as u32) << 24u32)
        == v) by (bit_vector)
        requires
            b0 == (v & 0xff) as u8,
            b1 == ((v >> 8u32) & 0xff) as u8,
            b2 == ((v >> 16u32) & 0xff) as u8,
            b3 == ((v >> 24u32) & 0xff) as u8,
    ;
}

/// Reading back eight encoded bytes gives the encoded value.
pub proof fn lemma_le64_roundtrip(v: u64)
    ensures
        le64(v).len() == 8,
        read_le64(le64(v), 0) == v,
{
    let lo = (v & 0xffff_ffff) as u32;
    let hi = (v >> 32u64) as u32;
    lemma_le32_roundtrip(lo);
    lemma_le32_roundtrip(hi);
    let s = le64(v);
    assert(s.subrange(0, 4) == le32(lo));
    assert(s.subrange(4, 8) == le32(hi));
    assert(read_le32(s, 0) == read_le32(le32(lo), 0));
    assert(read_le32(s, 4) == read_le32(le32(hi), 0));
    assert(((lo as u64) | ((hi as u64) << 32u64)) == v) by (bit_vector)
        requires
            lo == (v & 0xffff_ffff) as u32,
            hi == (v >> 32u64) as u32,
    ;
}

/// Reading is unaffected by bytes outside the four read.
pub proof fn lemma_read_le32_window(a: Seq<u8>, b: Seq<u8>, offset_a: int, offset_b: int)
    requires
        0 <= offset_a,
        offset_a + 4 <= a.len(),
        0 <= offset_b,
        offset_b + 4 <= b.len(),
        a.subrange(offset_a, offset_a + 4) == b.subrange(offset_b, offset_b + 4),
    ensures
        read_le32(a, offset_a) == read_le32(b, offset_b),
{
    assert(a[offset_a] == a.subrange(offset_a, offset_a + 4)[0]);
    assert(a[offset_a + 1] == a.subrange(offset_a, offset_a + 4)[1]);
    assert(a[offset_a + 2] == a.subrange(offset_a, offset_a + 4)[2]);
    assert(a[offset_a + 3] == a.subrange(offset_a, offset_a + 4)[3]);
    assert(b[offset_b] == b.subrange(offset_b, offset_b + 4)[0]);
    assert(b[offset_b + 1] == b.subrange(offset_b, offset_b + 4)[1]);
    assert(b[offset_b + 2] == b.subrange(offset_b, offset_b + 4)[2]);
    assert(b[offset_b + 3] == b.subrange(offset_b, offset_b + 4)[3]);
}

/// Appends the little-endian bytes of `v`.
pub fn push_le32(out: &mut Vec<u8>, v: u32)
    ensures
        final(out)@ == old(out)@ + le32(v),
{
    out.push((v & 0xff) as u8);
    out.push(((v >> 8u32) & 0xff) as u8);
    out.push(((v >> 16u32) & 0xff) as u8);
    out.push(((v >> 24u32) & 0xff) as u8);
    assert(out@ == old(out)@ + le32(v));
}

/// Appends the little-endian bytes of `v`.
pub fn push_le64(out: &mut Vec<u8>, v: u64)
    ensures
        final(out)@ == old(out)@ + le64(v),
{
    push_le32(out, (v & 0xffff_ffff) as u32);
    push_le32(out, (v >> 32u64) as u32);
    assert(out@ == old(out)@ + le64(v));
}

/// Reads four little-endian bytes starting at `offset`.
pub fn get_le32(bytes: &[u8], offset: usize) -> (v: u32)
    requires
        offset + 4 <= bytes@.len(),
    ensures
        v == read_le32(bytes@, offset as int),
{
    (bytes[offset] as u32) | ((bytes[offset + 1] as u32) << 8u32) | ((bytes[offset + 2] as u32)
        << 16u32) | ((bytes[offset + 3] as u32) << 24u32)
}

} // verus!
