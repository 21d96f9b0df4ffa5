//! Little-endian reading and writing of fixed-width integers in byte buffers.
use vstd::prelude::*;
use vstd::bytes::{
    spec_u16_from_le_bytes, spec_u16_to_le_bytes, spec_u32_from_le_bytes, spec_u32_to_le_bytes,
    spec_u64_from_le_bytes, spec_u64_to_le_bytes, u16_from_le_bytes, u16_to_le_bytes,
    u32_from_le_bytes, u32_to_le_bytes, u64_from_le_bytes, u64_to_le_bytes,
    lemma_auto_spec_u16_to_from_le_bytes, lemma_auto_spec_u32_to_from_le_bytes,
    lemma_auto_spec_u64_to_from_le_bytes,
};

verus! {

/// The `u16` stored little-endian at `data[off..off + 2]`.
pub open spec fn le16(data: Seq<u8>, off: int) -> u16 {
    spec_u16_from_le_bytes(data.subrange(off, off + 2))
}

/// The `u32` stored little-endian at `data[off..off + 4]`.
pub open spec fn le32(data: Seq<u8>, off: int) -> u32 {
    spec_u32_from_le_bytes(data.subrange(off, off + 4))
}

/// The `u64` stored little-endian at `data[off..off + 8]`.
pub open spec fn le64(data: Seq<u8>, off: int) -> u64 {
    spec_u64_from_le_bytes(data.subrange(off, off + 8))
}

/// The little-endian bytes of `x`.
pub open spec fn bytes16(x: u16) -> Seq<u8> {
    spec_u16_to_le_bytes(x)
}

/// The little-endian bytes of `x`.
pub open spec fn bytes32(x: u32) -> Seq<u8> {
    spec_u32_to_le_bytes(x)
}

/// The little-endian bytes of `x`.
pub open spec fn bytes64(x: u64) -> Seq<u8> {
    spec_u64_to_le_bytes(x)
}

/// `n` zero bytes.
pub open spec fn zeros(n: nat) -> Seq<u8> {
    Seq::new(n, |i: int| 0u8)
}

/// Encoding a value and reading it back gives the value; each encoding has its width.
pub proof fn lemma_le_roundtrip()
    ensures
        forall|x: u16| #[trigger] bytes16(x).len() == 2 && le16(bytes16(x), 0) == x,
        forall|x: u32| #[trigger] bytes32(x).len() == 4 && le32(bytes32(x), 0) == x,
        forall|x: u64| #[trigger] bytes64(x).len() == 8 && le64(bytes64(x), 0) == x,
{
    lemma_auto_spec_u16_to_from_le_bytes();
    lemma_auto_spec_u32_to_from_le_bytes();
    lemma_auto_spec_u64_to_from_le_bytes();
    assert forall|x: u16| #[trigger] bytes16(x).len() == 2 && le16(bytes16(x), 0) == x by {
        assert(bytes16(x).subrange(0, 2) =~= bytes16(x));
    }
    assert forall|x: u32| #[trigger] bytes32(x).len() == 4 && le32(bytes32(x), 0) == x by {
        assert(bytes32(x).subrange(0, 4) =~= bytes32(x));
    }
    assert forall|x: u64| #[trigger] bytes64(x).len() == 8 && le64(bytes64(x), 0) == x by {
        assert(bytes64(x).subrange(0, 8) =~= bytes64(x));
    }
}

/// Reading a field back out of a buffer in which its encoding stands at `off`.
pub proof fn lemma_read_back_32(buf: Seq<u8>, off: int, x: u32)
    requires
        0 <= off,
        off + 4 <= buf.len(),
        buf.subrange(off, off + 4) == bytes32(x),
    ensures
        le32(buf, off) == x,
{
    lemma_le_roundtrip();
    assert(bytes32(x).subrange(0, 4) =~= bytes32(x));
}

pub proof fn lemma_read_back_16(buf: Seq<u8>, off: int, x: u16)
    requires
        0 <= off,
        off + 2 <= buf.len(),
        buf.subrange(off, off + 2) == bytes16(x),
    ensures
        le16(buf, off) == x,
{
    lemma_le_roundtrip();
    assert(bytes16(x).subrange(0, 2) =~= bytes16(x));
}

pub proof fn lemma_read_back_64(buf: Seq<u8>, off: int, x: u64)
    requires
        0 <= off,
        off + 8 <= buf.len(),
        buf.subrange(off, off + 8) == bytes64(x),
    ensures
        le64(buf, off) == x,
{
    lemma_le_roundtrip();
    assert(bytes64(x).subrange(0, 8) =~= bytes64(x));
}

/// A copy of `data[off..off + n]`.
pub fn copy_range(data: &[u8], off: usize, n: usize) -> (r: Vec<u8>)
    requires
        off + n <= data@.len(),
    ensures
        r@ == data@.subrange(off as int, off + n),
{
    let mut r: Vec<u8> = Vec::new();
    let len = data.len();
    let mut i: usize = 0;
    while i < n
        invariant
            i <= n,
            off + n <= data@.len(),
            len == data@.len(),
            r@ == data@.subrange(off as int, off + i),
        decreases n - i,
    {
        r.push(data[off + i]);
        i = i + 1;
        assert(r@ =~= data@.subrange(off as int, off + i));
    }
    r
}

/// The `u16` at `data[off..off + 2]`.
pub fn read_u16(data: &[u8], off: usize) -> (r: u16)
    requires
        off + 2 <= data@.len(),
    ensures
        r == le16(data@, off as int),
{
    let b = copy_range(data, off, 2);
    u16_from_le_bytes(b.as_slice())
}

/// The `u32` at `data[off..off + 4]`.
pub fn read_u32(data: &[u8], off: usize) -> (r: u32)
    requires
        off + 4 <= data@.len(),
    ensures
        r == le32(data@, off as int),
{
    let b = copy_range(data, off, 4);
    u32_from_le_bytes(b.as_slice())
}

/// The `u64` at `data[off..off + 8]`.
pub fn read_u64(data: &[u8], off: usize) -> (r: u64)
    requires
        off + 8 <= data@.len(),
    ensures
        r == le64(data@, off as int),
{
    let b = copy_range(data, off, 8);
    u64_from_le_bytes(b.as_slice())
}

/// Appends the bytes of `src` to `buf`.
pub fn put_bytes(buf: &mut Vec<u8>, src: &[u8])
    ensures
        final(buf)@ == old(buf)@ + src@,
{
    let mut i: usize = 0;
    while i < src.len()
        invariant
            i <= src@.len(),
            buf@ == old(buf)@ + src@.subrange(0, i as int),
        decreases src@.len() - i,
    {
        buf.push(src[i]);
        i = i + 1;
        assert(buf@ =~= old(buf)@ + src@.subrange(0, i as int));
    }
    assert(src@.subrange(0, i as int) =~= src@);
}

/// Appends `x` little-endian.
pub fn put_u16(buf: &mut Vec<u8>, x: u16)
    ensures
        final(buf)@ == old(buf)@ + bytes16(x),
{
    let b = u16_to_le_bytes(x);
    put_bytes(buf, b.as_slice());
}

/// Appends `x` little-endian.
pub fn put_u32(buf: &mut Vec<u8>, x: u32)
    ensures
        final(buf)@ == old(buf)@ + bytes32(x),
{
    let b = u32_to_le_bytes(x);
    put_bytes(buf, b.as_slice());
}

/// Appends `x` little-endian.
pub fn put_u64(buf: &mut Vec<u8>, x: u64)
    ensures
        final(buf)@ == old(buf)@ + bytes64(x),
{
    let b = u64_to_le_bytes(x);
    put_bytes(buf, b.as_slice());
}

/// Appends `n` zero bytes.
pub fn put_zeros(buf: &mut Vec<u8>, n: usize)
    ensures
        final(buf)@ == old(buf)@ + zeros(n as nat),
{
    let mut i: usize = 0;
    while i < n
        invariant
            i <= n,
            buf@ == old(buf)@ + zeros(i as nat),
        decreases n - i,
    {
        buf.push(0u8);
        i = i + 1;
        assert(buf@ =~= old(buf)@ + zeros(i as nat));
    }
}

} // verus!
