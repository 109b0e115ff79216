//! Fixed-width little-endian integers inside byte sequences.
//!
//! The connector protocol lays its integers out in the host's byte order; this
//! library targets little-endian hosts (x86, ARM, RISC-V), where that order is
//! little-endian.
use vstd::bytes::*;
use vstd::prelude::*;
use vstd::slice::slice_subrange;

verus! {

/// The two bytes that encode `x`.
pub open spec fn le16(x: u16) -> Seq<u8> {
    spec_u16_to_le_bytes(x)
}

/// The four bytes that encode `x`.
pub open spec fn le32(x: u32) -> Seq<u8> {
    spec_u32_to_le_bytes(x)
}

/// The eight bytes that encode `x`.
pub open spec fn le64(x: u64) -> Seq<u8> {
    spec_u64_to_le_bytes(x)
}

/// The 16-bit integer stored at `off` in `s`.
pub open spec fn u16_at(s: Seq<u8>, off: int) -> u16 {
    spec_u16_from_le_bytes(s.subrange(off, off + 2))
}

/// The 32-bit integer stored at `off` in `s`.
pub open spec fn u32_at(s: Seq<u8>, off: int) -> u32 {
    spec_u32_from_le_bytes(s.subrange(off, off + 4))
}

/// The 64-bit integer stored at `off` in `s`.
pub open spec fn u64_at(s: Seq<u8>, off: int) -> u64 {
    spec_u64_from_le_bytes(s.subrange(off, off + 8))
}

/// Encodings have their fixed widths and decode back to the value encoded.
pub proof fn lemma_le_encodings()
    ensures
        forall|x: u16| #![trigger le16(x)] le16(x).len() == 2 && spec_u16_from_le_bytes(le16(x)) == x,
        forall|x: u32| #![trigger le32(x)] le32(x).len() == 4 && spec_u32_from_le_bytes(le32(x)) == x,
        forall|x: u64| #![trigger le64(x)] le64(x).len() == 8 && spec_u64_from_le_bytes(le64(x)) == x,
{
    lemma_auto_spec_u16_to_from_le_bytes();
    lemma_auto_spec_u32_to_from_le_bytes();
    lemma_auto_spec_u64_to_from_le_bytes();
    assert forall|x: u32| #![trigger le32(x)] le32(x).len() == 4 && spec_u32_from_le_bytes(le32(x)) == x by {
        assert(spec_u32_to_le_bytes(x).len() == 4);
    }
}

/// Reads the 16-bit integer at `off`.
pub fn read_u16(b: &[u8], off: usize) -> (r: u16)
    requires
        off + 2 <= b@.len(),
    ensures
        r == u16_at(b@, off as int),
{
    let n = b.len();
    assert(off + 2 <= n);
    u16_from_le_bytes(slice_subrange(b, off, off + 2))
}

/// Reads the 32-bit integer at `off`.
pub fn read_u32(b: &[u8], off: usize) -> (r: u32)
    requires
        off + 4 <= b@.len(),
    ensures
        r == u32_at(b@, off as int),
{
    let n = b.len();
    assert(off + 4 <= n);
    u32_from_le_bytes(slice_subrange(b, off, off + 4))
}

/// Reads the 64-bit integer at `off`.
pub fn read_u64(b: &[u8], off: usize) -> (r: u64)
    requires
        off + 8 <= b@.len(),
    ensures
        r == u64_at(b@, off as int),
{
    let n = b.len();
    assert(off + 8 <= n);
    u64_from_le_bytes(slice_subrange(b, off, off + 8))
}

/// Appends the encoding of `x`.
pub fn push_u16(out: &mut Vec<u8>, x: u16)
    ensures
        final(out)@ == old(out)@ + le16(x),
{
    let mut b = u16_to_le_bytes(x);
    out.append(&mut b);
}

/// Appends the encoding of `x`.
pub fn push_u32(out: &mut Vec<u8>, x: u32)
    ensures
        final(out)@ == old(out)@ + le32(x),
{
    let mut b = u32_to_le_bytes(x);
    out.append(&mut b);
}

/// Appends the encoding of `x`.
pub fn push_u64(out: &mut Vec<u8>, x: u64)
    ensures
        final(out)@ == old(out)@ + le64(x),
{
    let mut b = u64_to_le_bytes(x);
    out.append(&mut b);
}

/// Overwrites the start of `buffer` with `src`; the bytes after it stay.
pub fn copy_prefix(buffer: &mut [u8], src: &[u8])
    requires
        src@.len() <= old(buffer)@.len(),
    ensures
        final(buffer)@ == src@ + old(buffer)@.skip(src@.len() as int),
{
    let n = src.len();
    let mut i: usize = 0;
    while i < n
        invariant
            n == src@.len(),
            i <= n,
            n <= buffer@.len(),
            buffer@.len() == old(buffer)@.len(),
            forall|k: int| 0 <= k < i ==> buffer@[k] == src@[k],
            forall|k: int| i <= k < buffer@.len() ==> buffer@[k] == old(buffer)@[k],
        decreases n - i,
    {
        buffer[i] = src[i];
        i = i + 1;
    }
    assert(buffer@ =~= src@ + old(buffer)@.skip(n as int));
}

/// Overwrites `buffer` from `off` on with `src`; the bytes before and after
/// stay.
pub fn copy_at(buffer: &mut [u8], off: usize, src: &[u8])
    requires
        off + src@.len() <= old(buffer)@.len(),
    ensures
        final(buffer)@ == old(buffer)@.take(off as int) + src@ + old(buffer)@.skip(
            off + src@.len(),
        ),
{
    let n = src.len();
    let len = buffer.len();
    let mut i: usize = 0;
    while i < n
        invariant
            n == src@.len(),
            i <= n,
            off + n <= len,
            len == old(buffer)@.len(),
            buffer@.len() == old(buffer)@.len(),
            forall|k: int| 0 <= k < off ==> buffer@[k] == old(buffer)@[k],
            forall|k: int| 0 <= k < i ==> buffer@[off + k] == src@[k],
            forall|k: int| off + i <= k < buffer@.len() ==> buffer@[k] == old(buffer)@[k],
        decreases n - i,
    {
        buffer[off + i] = src[i];
        i = i + 1;
    }
    assert(buffer@ =~= old(buffer)@.take(off as int) + src@ + old(buffer)@.skip(off + n));
}

} // verus!
