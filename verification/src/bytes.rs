//! Small operations on byte buffers that the report formats share.

use vstd::prelude::*;

verus! {

/// The byte at position `i` of a buffer. A buffer stands for itself
/// followed by zeros without end, as a read into a cleared buffer leaves it.
pub open spec fn byte_at(bytes: Seq<u8>, i: int) -> u8 {
    if 0 <= i < bytes.len() {
        bytes[i]
    } else {
        0u8
    }
}

/// The first `len` bytes of a buffer, with zeros where the buffer has
/// ended.
pub open spec fn padded(bytes: Seq<u8>, len: int) -> Seq<u8> {
    Seq::new(
        if len >= 0 {
            len as nat
        } else {
            0
        },
        |i: int| byte_at(bytes, i),
    )
}

/// The number whose low byte is `lo` and whose high byte is `hi`.
pub open spec fn le16(lo: u8, hi: u8) -> u16 {
    (lo + 256 * hi) as u16
}

/// The two low bytes of a number, the lower one first.
pub open spec fn le16_bytes(v: int) -> Seq<u8> {
    seq![(v % 256) as u8, ((v / 256) % 256) as u8]
}

/// The byte read as a number in two's complement.
pub open spec fn as_signed(b: u8) -> i8 {
    if b < 128 {
        b as i8
    } else {
        (b - 256) as i8
    }
}

/// The byte at position `i` of a buffer, zero beyond its end.
pub fn byte_or_zero(bytes: &[u8], i: usize) -> (b: u8)
    ensures
        b == byte_at(bytes@, i as int),
{
    if i < bytes.len() {
        bytes[i]
    } else {
        0
    }
}

/// The number whose low byte is `lo` and whose high byte is `hi`.
pub fn u16_from_le(lo: u8, hi: u8) -> (v: u16)
    ensures
        v == le16(lo, hi),
        le16_bytes(v as int) == seq![lo, hi],
{
    let low: u16 = lo as u16;
    let high: u16 = hi as u16;
    let v: u16 = low + 256 * high;
    assert(le16_bytes(v as int) =~= seq![lo, hi]);
    v
}

/// The byte read as a number in two's complement.
pub fn i8_from_byte(b: u8) -> (v: i8)
    ensures
        v == as_signed(b),
{
    if b < 128 {
        b as i8
    } else {
        let wide: i16 = b as i16 - 256;
        wide as i8
    }
}

/// A buffer of `len` zeros.
pub fn zeroed(len: usize) -> (buf: Vec<u8>)
    ensures
        buf@ == padded(Seq::empty(), len as int),
{
    let mut buf: Vec<u8> = Vec::new();
    while buf.len() < len
        invariant
            buf@.len() <= len,
            forall|i: int| 0 <= i < buf@.len() ==> buf@[i] == 0,
        decreases len - buf@.len(),
    {
        buf.push(0);
    }
    assert(buf@ =~= padded(Seq::empty(), len as int));
    buf
}

/// Overwrites the bytes of `buf` from position `at` on with the bytes
/// `start..end` of `src`, and leaves the rest of `buf` as it was.
pub fn copy_into(buf: &mut Vec<u8>, at: usize, src: &[u8], start: usize, end: usize)
    requires
        start <= end <= src@.len(),
        at + (end - start) <= old(buf)@.len(),
    ensures
        final(buf)@ == old(buf)@.subrange(0, at as int) + src@.subrange(start as int, end as int)
            + old(buf)@.subrange(at + (end - start), old(buf)@.len() as int),
{
    let count: usize = end - start;
    let mut i: usize = 0;
    let total: usize = buf.len();
    while i < count
        invariant
            i <= count,
            at + count <= total,
            count == end - start,
            start <= end <= src@.len(),
            at + count <= buf@.len(),
            buf@.len() == old(buf)@.len(),
            buf@ == old(buf)@.subrange(0, at as int) + src@.subrange(start as int, start + i)
                + old(buf)@.subrange(at + i, old(buf)@.len() as int),
        decreases count - i,
    {
        buf.set(at + i, src[start + i]);
        i += 1;
        assert(buf@ =~= old(buf)@.subrange(0, at as int) + src@.subrange(
            start as int,
            start + i,
        ) + old(buf)@.subrange(at + i, old(buf)@.len() as int));
    }
}

} // verus!
