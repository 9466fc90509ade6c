//! Little-endian byte encoding and decoding.
//!
//! Netlink carries its integers in host byte order; this crate targets
//! little-endian hosts and states every contract over these functions.

use vstd::prelude::*;

verus! {

/// The two little-endian bytes of a 16-bit value.
pub open spec fn spec_le16(v: u16) -> Seq<u8> {
    seq![(v % 256) as u8, (v / 256) as u8]
}

/// The four little-endian bytes of a 32-bit value.
pub open spec fn spec_le32(v: u32) -> Seq<u8> {
    seq![
        (v % 256) as u8,
        ((v / 256) % 256) as u8,
        ((v / 65536) % 256) as u8,
        (v / 16777216) as u8,
    ]
}

/// The 16-bit value read little-endian at `i`.
pub open spec fn spec_le16_at(s: Seq<u8>, i: int) -> int
    recommends
        0 <= i,
        i + 2 <= s.len(),
{
    s[i] + 256 * s[i + 1]
}

/// The 32-bit value read little-endian at `i`.
pub open spec fn spec_le32_at(s: Seq<u8>, i: int) -> int
    recommends
        0 <= i,
        i + 4 <= s.len(),
{
    s[i] + 256 * s[i + 1] + 65536 * s[i + 2] + 16777216 * s[i + 3]
}

/// The signed reading of a 32-bit value: two's complement over the unsigned one.
pub open spec fn spec_as_signed32(v: int) -> int
    recommends
        0 <= v < 0x1_0000_0000,
{
    if v >= 0x8000_0000 {
        v - 0x1_0000_0000
    } else {
        v
    }
}

/// Appends the two little-endian bytes of `v`.
pub fn push_le16(buf: &mut Vec<u8>, v: u16)
    ensures
        final(buf)@ == old(buf)@ + spec_le16(v),
{
    buf.push((v % 256) as u8);
    buf.push((v / 256) as u8);
    assert(buf@ =~= old(buf)@ + spec_le16(v));
}

/// Appends the four little-endian bytes of `v`.
pub fn push_le32(buf: &mut Vec<u8>, v: u32)
    ensures
        final(buf)@ == old(buf)@ + spec_le32(v),
{
    buf.push((v % 256) as u8);
    buf.push(((v / 256) % 256) as u8);
    buf.push(((v / 65536) % 256) as u8);
    buf.push((v / 16777216) as u8);
    assert(buf@ =~= old(buf)@ + spec_le32(v));
}

/// Overwrites the four bytes at `i` with the little-endian bytes of `v`.
pub fn set_le32(buf: &mut Vec<u8>, i: usize, v: u32)
    requires
        i + 4 <= old(buf).len(),
    ensures
        final(buf)@.len() == old(buf)@.len(),
        final(buf)@.subrange(i as int, i + 4) == spec_le32(v),
        forall|j: int|
            0 <= j < final(buf)@.len() && !(i <= j < i + 4) ==> final(buf)@[j] == old(buf)@[j],
{
    buf.set(i, (v % 256) as u8);
    buf.set(i + 1, ((v / 256) % 256) as u8);
    buf.set(i + 2, ((v / 65536) % 256) as u8);
    buf.set(i + 3, (v / 16777216) as u8);
    assert(buf@.subrange(i as int, i + 4) =~= spec_le32(v));
}

/// Reads the 16-bit value stored little-endian at `i`.
pub fn read_le16(buf: &[u8], i: usize) -> (r: u16)
    requires
        i + 2 <= buf@.len(),
    ensures
        r == spec_le16_at(buf@, i as int),
{
    buf[i] as u16 + 256 * (buf[i + 1] as u16)
}

/// Reads the 32-bit value stored little-endian at `i`.
pub fn read_le32(buf: &[u8], i: usize) -> (r: u32)
    requires
        i + 4 <= buf@.len(),
    ensures
        r == spec_le32_at(buf@, i as int),
{
    buf[i] as u32 + 256 * (buf[i + 1] as u32) + 65536 * (buf[i + 2] as u32) + 16777216 * (buf[
        i + 3
    ] as u32)
}

/// Reads the 32-bit value stored little-endian at `i` as a signed number.
pub fn read_le32_signed(buf: &[u8], i: usize) -> (r: i32)
    requires
        i + 4 <= buf@.len(),
    ensures
        r == spec_as_signed32(spec_le32_at(buf@, i as int)),
{
    let v: u32 = read_le32(buf, i);
    if v >= 0x8000_0000 {
        -1 - ((u32::MAX - v) as i32)
    } else {
        v as i32
    }
}

} // verus!
