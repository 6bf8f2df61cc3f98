//! Little-endian integer fields, as USB lays them out in descriptors, control
//! data and feedback packets.

use vstd::prelude::*;

verus! {

/// The two bytes of `x`, least significant first.
pub open spec fn le16(x: u16) -> Seq<u8> {
    seq![(x % 256) as u8, (x / 256) as u8]
}

/// The four bytes of `x`, least significant first.
pub open spec fn le32(x: u32) -> Seq<u8> {
    seq![
        (x % 256) as u8,
        (x / 256 % 256) as u8,
        (x / 65536 % 256) as u8,
        (x / 16777216) as u8,
    ]
}

/// The number that the first four bytes of `s` spell, least significant first.
pub open spec fn le32_value(s: Seq<u8>) -> u32
    recommends
        s.len() >= 4,
{
    (s[0] + 256 * s[1] + 65536 * s[2] + 16777216 * s[3]) as u32
}

/// Splits `x` into its two little-endian bytes.
pub fn u16_to_le(x: u16) -> (bytes: [u8; 2])
    ensures
        bytes@ == le16(x),
{
    [(x % 256) as u8, (x / 256) as u8]
}

/// Splits `x` into its four little-endian bytes.
pub fn u32_to_le(x: u32) -> (bytes: [u8; 4])
    ensures
        bytes@ == le32(x),
{
    [
        (x % 256) as u8,
        (x / 256 % 256) as u8,
        (x / 65536 % 256) as u8,
        (x / 16777216) as u8,
    ]
}

/// Reads a little-endian number from the first four bytes of `bytes`.
pub fn u32_from_le(bytes: &[u8]) -> (x: u32)
    requires
        bytes.len() >= 4,
    ensures
        x == le32_value(bytes@),
{
    bytes[0] as u32 + 256 * bytes[1] as u32 + 65536 * bytes[2] as u32 + 16777216 * bytes[3] as u32
}

/// Overwrites `buf` from position `at` on with `bytes`.
pub(crate) fn write_at(buf: &mut [u8], at: usize, bytes: &[u8])
    requires
        at + bytes.len() <= old(buf).len(),
    ensures
        final(buf)@ == old(buf)@.take(at as int) + bytes@ + old(buf)@.skip(at + bytes@.len()),
{
    let room: usize = buf.len();
    let mut index: usize = 0;
    while index < bytes.len()
        invariant
            index <= bytes@.len(),
            room == old(buf)@.len(),
            at + bytes@.len() <= room,
            buf@ == old(buf)@.take(at as int) + bytes@.take(index as int) + old(buf)@.skip(
                at + index,
            ),
        decreases bytes.len() - index,
    {
        buf[at + index] = bytes[index];
        index += 1;
        assert(buf@ =~= old(buf)@.take(at as int) + bytes@.take(index as int) + old(buf)@.skip(
            at + index,
        ));
    }
    assert(bytes@.take(index as int) =~= bytes@);
}

/// Reading the four bytes of a number gives that number back.
pub proof fn law_le32_round_trip(x: u32)
    ensures
        le32(x).len() == 4,
        le32_value(le32(x)) == x,
{
}

/// Splitting the number that four bytes spell gives those bytes back.
pub proof fn law_le32_value_round_trip(s: Seq<u8>)
    requires
        s.len() == 4,
    ensures
        le32(le32_value(s)) == s,
{
    let top: int = s[3] as int;
    let upper: int = s[2] + 256 * top;
    let middle: int = s[1] + 256 * upper;
    let x: int = s[0] + 256 * middle;
    assert(x == le32_value(s));
    assert(x % 256 == s[0] && x / 256 == middle);
    assert(middle % 256 == s[1] && middle / 256 == upper);
    assert(upper % 256 == s[2] && upper / 256 == top);
    assert(x / 65536 == upper && x / 16777216 == top);
    assert(le32(le32_value(s)) =~= s);
}

/// The first byte of a field counts ones, and each further byte 256 times what
/// the byte before it counts.
pub proof fn law_first_byte_counts_ones(half: u16, full: u32, s: Seq<u8>)
    ensures
        le16(half).len() == 2,
        le16(half)[0] + 256 * le16(half)[1] == half,
        le32(full).len() == 4,
        le32(full)[0] + 256 * le32(full)[1] + 65536 * le32(full)[2] + 16777216 * le32(full)[3]
            == full,
        s.len() >= 4 ==> le32_value(s) == s[0] + 256 * s[1] + 65536 * s[2] + 16777216 * s[3],
{
}

} // verus!
