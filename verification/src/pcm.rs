//! PCM samples from USB, left-justified into 32-bit I2S slots.

use vstd::prelude::*;

use crate::audio::{BITS_PER_SAMPLE_16, BITS_PER_SAMPLE_24};

verus! {

/// The slot of a 16-bit little-endian sample at the front of `s`: the sample in
/// the upper half, zeros below.
pub open spec fn slot16(s: Seq<u8>) -> u32
    recommends
        s.len() >= 2,
{
    (0x1_0000 * s[0] + 0x100_0000 * s[1]) as u32
}

/// The slot of a 24-bit little-endian sample at the front of `s`: the sample in
/// the upper three bytes, zeros below.
pub open spec fn slot24(s: Seq<u8>) -> u32
    recommends
        s.len() >= 3,
{
    (0x100 * s[0] + 0x1_0000 * s[1] + 0x100_0000 * s[2]) as u32
}

/// Bytes of a stereo frame of a width, and 0 where the width is not supported.
pub open spec fn frame_bytes(bits: u8) -> int {
    if bits == BITS_PER_SAMPLE_16 {
        4
    } else if bits == BITS_PER_SAMPLE_24 {
        6
    } else {
        0
    }
}

/// Whole stereo frames in `length` bytes.
pub open spec fn whole_frames(length: int, bits: u8) -> int {
    if frame_bytes(bits) == 0 {
        0
    } else {
        length / frame_bytes(bits)
    }
}

/// The slot of the `i`-th sample in `bytes`; left and right alternate.
pub open spec fn sample_slot(bytes: Seq<u8>, bits: u8, i: int) -> u32 {
    if bits == BITS_PER_SAMPLE_16 {
        slot16(bytes.skip(2 * i))
    } else {
        slot24(bytes.skip(3 * i))
    }
}

/// The slots of the first `count` samples in `bytes`.
pub open spec fn sample_slots(bytes: Seq<u8>, bits: u8, count: nat) -> Seq<u32> {
    Seq::new(count, |i: int| sample_slot(bytes, bits, i))
}

/// Samples that fit `room` slots, in whole frames.
pub open spec fn converted_samples(length: int, bits: u8, room: int) -> int {
    2 * crate::fifo::smaller(whole_frames(length, bits), room / 2)
}

/// Converts the 16-bit sample at `at` to its slot.
fn pcm16_to_i2s_slot(bytes: &[u8], at: usize) -> (slot: u32)
    requires
        at + 2 <= bytes.len(),
    ensures
        slot == slot16(bytes@.skip(at as int)),
{
    0x1_0000 * bytes[at] as u32 + 0x100_0000 * bytes[at + 1] as u32
}

/// Converts the 24-bit sample in the first three bytes to its slot.
pub fn pcm24_to_i2s_slot(sample_bytes: &[u8]) -> (slot: u32)
    requires
        sample_bytes.len() >= 3,
    ensures
        slot == slot24(sample_bytes@),
{
    0x100 * sample_bytes[0] as u32 + 0x1_0000 * sample_bytes[1] as u32 + 0x100_0000
        * sample_bytes[2] as u32
}

/// Converts PCM to slots at the front of `out`, and returns how many it wrote.
/// Bytes short of a frame are dropped, and so are frames that do not fit. A
/// width that is not supported converts to nothing.
pub fn bytes_to_i2s_words(bytes: &[u8], bits_per_sample: u8, out: &mut [u32]) -> (count: usize)
    ensures
        count == converted_samples(bytes@.len() as int, bits_per_sample, old(out)@.len() as int),
        final(out)@ == sample_slots(bytes@, bits_per_sample, count as nat) + old(out)@.skip(
            count as int,
        ),
{
    let length: usize = bytes.len();
    let room: usize = out.len() / 2;
    match bits_per_sample {
        BITS_PER_SAMPLE_16 => {
            let frames: usize = length / 4;
            let mut frame: usize = 0;
            assert(out@ =~= sample_slots(bytes@, bits_per_sample, 0) + old(out)@.skip(0));
            while frame < frames && frame < room
                invariant
                    bits_per_sample == BITS_PER_SAMPLE_16,
                    frame <= frames,
                    frame <= room,
                    length == bytes@.len(),
                    frames == length / 4,
                    room == old(out)@.len() / 2,
                    out@ == sample_slots(bytes@, bits_per_sample, (2 * frame) as nat) + old(
                        out,
                    )@.skip(2 * frame),
                decreases frames - frame,
            {
                out[2 * frame] = pcm16_to_i2s_slot(bytes, 4 * frame);
                out[2 * frame + 1] = pcm16_to_i2s_slot(bytes, 4 * frame + 2);
                frame += 1;
                assert(out@ =~= sample_slots(bytes@, bits_per_sample, (2 * frame) as nat) + old(
                    out,
                )@.skip(2 * frame));
            }
            2 * frame
        },
        BITS_PER_SAMPLE_24 => {
            let frames: usize = length / 6;
            let mut frame: usize = 0;
            assert(out@ =~= sample_slots(bytes@, bits_per_sample, 0) + old(out)@.skip(0));
            while frame < frames && frame < room
                invariant
                    bits_per_sample == BITS_PER_SAMPLE_24,
                    frame <= frames,
                    frame <= room,
                    length == bytes@.len(),
                    frames == length / 6,
                    room == old(out)@.len() / 2,
                    out@ == sample_slots(bytes@, bits_per_sample, (2 * frame) as nat) + old(
                        out,
                    )@.skip(2 * frame),
                decreases frames - frame,
            {
                let start: usize = 6 * frame;
                let left = &bytes[start..start + 3];
                let right = &bytes[start + 3..start + 6];
                out[2 * frame] = pcm24_to_i2s_slot(left);
                out[2 * frame + 1] = pcm24_to_i2s_slot(right);
                assert(slot24(left@) == sample_slot(bytes@, bits_per_sample, 2 * frame as int));
                assert(slot24(right@) == sample_slot(bytes@, bits_per_sample, 2 * frame + 1));
                frame += 1;
                assert(out@ =~= sample_slots(bytes@, bits_per_sample, (2 * frame) as nat) + old(
                    out,
                )@.skip(2 * frame));
            }
            2 * frame
        },
        _ => {
            assert(out@ =~= sample_slots(bytes@, bits_per_sample, 0) + old(out)@.skip(0));
            0
        },
    }
}

/// The signed number that a 16-bit little-endian sample stands for.
pub open spec fn signed16(s: Seq<u8>) -> int
    recommends
        s.len() >= 2,
{
    let unsigned: int = s[0] + 0x100 * s[1];
    if unsigned < 0x8000 {
        unsigned
    } else {
        unsigned - 0x1_0000
    }
}

/// The signed number that a 24-bit little-endian sample stands for.
pub open spec fn signed24(s: Seq<u8>) -> int
    recommends
        s.len() >= 3,
{
    let unsigned: int = s[0] + 0x100 * s[1] + 0x1_0000 * s[2];
    if unsigned < 0x80_0000 {
        unsigned
    } else {
        unsigned - 0x100_0000
    }
}

/// A slot read as a signed number is its sample, sign included, scaled to full
/// range: a 16-bit sample by 2^16, a 24-bit sample by 2^8.
pub proof fn law_slots_keep_signed_value(s: Seq<u8>)
    requires
        s.len() >= 3,
    ensures
        slot16(s) as i32 == signed16(s) * 0x1_0000,
        slot24(s) as i32 == signed24(s) * 0x100,
{
    let half: u32 = slot16(s);
    let full: u32 = slot24(s);
    assert(half < 0x8000_0000 ==> half as i32 == half) by (bit_vector);
    assert(half >= 0x8000_0000 ==> half as i32 == half - 0x1_0000_0000) by (bit_vector);
    assert(full < 0x8000_0000 ==> full as i32 == full) by (bit_vector);
    assert(full >= 0x8000_0000 ==> full as i32 == full - 0x1_0000_0000) by (bit_vector);
}

/// Samples that differ have slots that differ: nothing of a sample is lost.
pub proof fn law_slots_lose_nothing(a: Seq<u8>, b: Seq<u8>)
    requires
        a.len() >= 3,
        b.len() >= 3,
    ensures
        slot16(a) == slot16(b) <==> a.take(2) == b.take(2),
        slot24(a) == slot24(b) <==> a.take(3) == b.take(3),
{
    if slot16(a) == slot16(b) {
        assert(a[0] == b[0] && a[1] == b[1]);
        assert(a.take(2) =~= b.take(2));
    }
    if a.take(2) == b.take(2) {
        assert(a[0] == a.take(2)[0] && a[1] == a.take(2)[1]);
        assert(b[0] == b.take(2)[0] && b[1] == b.take(2)[1]);
    }
    if slot24(a) == slot24(b) {
        assert(a[0] == b[0] && a[1] == b[1] && a[2] == b[2]);
        assert(a.take(3) =~= b.take(3));
    }
    if a.take(3) == b.take(3) {
        assert(a[0] == a.take(3)[0] && a[1] == a.take(3)[1] && a[2] == a.take(3)[2]);
        assert(b[0] == b.take(3)[0] && b[1] == b.take(3)[1] && b[2] == b.take(3)[2]);
    }
}

/// Left and right stay paired: a conversion writes whole frames.
pub proof fn law_conversion_writes_whole_frames(length: nat, bits: u8, room: nat)
    ensures
        0 <= converted_samples(length as int, bits, room as int) <= room,
        converted_samples(length as int, bits, room as int) % 2 == 0,
{
}

/// A packet buffer of the largest packet and a word buffer of the largest
/// packet go together: no frame of a packet that fits is dropped, and a packet
/// of whole frames fills as many words as the format says.
pub proof fn law_packets_convert_in_full(bits: u8, rate: u32, length: nat)
    requires
        crate::audio::format_supported(bits, rate),
        length <= crate::audio::packet_bytes(bits, rate),
    ensures
        converted_samples(
            length as int,
            bits,
            crate::audio::MAX_I2S_PACKET_WORDS as int,
        ) == 2 * whole_frames(length as int, bits),
        length == crate::audio::packet_bytes(bits, rate) ==> converted_samples(
            length as int,
            bits,
            crate::audio::MAX_I2S_PACKET_WORDS as int,
        ) == crate::audio::packet_words(rate),
{
    crate::audio::law_supported_packets_fit(bits, rate);
    assert(crate::audio::sample_bytes(16) == 2 && crate::audio::sample_bytes(24) == 3);
    let frames = crate::audio::packet_frames(rate);
    if bits == BITS_PER_SAMPLE_16 {
        assert(crate::audio::packet_bytes(bits, rate) == frames * 4);
        assert(frames * 4 / 4 == frames);
    } else {
        assert(crate::audio::packet_bytes(bits, rate) == frames * 6);
        assert(frames * 6 / 6 == frames);
    }
}

/// Every word holds the bytes of its own sample, by their position in the
/// packet: two bytes in the upper half of the word at 16 bits, three in its
/// upper three bytes at 24 bits.
pub proof fn law_words_hold_their_samples(bytes: Seq<u8>, bits: u8, count: nat, i: int)
    requires
        0 <= i < count,
        bits == 16 ==> 2 * count <= bytes.len(),
        bits == 24 ==> 3 * count <= bytes.len(),
    ensures
        sample_slots(bytes, bits, count).len() == count,
        bits == 16 ==> sample_slots(bytes, bits, count)[i] == 0x1_0000 * bytes[2 * i] + 0x100_0000
            * bytes[2 * i + 1],
        bits == 24 ==> sample_slots(bytes, bits, count)[i] == 0x100 * bytes[3 * i] + 0x1_0000
            * bytes[3 * i + 1] + 0x100_0000 * bytes[3 * i + 2],
{
}

/// The slot of a single sample, by its bytes.
pub proof fn law_slot_holds_its_bytes(s: Seq<u8>)
    ensures
        s.len() >= 2 ==> slot16(s) == 0x1_0000 * s[0] + 0x100_0000 * s[1],
        s.len() >= 3 ==> slot24(s) == 0x100 * s[0] + 0x1_0000 * s[1] + 0x100_0000 * s[2],
{
}

/// A conversion takes whole frames, two words each, and stops only where the
/// next frame is not complete or has no room. Other widths give no words.
pub proof fn law_conversion_takes_all_that_fits(length: nat, bits: u8, room: nat)
    ensures
        ({
            let count = converted_samples(length as int, bits, room as int);
            &&& count >= 0 && count % 2 == 0 && count <= room
            &&& bits == 16 ==> 2 * count <= length && (2 * (count + 2) > length || count + 2 > room)
            &&& bits == 24 ==> 3 * count <= length && (3 * (count + 2) > length || count + 2 > room)
            &&& bits != 16 && bits != 24 ==> count == 0
        }),
{
}

/// Packets of whole frames that differ anywhere convert to words that differ,
/// given room for all of them.
pub proof fn law_conversion_loses_nothing(a: Seq<u8>, b: Seq<u8>, bits: u8, room: nat)
    requires
        a.len() == b.len(),
        bits == 16 && a.len() % 4 == 0 && 2 * room >= a.len() || bits == 24 && a.len() % 6 == 0 && 3
            * room >= a.len(),
    ensures
        ({
            let count = converted_samples(a.len() as int, bits, room as int) as nat;
            sample_slots(a, bits, count) == sample_slots(b, bits, count) <==> a == b
        }),
{
    let count = converted_samples(a.len() as int, bits, room as int) as nat;
    law_conversion_takes_all_that_fits(a.len(), bits, room);
    if bits == 16 {
        assert(2 * count == a.len());
    } else {
        assert(3 * count == a.len());
    }
    if sample_slots(a, bits, count) == sample_slots(b, bits, count) {
        assert forall|j: int| 0 <= j < a.len() implies a[j] == b[j] by {
            let i = if bits == 16 {
                j / 2
            } else {
                j / 3
            };
            law_words_hold_their_samples(a, bits, count, i);
            law_words_hold_their_samples(b, bits, count, i);
            assert(sample_slots(a, bits, count)[i] == sample_slots(b, bits, count)[i]);
        }
        assert(a =~= b);
    }
}

} // verus!
