//! Explicit feedback: what the device asks of the host.
//!
//! A feedback value counts stereo frames per millisecond as a 10.14 fixed-point
//! number. Its base comes from the real I2S clock. A bounded proportional
//! correction holds the playback FIFO near its target level, and the reported
//! value follows in small steps.

use vstd::prelude::*;

use crate::audio::{AudioState, CHANNEL_COUNT};
use crate::bytes::u32_to_le;

verus! {

/// The largest change of the reported value in one update (10.14 units).
pub const FEEDBACK_SMOOTHING_STEP_10_14: i32 = 16;

/// The largest correction of the base, either way (10.14 units).
pub const FEEDBACK_MAX_CORRECTION_10_14: i32 = 512;

/// Correction per packet's worth of frames that the FIFO is off (10.14 units).
pub const FEEDBACK_ERROR_GAIN_10_14: i32 = 128;

/// Packets that the FIFO should hold.
pub const FIFO_TARGET_PACKETS: usize = 12;

/// Packets that the FIFO must hold before playback starts.
pub const FIFO_START_PACKETS: usize = 6;

/// Packets that the FIFO may be off its target without a correction.
pub const FIFO_CONTROL_DEADBAND_PACKETS: usize = 1;

/// The nominal feedback of a rate: frames per ms as a 10.14 number, rounded
/// down. The product keeps its low 32 bits, which loses nothing below 2^18 Hz.
pub open spec fn nominal_feedback(rate: u32) -> u32 {
    ((rate * 0x4000) % 0x1_0000_0000 / 1_000) as u32
}

/// `n`, or the largest `usize` where `n` is past it.
pub open spec fn saturated(n: int) -> int {
    if n > usize::MAX {
        usize::MAX as int
    } else {
        n
    }
}

/// `n / d`, rounded toward zero.
pub open spec fn trunc_div(n: int, d: int) -> int
    recommends
        d > 0,
{
    if n >= 0 {
        n / d
    } else {
        -((-n) / d)
    }
}

/// The value in `-bound..=bound` that is nearest to `n`.
pub open spec fn clamped(n: int, bound: int) -> int
    recommends
        bound >= 0,
{
    if n < -bound {
        -bound
    } else if n > bound {
        bound
    } else {
        n
    }
}

/// The distance of `n` from zero.
pub open spec fn magnitude(n: int) -> int {
    if n < 0 {
        -n
    } else {
        n
    }
}

/// Words that the FIFO lacks to its target level; negative where it holds more.
pub open spec fn fifo_error(level: int, packet_words: int) -> int {
    packet_words * FIFO_TARGET_PACKETS - level
}

/// Frames of a packet, at least one.
pub open spec fn divisor_frames(packet_words: int) -> int {
    if packet_words / CHANNEL_COUNT as int > 1 {
        packet_words / CHANNEL_COUNT as int
    } else {
        1
    }
}

/// The missing frames times the gain.
pub open spec fn weighted_error(level: int, packet_words: int) -> int {
    trunc_div(fifo_error(level, packet_words), CHANNEL_COUNT as int) * FEEDBACK_ERROR_GAIN_10_14
}

/// Whether the FIFO is close enough to its target to be left alone.
pub open spec fn in_deadband(level: int, packet_words: int) -> bool {
    magnitude(fifo_error(level, packet_words)) <= packet_words * FIFO_CONTROL_DEADBAND_PACKETS
}

/// The correction of the base that a FIFO level calls for: none in the
/// deadband, else in proportion to the missing frames, up to a bound.
pub open spec fn target_correction(level: int, packet_words: int) -> int {
    if in_deadband(level, packet_words) {
        0
    } else {
        clamped(
            trunc_div(weighted_error(level, packet_words), divisor_frames(packet_words)),
            FEEDBACK_MAX_CORRECTION_10_14 as int,
        )
    }
}

/// The feedback that a FIFO level calls for, never negative.
pub open spec fn target_feedback(level: int, packet_words: int, base: int) -> int {
    if base + target_correction(level, packet_words) > 0 {
        base + target_correction(level, packet_words)
    } else {
        0
    }
}

/// One step from `current` to `target`.
pub open spec fn step_toward(current: int, target: int) -> int {
    current + clamped(target - current, FEEDBACK_SMOOTHING_STEP_10_14 as int)
}

/// Whether the control arithmetic stays within signed 32-bit numbers.
pub open spec fn feedback_inputs_fit(level: int, packet_words: int, base: int) -> bool {
    &&& packet_words * FIFO_TARGET_PACKETS <= i32::MAX
    &&& level <= i32::MAX
    &&& base <= i32::MAX
    &&& !in_deadband(level, packet_words) ==> i32::MIN <= weighted_error(level, packet_words)
        <= i32::MAX
    &&& base + target_correction(level, packet_words) <= i32::MAX
}

/// How far the reported value of a state is above its base, both taken as
/// signed 32-bit numbers.
pub open spec fn correction_of(state: AudioState) -> int {
    (state.current_feedback_10_14 as i32) - (state.base_feedback_10_14 as i32)
}

/// The state after a reset of the feedback to `base`.
pub open spec fn feedback_reset(state: AudioState, base: u32) -> AudioState {
    AudioState { base_feedback_10_14: base, current_feedback_10_14: base, ..state }
}

/// The state after an update of the feedback.
pub open spec fn feedback_updated(
    state: AudioState,
    level: int,
    packet_words: int,
    base: u32,
) -> AudioState {
    AudioState {
        base_feedback_10_14: base,
        current_feedback_10_14: step_toward(
            state.current_feedback_10_14 as int,
            target_feedback(level, packet_words, base as int),
        ) as u32,
        ..state
    }
}

/// Converts a sample rate to frames per ms in 10.14, rounded down.
pub fn feedback_value_10_14(sample_rate_hz: u32) -> (value: u32)
    ensures
        value == nominal_feedback(sample_rate_hz),
{
    assert(sample_rate_hz << 14 == (sample_rate_hz * 0x4000) % 0x1_0000_0000) by (bit_vector);
    (sample_rate_hz << 14) / 1_000
}

/// `words * factor`, or the largest `usize` where that is past it.
fn saturating_words(words: usize, factor: usize) -> (product: usize)
    ensures
        product == saturated(words * factor),
{
    match words.checked_mul(factor) {
        Some(product) => product,
        None => usize::MAX,
    }
}

/// The FIFO level to hold, in words, for packets of `packet_words` words.
pub fn feedback_target_level_words(packet_words: usize) -> (level: usize)
    ensures
        level == saturated(packet_words * FIFO_TARGET_PACKETS),
        packet_words * 12 <= usize::MAX ==> level == packet_words * 12,
        packet_words * 12 > usize::MAX ==> level == usize::MAX,
{
    saturating_words(packet_words, FIFO_TARGET_PACKETS)
}

/// The FIFO level, in words, at which playback starts.
pub fn feedback_start_level_words(packet_words: usize) -> (level: usize)
    ensures
        level == saturated(packet_words * FIFO_START_PACKETS),
        packet_words * 6 <= usize::MAX ==> level == packet_words * 6,
        packet_words * 6 > usize::MAX ==> level == usize::MAX,
{
    saturating_words(packet_words, FIFO_START_PACKETS)
}

/// The feedback to report (frames per ms, 10.14).
pub fn current_feedback_value_10_14(state: &AudioState) -> (value: u32)
    ensures
        value == state.current_feedback_10_14,
{
    state.current_feedback_10_14
}

/// The packet to report: the low three bytes of the value, least significant
/// first, and a zero byte.
pub fn current_feedback_packet(state: &AudioState) -> (packet: [u8; 4])
    ensures
        packet@ == crate::bytes::le32(state.current_feedback_10_14).take(3).push(0),
{
    let bytes = u32_to_le(current_feedback_value_10_14(state));
    let packet: [u8; 4] = [bytes[0], bytes[1], bytes[2], 0];
    assert(packet@ =~= bytes@.take(3).push(0));
    packet
}

/// How far the reported value is above the base; negative where it is below.
/// Both are taken as signed 32-bit numbers.
pub fn current_feedback_correction_10_14(state: &AudioState) -> (correction: i32)
    requires
        i32::MIN <= correction_of(*state) <= i32::MAX,
    ensures
        correction == correction_of(*state),
{
    current_feedback_value_10_14(state) as i32 - state.base_feedback_10_14 as i32
}

/// Drops what correction there is: the base and the reported value both become
/// `base_feedback_value_10_14`. The generation of the format stays.
pub fn reset_feedback_control(state: &mut AudioState, base_feedback_value_10_14: u32)
    ensures
        *final(state) == feedback_reset(*old(state), base_feedback_value_10_14),
{
    state.base_feedback_10_14 = base_feedback_value_10_14;
    state.current_feedback_10_14 = base_feedback_value_10_14;
}

/// Takes over a base and moves the reported value one step toward what the FIFO
/// level calls for. Returns the new reported value.
pub fn update_feedback_control(
    state: &mut AudioState,
    fifo_level_words: usize,
    packet_words: usize,
    base_feedback_value_10_14: u32,
) -> (next_feedback: u32)
    requires
        feedback_inputs_fit(
            fifo_level_words as int,
            packet_words as int,
            base_feedback_value_10_14 as int,
        ),
    ensures
        next_feedback == step_toward(
            old(state).current_feedback_10_14 as int,
            target_feedback(
                fifo_level_words as int,
                packet_words as int,
                base_feedback_value_10_14 as int,
            ),
        ),
        *final(state) == feedback_updated(
            *old(state),
            fifo_level_words as int,
            packet_words as int,
            base_feedback_value_10_14,
        ),
{
    state.base_feedback_10_14 = base_feedback_value_10_14;

    let frames: usize = packet_words / CHANNEL_COUNT;
    let divisor: i32 = if frames > 1 {
        frames as i32
    } else {
        1
    };
    let target_words: usize = feedback_target_level_words(packet_words);
    let deadband_words: usize = saturating_words(packet_words, FIFO_CONTROL_DEADBAND_PACKETS);
    let error_words: i32 = target_words as i32 - fifo_level_words as i32;
    let error_size: usize = if error_words < 0 {
        (-error_words) as usize
    } else {
        error_words as usize
    };

    // A FIFO below its target asks the host for more, one above it for less.
    let correction: i32 = if error_size <= deadband_words {
        0
    } else {
        let proportional: i32 = (error_words / CHANNEL_COUNT as i32) * FEEDBACK_ERROR_GAIN_10_14
            / divisor;
        if proportional < -FEEDBACK_MAX_CORRECTION_10_14 {
            -FEEDBACK_MAX_CORRECTION_10_14
        } else if proportional > FEEDBACK_MAX_CORRECTION_10_14 {
            FEEDBACK_MAX_CORRECTION_10_14
        } else {
            proportional
        }
    };

    let signed_target: i32 = base_feedback_value_10_14 as i32 + correction;
    let target: u32 = if signed_target > 0 {
        signed_target as u32
    } else {
        0
    };

    // A sudden change would upset the host, so the value follows in steps.
    let current: u32 = state.current_feedback_10_14;
    let step: u32 = FEEDBACK_SMOOTHING_STEP_10_14 as u32;
    let next_feedback: u32 = if current < target {
        if target - current < step {
            target
        } else {
            current + step
        }
    } else if current - target < step {
        target
    } else {
        current - step
    };

    state.current_feedback_10_14 = next_feedback;
    next_feedback
}

/// The value after `steps` steps from `current` to an unmoving `target`.
pub open spec fn after_steps(current: int, target: int, steps: nat) -> int
    decreases steps,
{
    if steps == 0 {
        current
    } else {
        after_steps(step_toward(current, target), target, (steps - 1) as nat)
    }
}

/// The number in the low three bytes of a feedback packet.
pub open spec fn packet_value(packet: Seq<u8>) -> int
    recommends
        packet.len() == 4,
{
    packet[0] + 256 * packet[1] + 65536 * packet[2]
}

/// Rounding toward zero keeps the order of the dividends.
proof fn lemma_trunc_div_ordered(a: int, b: int, d: int)
    requires
        a <= b,
        d > 0,
    ensures
        trunc_div(a, d) <= trunc_div(b, d),
{
    if a >= 0 {
        vstd::arithmetic::div_mod::lemma_div_is_ordered(a, b, d);
    } else if b < 0 {
        vstd::arithmetic::div_mod::lemma_div_is_ordered(-b, -a, d);
    } else {
        vstd::arithmetic::div_mod::lemma_div_pos_is_pos(-a, d);
        vstd::arithmetic::div_mod::lemma_div_pos_is_pos(b, d);
    }
}

/// The correction stays within its bound, is zero in the deadband, and never
/// points away from the target level: a FIFO that holds less never slows the
/// host down, one that holds more never speeds it up.
pub proof fn law_correction_bounded_and_directed(level: nat, packet_words: nat)
    ensures
        ({
            let correction = target_correction(level as int, packet_words as int);
            let error = fifo_error(level as int, packet_words as int);
            &&& -FEEDBACK_MAX_CORRECTION_10_14 <= correction <= FEEDBACK_MAX_CORRECTION_10_14
            &&& in_deadband(level as int, packet_words as int) ==> correction == 0
            &&& error >= 0 ==> correction >= 0
            &&& error <= 0 ==> correction <= 0
        }),
{
    let error = fifo_error(level as int, packet_words as int);
    let weighted = weighted_error(level as int, packet_words as int);
    let frames = divisor_frames(packet_words as int);
    if error >= 0 {
        assert(weighted >= 0);
        lemma_trunc_div_ordered(0, weighted, frames);
    }
    if error <= 0 {
        assert(weighted <= 0);
        lemma_trunc_div_ordered(weighted, 0, frames);
    }
    assert(trunc_div(0, frames) == 0) by {
        vstd::arithmetic::div_mod::lemma_div_basics(frames);
    }
}

/// The fuller the FIFO, the smaller the correction.
pub proof fn law_correction_falls_with_level(lower: nat, higher: nat, packet_words: nat)
    requires
        lower <= higher,
    ensures
        target_correction(lower as int, packet_words as int) >= target_correction(
            higher as int,
            packet_words as int,
        ),
{
    law_correction_bounded_and_directed(lower, packet_words);
    law_correction_bounded_and_directed(higher, packet_words);
    let error_low = fifo_error(lower as int, packet_words as int);
    let error_high = fifo_error(higher as int, packet_words as int);
    lemma_trunc_div_ordered(error_high, error_low, CHANNEL_COUNT as int);
    lemma_trunc_div_ordered(
        weighted_error(higher as int, packet_words as int),
        weighted_error(lower as int, packet_words as int),
        divisor_frames(packet_words as int),
    );
}

/// One step moves by at most the step size, never past the target, and stands
/// still only on the target.
pub proof fn law_step_is_small_and_never_overshoots(current: int, target: int)
    ensures
        magnitude(step_toward(current, target) - current) <= FEEDBACK_SMOOTHING_STEP_10_14,
        current <= target ==> current <= step_toward(current, target) <= target,
        current >= target ==> current >= step_toward(current, target) >= target,
        step_toward(current, target) == current <==> current == target,
{
}

/// Steps to an unmoving target arrive, as soon as their sizes add up to the
/// distance, and stay.
pub proof fn law_steps_converge(current: int, target: int, steps: nat)
    requires
        magnitude(target - current) <= steps * FEEDBACK_SMOOTHING_STEP_10_14,
    ensures
        after_steps(current, target, steps) == target,
    decreases steps,
{
    if steps > 0 {
        let next = step_toward(current, target);
        assert((steps - 1) * FEEDBACK_SMOOTHING_STEP_10_14 == steps * FEEDBACK_SMOOTHING_STEP_10_14
            - FEEDBACK_SMOOTHING_STEP_10_14) by (nonlinear_arith);
        law_steps_converge(next, target, (steps - 1) as nat);
    }
}

/// A reported value within the correction bound of the base stays within it,
/// whatever the FIFO does.
pub proof fn law_update_keeps_correction_bounded(
    current: nat,
    level: nat,
    packet_words: nat,
    base: nat,
)
    requires
        magnitude(current - base) <= FEEDBACK_MAX_CORRECTION_10_14,
    ensures
        ({
            let next = step_toward(
                current as int,
                target_feedback(level as int, packet_words as int, base as int),
            );
            &&& next >= 0
            &&& magnitude(next - base) <= FEEDBACK_MAX_CORRECTION_10_14
        }),
{
    law_correction_bounded_and_directed(level, packet_words);
}

/// With the FIFO in the deadband, the reported value settles on the base.
pub proof fn law_deadband_settles_on_base(
    current: nat,
    level: nat,
    packet_words: nat,
    base: nat,
    steps: nat,
)
    requires
        in_deadband(level as int, packet_words as int),
        magnitude(base - current) <= steps * FEEDBACK_SMOOTHING_STEP_10_14,
    ensures
        after_steps(
            current as int,
            target_feedback(level as int, packet_words as int, base as int),
            steps,
        ) == base,
{
    law_steps_converge(current as int, base as int, steps);
}

/// After a reset there is no correction.
pub proof fn law_reset_leaves_no_correction(state: AudioState, base: u32)
    ensures
        correction_of(feedback_reset(state, base)) == 0,
{
}

/// A packet carries every value below 2^24 in full, and always ends in zero.
pub proof fn law_packet_carries_value(value: u32)
    ensures
        ({
            let packet = crate::bytes::le32(value).take(3).push(0);
            &&& packet.len() == 4
            &&& packet[3] == 0
            &&& packet_value(packet) == value % 0x100_0000
            &&& value < 0x100_0000 ==> packet_value(packet) == value
        }),
{
    let low: int = value as int % 256;
    let middle: int = value as int / 256 % 256;
    let high: int = value as int / 65536 % 256;
    assert(value as int % 0x100_0000 == low + 256 * middle + 65536 * high);
}

/// The nominal feedback of every supported rate, corrected as far as it may be,
/// fits the three bytes of a packet, and is the rate in frames per ms to the
/// precision of the format.
pub proof fn law_supported_feedback_fits_packet(rate: u32)
    requires
        crate::audio::rate_supported(rate),
    ensures
        FEEDBACK_MAX_CORRECTION_10_14 <= nominal_feedback(rate),
        nominal_feedback(rate) + FEEDBACK_MAX_CORRECTION_10_14 < 0x100_0000,
        nominal_feedback(rate) * 1_000 <= rate * 0x4000 < (nominal_feedback(rate) + 1) * 1_000,
{
    assert(rate == 44_100 || rate == 48_000 || rate == 88_200 || rate == 96_000) by {
        let index = choose|i: int|
            0 <= i < crate::audio::supported_rates().len() && crate::audio::supported_rates()[i]
                == rate;
    }
}

/// Every level up to `2^24` words, with packets of up to a million words, fits
/// the control arithmetic beside any base that leaves room for a correction.
pub proof fn law_ordinary_inputs_fit(level: nat, packet_words: nat, base: nat)
    requires
        level <= 0x100_0000,
        packet_words <= 1_000_000,
        base <= i32::MAX - FEEDBACK_MAX_CORRECTION_10_14,
    ensures
        feedback_inputs_fit(level as int, packet_words as int, base as int),
{
    law_correction_bounded_and_directed(level, packet_words);
}

/// Nominal feedback is the largest number of 1/16384 frames that does not
/// exceed what 1 ms holds, with the upper bits of the product cut off.
pub proof fn law_nominal_feedback_is_rate_per_ms(rate: u32)
    ensures
        nominal_feedback(rate) * 1_000 <= (rate * 16_384) % 0x1_0000_0000 < (nominal_feedback(rate)
            + 1) * 1_000,
        rate < 0x4_0000 ==> nominal_feedback(rate) * 1_000 <= rate * 16_384 < (nominal_feedback(
            rate,
        ) + 1) * 1_000,
{
}

/// The quotient of two numbers that are not negative, from both sides.
proof fn lemma_quotient_between(n: int, d: int)
    requires
        n >= 0,
        d > 0,
    ensures
        n / d >= 0,
        (n / d) * d <= n < (n / d + 1) * d,
{
    vstd::arithmetic::div_mod::lemma_fundamental_div_mod(n, d);
    vstd::arithmetic::div_mod::lemma_div_pos_is_pos(n, d);
    assert((n / d) * d <= n < (n / d + 1) * d) by (nonlinear_arith)
        requires
            n == d * (n / d) + n % d,
            0 <= n % d < d,
    ;
}

/// The correction in numbers. Twelve packets are the target. A FIFO that is off
/// by no more than one packet is left alone. One that lacks more is corrected
/// by 128 for each packet's worth of frames that it lacks, rounded down, and by
/// no more than 512.
pub proof fn law_correction_of_a_short_fifo(level: nat, packet_words: nat)
    requires
        level <= 12 * packet_words,
    ensures
        ({
            let correction = target_correction(level as int, packet_words as int);
            let missing = 12 * packet_words - level;
            let frames: int = if packet_words >= 2 {
                packet_words as int / 2
            } else {
                1
            };
            &&& missing <= packet_words ==> correction == 0
            &&& missing > packet_words ==> {
                ||| correction == 512 && 512 * frames <= (missing / 2) * 128
                ||| 0 <= correction < 512 && correction * frames <= (missing / 2) * 128 < (
                correction + 1) * frames
            }
        }),
{
    let missing = 12 * packet_words - level;
    let frames = divisor_frames(packet_words as int);
    let weighted = (missing / 2) * 128;
    if missing > packet_words {
        lemma_quotient_between(weighted, frames);
        let quotient = weighted / frames;
        if quotient >= 512 {
            assert(512 * frames <= weighted) by (nonlinear_arith)
                requires
                    quotient >= 512,
                    frames > 0,
                    quotient * frames <= weighted,
            ;
        }
    }
}

/// The correction is the same both ways: a FIFO that holds so much too many is
/// slowed down by as much as one that lacks as much is sped up.
pub proof fn law_correction_is_symmetric(off: nat, packet_words: nat)
    requires
        off <= 12 * packet_words,
    ensures
        target_correction((12 * packet_words + off) as int, packet_words as int) == -target_correction(
            12 * packet_words - off,
            packet_words as int,
        ),
{
}

/// The correction of a FIFO that holds more than its target, in numbers, also
/// where it holds more than twice as much.
pub proof fn law_correction_of_a_full_fifo(level: nat, packet_words: nat)
    requires
        level >= 12 * packet_words,
    ensures
        ({
            let correction = -target_correction(level as int, packet_words as int);
            let excess = level - 12 * packet_words;
            let frames: int = if packet_words >= 2 {
                packet_words as int / 2
            } else {
                1
            };
            &&& excess <= packet_words ==> correction == 0
            &&& excess > packet_words ==> {
                ||| correction == 512 && 512 * frames <= (excess / 2) * 128
                ||| 0 <= correction < 512 && correction * frames <= (excess / 2) * 128 < (
                correction + 1) * frames
            }
        }),
{
    let excess = level - 12 * packet_words;
    let frames = divisor_frames(packet_words as int);
    let weighted = (excess / 2) * 128;
    if excess > packet_words {
        lemma_quotient_between(weighted, frames);
        let quotient = weighted / frames;
        if quotient >= 512 {
            assert(512 * frames <= weighted) by (nonlinear_arith)
                requires
                    quotient >= 512,
                    frames > 0,
                    quotient * frames <= weighted,
            ;
        }
    }
}

/// Past one packet off, the host is steered by at least 128 units, and from four
/// packets off by the full 512, whichever the size of a packet of whole frames.
pub proof fn law_correction_bites_past_one_packet(level: nat, frames: nat)
    requires
        frames > 0,
    ensures
        level < 22 * frames ==> target_correction(level as int, 2 * frames as int) >= 128,
        level <= 16 * frames ==> target_correction(level as int, 2 * frames as int) == 512,
        level > 26 * frames ==> target_correction(level as int, 2 * frames as int) <= -128,
        level >= 32 * frames ==> target_correction(level as int, 2 * frames as int) == -512,
        22 * frames <= level <= 26 * frames ==> target_correction(level as int, 2 * frames as int)
            == 0,
{
    let correction = target_correction(level as int, 2 * frames as int);
    let f: int = frames as int;
    assert((2 * f) / 2 == f);
    if level <= 24 * frames {
        law_correction_of_a_short_fifo(level, 2 * frames);
        let missing = 24 * frames - level;
        if level < 22 * frames {
            assert(correction >= 128) by (nonlinear_arith)
                requires
                    (missing / 2) * 128 >= f * 128,
                    correction == 512 || (missing / 2) * 128 < (correction + 1) * f,
                    f > 0,
            ;
        }
        if level <= 16 * frames {
            assert(correction >= 512) by (nonlinear_arith)
                requires
                    (missing / 2) * 128 >= 512 * f,
                    correction == 512 || (missing / 2) * 128 < (correction + 1) * f,
                    f > 0,
            ;
        }
    }
    if level >= 24 * frames {
        law_correction_of_a_full_fifo(level, 2 * frames);
        let excess = level - 24 * frames;
        let slowed = -correction;
        if level > 26 * frames {
            assert(slowed >= 128) by (nonlinear_arith)
                requires
                    (excess / 2) * 128 >= f * 128,
                    slowed == 512 || (excess / 2) * 128 < (slowed + 1) * f,
                    f > 0,
            ;
        }
        if level >= 32 * frames {
            assert(slowed >= 512) by (nonlinear_arith)
                requires
                    (excess / 2) * 128 >= 512 * f,
                    slowed == 512 || (excess / 2) * 128 < (slowed + 1) * f,
                    f > 0,
            ;
        }
    }
}

/// An update in numbers: the base is taken over, and the reported value comes
/// within 16 units of the corrected base or 16 units nearer to it. Nothing else
/// changes.
pub proof fn law_update_steps_to_the_corrected_base(
    state: AudioState,
    level: nat,
    packet_words: nat,
    base: u32,
)
    requires
        feedback_inputs_fit(level as int, packet_words as int, base as int),
    ensures
        ({
            let after = feedback_updated(state, level as int, packet_words as int, base);
            let corrected = base + target_correction(level as int, packet_words as int);
            let target: int = if corrected < 0 {
                0
            } else {
                corrected
            };
            let from: int = state.current_feedback_10_14 as int;
            let to: int = after.current_feedback_10_14 as int;
            &&& from + 16 < target ==> to == from + 16
            &&& from - 16 > target ==> to == from - 16
            &&& from - 16 <= target <= from + 16 ==> to == target
            &&& to == step_toward(from, target_feedback(level as int, packet_words as int, base as int))
            &&& after.base_feedback_10_14 == base
            &&& after.stream_active == state.stream_active
            &&& after.sample_rate_hz == state.sample_rate_hz
            &&& after.bits_per_sample == state.bits_per_sample
            &&& after.config_version == state.config_version
        }),
{
}

/// A FIFO that is more than one packet short asks the host for more than the
/// base, and one that is more than one packet over for less: a value on the base
/// moves by a whole step that way, and does not move where it is neither.
pub proof fn law_update_steers_against_the_level(
    state: AudioState,
    level: nat,
    frames: nat,
    base: u32,
)
    requires
        frames > 0,
        base >= 512,
        state.current_feedback_10_14 == base,
        feedback_inputs_fit(level as int, 2 * frames as int, base as int),
    ensures
        ({
            let after = feedback_updated(state, level as int, 2 * frames as int, base);
            &&& level < 22 * frames ==> after.current_feedback_10_14 == base + 16
            &&& level > 26 * frames ==> after.current_feedback_10_14 == base - 16
            &&& 22 * frames <= level <= 26 * frames ==> after.current_feedback_10_14 == base
        }),
{
    law_correction_bites_past_one_packet(level, frames);
    law_update_steps_to_the_corrected_base(state, level, 2 * frames, base);
}

/// A reset puts both values on the base, and changes nothing else.
pub proof fn law_reset_takes_over_the_base(state: AudioState, base: u32)
    ensures
        ({
            let after = feedback_reset(state, base);
            &&& after.base_feedback_10_14 == base
            &&& after.current_feedback_10_14 == base
            &&& after.stream_active == state.stream_active
            &&& after.sample_rate_hz == state.sample_rate_hz
            &&& after.bits_per_sample == state.bits_per_sample
            &&& after.config_version == state.config_version
        }),
{
}

/// The reported correction is the reported value less the base, where a value
/// from 2^31 on stands for one that is 2^32 less.
pub proof fn law_correction_is_value_less_base(state: AudioState)
    ensures
        ({
            let value = state.current_feedback_10_14;
            let base = state.base_feedback_10_14;
            let signed_value: int = if value < 0x8000_0000 {
                value as int
            } else {
                value - 0x1_0000_0000
            };
            let signed_base: int = if base < 0x8000_0000 {
                base as int
            } else {
                base - 0x1_0000_0000
            };
            correction_of(state) == signed_value - signed_base
        }),
{
    let value = state.current_feedback_10_14;
    let base = state.base_feedback_10_14;
    assert(value < 0x8000_0000 ==> value as i32 == value) by (bit_vector);
    assert(value >= 0x8000_0000 ==> value as i32 == value - 0x1_0000_0000) by (bit_vector);
    assert(base < 0x8000_0000 ==> base as i32 == base) by (bit_vector);
    assert(base >= 0x8000_0000 ==> base as i32 == base - 0x1_0000_0000) by (bit_vector);
}

/// Every input fits whose target, level and base are below 2^31, whose weighted
/// error is too, and whose base leaves room for the correction.
pub proof fn law_inputs_fit_below_two_to_the_31(level: nat, packet_words: nat, base: nat)
    requires
        packet_words * 12 < 0x8000_0000,
        level < 0x8000_0000,
        base < 0x8000_0000 - 512,
        12 * packet_words - level < 0x200_0000,
        level - 12 * packet_words < 0x200_0000,
    ensures
        feedback_inputs_fit(level as int, packet_words as int, base as int),
{
    law_correction_bounded_and_directed(level, packet_words);
}

} // verus!
