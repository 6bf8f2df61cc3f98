//! The I2S transmitter: clock division, real timing and start-up.
//!
//! The PIO program spends two clocks on each of the 32 bits of a slot, and a
//! frame is two slots.

use vstd::prelude::*;

verus! {

/// Bits of an I2S slot.
pub const I2S_SLOT_BITS: u32 = 32;

/// PIO clocks of a stereo frame: two slots, two clocks to a bit.
pub const PIO_CLOCKS_PER_FRAME: u32 = 128;

/// Sample rate that the transmitter is set up for first (Hz).
pub const INITIAL_SAMPLE_RATE_HZ: u32 = 48_000;

/// Words that the transmit FIFO takes before the start.
pub const PRIME_WORDS: usize = 8;

/// The clock divider for `target_hz` from `sys_hz`, in units of 1/256: the
/// quotient, its fraction rounded down. Each product keeps its low 32 bits.
pub open spec fn divider_bits(sys_hz: u32, target_hz: u32) -> int {
    (sys_hz / target_hz) * 256 % 0x1_0000_0000 + (sys_hz % target_hz) * 256 % 0x1_0000_0000
        / target_hz as int
}

/// Whether `divider_bits` is a divider that the hardware takes: the low 24 bits
/// of the whole quotient, which decide, are from 1 to 65535. A quotient of 2^24
/// or more counts by what is left of it.
pub open spec fn divider_in_range(sys_hz: u32, target_hz: u32) -> bool {
    target_hz > 0 && 1 <= (sys_hz / target_hz) % 0x100_0000 <= 0xffff
}

/// The PIO clock that `rate` frames per second take (Hz).
pub open spec fn pio_clock(rate: u32) -> int {
    rate * PIO_CLOCKS_PER_FRAME
}

/// Whether there is a divider to set the transmitter up with for `rate`, from a
/// system clock of `sys_hz`. As with every divider, the low 24 bits of the
/// quotient decide: from 2^24 times the PIO clock on, what it is set up for is
/// another rate.
pub open spec fn can_run(sys_hz: u32, rate: u32) -> bool {
    pio_clock(rate) <= u32::MAX && divider_in_range(sys_hz, pio_clock(rate) as u32)
}

/// The divider that the transmitter runs at `rate` with.
pub open spec fn rate_divider(sys_hz: u32, rate: u32) -> int {
    divider_bits(sys_hz, pio_clock(rate) as u32)
}

/// Divider for a PIO clock, from `calculate_pio_clock_divider_value` of
/// `embassy_rp`, as the raw bits of its 16.8 fixed-point result. It is taken to
/// return the quotient of the two clocks in units of 1/256, rounded down, with
/// intermediate products cut to 32 bits, and not to panic where the low 24 bits
/// of the whole quotient are from 1 to 65535.
#[verifier::external_body]
fn pio_clock_divider(sys_hz: u32, target_hz: u32) -> (bits: u32)
    requires
        divider_in_range(sys_hz, target_hz),
    ensures
        bits == divider_bits(sys_hz, target_hz),
{
    embassy_rp::pio_programs::clock_divider::calculate_pio_clock_divider_value(sys_hz, target_hz)
        .to_bits()
}

/// What the transmitter really does at a divider.
#[derive(Clone, Copy, Debug, PartialEq, Eq, Structural)]
pub struct I2sTiming {
    /// Frames per second, rounded down (Hz).
    pub actual_sample_rate_hz: u32,
    /// Frames per ms as a 10.14 number, rounded down.
    pub feedback_value_10_14: u32,
}

/// How to set up the transmitter.
#[derive(Clone, Copy, Debug, PartialEq, Eq, Structural)]
pub struct I2sConfig {
    /// Clock divider in units of 1/256.
    pub clock_divider_bits: u32,
    /// Loop count of the PIO program for one slot.
    pub slot_loop_count: u32,
    /// What the set-up really does.
    pub timing: I2sTiming,
}

/// Frames per second at a divider, rounded down.
pub open spec fn actual_rate(sys_hz: u32, bits: int) -> int {
    sys_hz * 256 / (bits * PIO_CLOCKS_PER_FRAME)
}

/// Frames per ms at a divider as a 10.14 number, rounded down.
pub open spec fn actual_feedback(sys_hz: u32, bits: int) -> int {
    sys_hz * 256 * 0x4000 / (bits * PIO_CLOCKS_PER_FRAME * 1_000)
}

/// The set-up for `rate` from a system clock of `sys_hz`.
pub open spec fn config_for(sys_hz: u32, rate: u32) -> I2sConfig {
    let bits = rate_divider(sys_hz, rate);
    I2sConfig {
        clock_divider_bits: bits as u32,
        slot_loop_count: (I2S_SLOT_BITS - 2) as u32,
        timing: I2sTiming {
            actual_sample_rate_hz: actual_rate(sys_hz, bits) as u32,
            feedback_value_10_14: actual_feedback(sys_hz, bits) as u32,
        },
    }
}

/// A divider that is in range has a whole part of 1 to 65535.
pub proof fn law_divider_fits_hardware(sys_hz: u32, target_hz: u32)
    requires
        divider_in_range(sys_hz, target_hz),
    ensures
        0x100 <= divider_bits(sys_hz, target_hz) <= 0xff_ffff,
{
    let quotient: int = (sys_hz / target_hz) as int;
    let remainder: int = (sys_hz % target_hz) as int;
    let d: int = target_hz as int;
    assert(quotient * 256 % 0x1_0000_0000 == quotient % 0x100_0000 * 256);
    let cut: int = remainder * 256 % 0x1_0000_0000;
    assert(0 <= cut <= remainder * 256);
    assert(0 <= cut / d < 256) by (nonlinear_arith)
        requires
            0 <= cut <= remainder * 256,
            0 <= remainder < d,
    ;
}

/// The real timing at a divider from a system clock of `sys_hz`.
pub fn i2s_timing(sys_hz: u32, clock_divider_bits: u32) -> (timing: I2sTiming)
    requires
        clock_divider_bits >= 0x100,
    ensures
        timing.actual_sample_rate_hz == actual_rate(sys_hz, clock_divider_bits as int),
        timing.feedback_value_10_14 == actual_feedback(sys_hz, clock_divider_bits as int),
{
    assert(0x8000 <= clock_divider_bits * PIO_CLOCKS_PER_FRAME <= 0xffff_ffff * 128) by (
    nonlinear_arith)
        requires
            clock_divider_bits >= 0x100,
            PIO_CLOCKS_PER_FRAME == 128,
    ;
    let frame_bits: u64 = clock_divider_bits as u64 * PIO_CLOCKS_PER_FRAME as u64;
    let rate: u64 = sys_hz as u64 * 256 / frame_bits;
    let feedback: u64 = sys_hz as u64 * 256 * 0x4000 / (frame_bits * 1_000);
    assert(rate <= u32::MAX) by (nonlinear_arith)
        requires
            rate == sys_hz * 256 / frame_bits as int,
            frame_bits >= 0x8000,
    ;
    assert(feedback <= u32::MAX) by (nonlinear_arith)
        requires
            feedback == sys_hz * 256 * 0x4000 / (frame_bits * 1_000),
            frame_bits >= 0x8000,
    ;
    I2sTiming { actual_sample_rate_hz: rate as u32, feedback_value_10_14: feedback as u32 }
}

/// Whether there is a divider for `sample_rate_hz` from `sys_hz`, by the low 24
/// bits of the quotient.
pub fn supports_clock(sys_hz: u32, sample_rate_hz: u32) -> (supported: bool)
    ensures
        supported == can_run(sys_hz, sample_rate_hz),
{
    match sample_rate_hz.checked_mul(PIO_CLOCKS_PER_FRAME) {
        Some(target_hz) => {
            if target_hz == 0 {
                false
            } else {
                let whole: u32 = sys_hz / target_hz % 0x100_0000;
                1 <= whole && whole <= 0xffff
            }
        },
        None => false,
    }
}

/// The transmitter's own state: whether it runs.
#[derive(Clone, Copy, Debug, PartialEq, Eq, Structural)]
pub struct I2sPioTx {
    pub started: bool,
}

impl I2sPioTx {
    /// A transmitter that does not run yet, and its set-up for 48 kHz.
    pub fn new(sys_hz: u32) -> (created: (I2sPioTx, I2sConfig))
        requires
            can_run(sys_hz, INITIAL_SAMPLE_RATE_HZ),
        ensures
            !created.0.started,
            created.1 == config_for(sys_hz, INITIAL_SAMPLE_RATE_HZ),
    {
        let mut tx = I2sPioTx { started: false };
        let config = tx.configure(sys_hz, INITIAL_SAMPLE_RATE_HZ);
        (tx, config)
    }

    /// Stops the transmitter for a new sample rate, and returns the set-up.
    pub fn configure(&mut self, sys_hz: u32, sample_rate_hz: u32) -> (config: I2sConfig)
        requires
            can_run(sys_hz, sample_rate_hz),
        ensures
            config == config_for(sys_hz, sample_rate_hz),
            !final(self).started,
    {
        let target_hz: u32 = sample_rate_hz * PIO_CLOCKS_PER_FRAME;
        let clock_divider_bits: u32 = pio_clock_divider(sys_hz, target_hz);
        proof {
            law_divider_fits_hardware(sys_hz, target_hz);
        }
        let timing = i2s_timing(sys_hz, clock_divider_bits);
        self.started = false;
        I2sConfig { clock_divider_bits, slot_loop_count: I2S_SLOT_BITS - 2, timing }
    }

    /// The words of `data` that go into the transmit FIFO before the start.
    pub fn prime<'a>(&self, data: &'a [u32]) -> (words: &'a [u32])
        ensures
            words@ == data@.take(
                crate::fifo::smaller(PRIME_WORDS as int, data@.len() as int),
            ),
            data@.len() >= 8 ==> words@ == data@.take(8),
            data@.len() < 8 ==> words@ == data@,
    {
        let count: usize = if data.len() < PRIME_WORDS {
            data.len()
        } else {
            PRIME_WORDS
        };
        &data[0..count]
    }

    /// Starts the transmitter. Returns whether it has to be enabled: it has not
    /// where it runs already.
    pub fn start(&mut self) -> (enable: bool)
        ensures
            enable == !old(self).started,
            final(self).started,
    {
        if self.started {
            return false;
        }
        self.started = true;
        true
    }
}

/// A quotient is at least `k` where `k` divisors fit.
proof fn lemma_quotient_at_least(n: int, d: int, k: int)
    requires
        d > 0,
        k >= 0,
        k * d <= n,
    ensures
        k <= n / d,
{
    vstd::arithmetic::div_mod::lemma_div_is_ordered(k * d, n, d);
    vstd::arithmetic::div_mod::lemma_div_by_multiple(k, d);
}

/// A quotient times its divisor is what was divided, less a remainder.
proof fn lemma_quotient_bounds(n: int, d: int)
    requires
        d > 0,
    ensures
        (n / d) * d <= n < (n / d + 1) * d,
{
    vstd::arithmetic::div_mod::lemma_fundamental_div_mod(n, d);
    assert((n / d) * d <= n < (n / d + 1) * d) by (nonlinear_arith)
        requires
            n == d * (n / d) + n % d,
            0 <= n % d < d,
    ;
}

/// Whether no bits are cut on the way to a divider.
pub open spec fn divider_uncut(sys_hz: u32, target_hz: u32) -> bool {
    sys_hz / target_hz < 0x100_0000 && sys_hz % target_hz < 0x100_0000
}

/// The divider never exceeds the quotient of the clocks in units of 1/256,
/// rounded down, and is that quotient exactly where no bits are cut.
pub proof fn law_divider_is_quotient_where_uncut(sys_hz: u32, target_hz: u32)
    requires
        target_hz > 0,
    ensures
        divider_bits(sys_hz, target_hz) <= sys_hz * 256 / target_hz as int,
        divider_bits(sys_hz, target_hz) == sys_hz * 256 / target_hz as int <==> divider_uncut(
            sys_hz,
            target_hz,
        ),
{
    let d: int = target_hz as int;
    let quotient: int = sys_hz as int / d;
    let remainder: int = sys_hz as int % d;
    let whole: int = remainder * 256;
    let cut: int = whole % 0x1_0000_0000;
    vstd::arithmetic::div_mod::lemma_fundamental_div_mod(sys_hz as int, d);
    vstd::arithmetic::div_mod::lemma_div_pos_is_pos(sys_hz as int, d);
    vstd::arithmetic::div_mod::lemma_hoist_over_denominator(whole, quotient * 256, d as nat);
    assert(whole + (quotient * 256) * d == sys_hz * 256) by (nonlinear_arith)
        requires
            sys_hz == d * quotient + remainder,
            whole == remainder * 256,
    ;
    assert(sys_hz * 256 / d == whole / d + quotient * 256);
    vstd::arithmetic::div_mod::lemma_div_is_ordered(cut, whole, d);
    if remainder >= 0x100_0000 {
        // What is cut off is a divisor or more.
        assert(cut + d <= whole);
        vstd::arithmetic::div_mod::lemma_div_is_ordered(cut + d, whole, d);
        vstd::arithmetic::div_mod::lemma_hoist_over_denominator(cut, 1, d as nat);
    }
}

/// For a PIO clock from 256 Hz to 2^24 Hz no bits are cut, whatever the system
/// clock.
pub proof fn law_usual_dividers_are_uncut(sys_hz: u32, target_hz: u32)
    requires
        0x100 <= target_hz <= 0x100_0000,
    ensures
        divider_uncut(sys_hz, target_hz),
{
    let quotient: int = sys_hz as int / target_hz as int;
    lemma_quotient_bounds(sys_hz as int, target_hz as int);
    assert(quotient < 0x100_0000) by (nonlinear_arith)
        requires
            quotient * target_hz <= sys_hz,
            target_hz >= 0x100,
    ;
}

/// What the divider of a rate leaves of the system clock.
proof fn lemma_rate_divider(sys_hz: u32, rate: u32)
    requires
        can_run(sys_hz, rate),
    ensures
        ({
            let bits = rate_divider(sys_hz, rate);
            &&& bits >= 0x100
            &&& rate * (bits * PIO_CLOCKS_PER_FRAME) <= sys_hz * 256
            &&& divider_uncut(sys_hz, pio_clock(rate) as u32) ==> sys_hz * 256 < rate * (bits
                * PIO_CLOCKS_PER_FRAME) + rate * PIO_CLOCKS_PER_FRAME
        }),
{
    let bits = rate_divider(sys_hz, rate);
    let target = pio_clock(rate);
    let exact = sys_hz * 256 / target;
    law_divider_fits_hardware(sys_hz, target as u32);
    law_divider_is_quotient_where_uncut(sys_hz, target as u32);
    lemma_quotient_bounds(sys_hz * 256, target);
    assert(bits * target <= exact * target) by (nonlinear_arith)
        requires
            bits <= exact,
            target > 0,
    ;
    assert(rate * (bits * 128) == bits * target && (bits + 1) * target == rate * (bits * 128) + rate
        * 128) by (nonlinear_arith)
        requires
            target == rate * 128,
    ;
}

/// The transmitter never runs slow. Where no bits of the divider are cut, it is
/// fast by less than one part in the divider: `rate <= actual < rate + rate /
/// bits`.
pub proof fn law_real_rate_near_nominal(sys_hz: u32, rate: u32)
    requires
        can_run(sys_hz, rate),
    ensures
        ({
            let bits = rate_divider(sys_hz, rate);
            let actual = actual_rate(sys_hz, bits);
            &&& rate <= actual
            &&& divider_uncut(sys_hz, pio_clock(rate) as u32) ==> (actual - rate) * bits < rate
        }),
{
    lemma_rate_divider(sys_hz, rate);
    let bits = rate_divider(sys_hz, rate);
    let d = bits * PIO_CLOCKS_PER_FRAME;
    let actual = actual_rate(sys_hz, bits);
    lemma_quotient_at_least(sys_hz * 256, d, rate as int);
    lemma_quotient_bounds(sys_hz * 256, d);
    if divider_uncut(sys_hz, pio_clock(rate) as u32) {
        assert((actual - rate) * bits < rate) by (nonlinear_arith)
            requires
                actual * d < rate * d + rate * 128,
                d == bits * 128,
        ;
    }
}

/// The base that real timing gives is never below the nominal feedback. For a
/// supported rate it fits the three bytes of a feedback packet, however far it
/// is corrected.
pub proof fn law_real_feedback_near_nominal(sys_hz: u32, rate: u32)
    requires
        crate::audio::rate_supported(rate),
        can_run(sys_hz, rate),
    ensures
        ({
            let feedback = actual_feedback(sys_hz, rate_divider(sys_hz, rate));
            &&& crate::feedback::nominal_feedback(rate) <= feedback
            &&& feedback + crate::feedback::FEEDBACK_MAX_CORRECTION_10_14 < 0x100_0000
        }),
{
    crate::feedback::law_supported_feedback_fits_packet(rate);
    crate::audio::law_buffer_sizes();
    assert(rate >= 44_100) by {
        let index = choose|i: int|
            0 <= i < crate::audio::supported_rates().len() && crate::audio::supported_rates()[i]
                == rate;
    }
    law_usual_dividers_are_uncut(sys_hz, pio_clock(rate) as u32);
    lemma_rate_divider(sys_hz, rate);
    let bits = rate_divider(sys_hz, rate);
    let nominal: int = crate::feedback::nominal_feedback(rate) as int;
    let d = bits * PIO_CLOCKS_PER_FRAME;
    let n = sys_hz * 256 * 0x4000;
    let feedback = actual_feedback(sys_hz, bits);
    assert(nominal * (d * 1_000) <= n) by (nonlinear_arith)
        requires
            nominal * 1_000 <= rate * 0x4000,
            rate * d <= sys_hz * 256,
            n == sys_hz * 256 * 0x4000,
            d > 0,
    ;
    lemma_quotient_at_least(n, d * 1_000, nominal);
    lemma_quotient_bounds(n, d * 1_000);
    assert(feedback < 4_000_000) by (nonlinear_arith)
        requires
            feedback * (d * 1_000) <= n,
            n == sys_hz * 256 * 0x4000,
            sys_hz * 256 < rate * d + rate * 128,
            d >= 0x100 * 128,
            rate <= 96_000,
    ;
}

/// Whatever the clocks, the base that real timing gives leaves room for a
/// correction in signed 32-bit numbers.
pub proof fn law_real_feedback_leaves_room(sys_hz: u32, bits: int)
    requires
        bits >= 0x100,
    ensures
        0 <= actual_feedback(sys_hz, bits) <= i32::MAX
            - crate::feedback::FEEDBACK_MAX_CORRECTION_10_14,
{
    let n = sys_hz * 256 * 0x4000;
    let d = bits * PIO_CLOCKS_PER_FRAME * 1_000;
    assert(d >= 0x100 * 128 * 1_000);
    assert(0 <= n / d <= 0x7fff_f000) by (nonlinear_arith)
        requires
            0 <= n <= 0x1_0000_0000 * 256 * 0x4000,
            d >= 0x100 * 128 * 1_000,
    ;
}

/// A set-up exists exactly where the PIO clock, 128 times the rate, is a number
/// of 32 bits and not zero, and the low 24 bits of how often it goes into the
/// system clock are from 1 to 65535.
pub proof fn law_set_up_exists(sys_hz: u32, rate: u32)
    ensures
        can_run(sys_hz, rate) <==> 0 < rate * 128 < 0x1_0000_0000 && 1 <= (sys_hz as int / (rate
            * 128)) % 0x100_0000 <= 65535,
{
}

/// Real timing in numbers: a frame takes 128 PIO clocks, each of them the
/// divider over 256 system clocks. Rate and feedback are the largest numbers of
/// frames per second, and of 1/16384 frames per ms, that this reaches.
pub proof fn law_real_timing_counts_clocks(sys_hz: u32, bits: int)
    requires
        bits > 0,
    ensures
        actual_rate(sys_hz, bits) * (bits * 128) <= sys_hz * 256 < (actual_rate(sys_hz, bits) + 1) * (
        bits * 128),
        actual_feedback(sys_hz, bits) * (bits * 128 * 1_000) <= sys_hz * 256 * 16_384 < (
        actual_feedback(sys_hz, bits) + 1) * (bits * 128 * 1_000),
{
    lemma_quotient_bounds(sys_hz * 256, bits * 128);
    lemma_quotient_bounds(sys_hz * 256 * 16_384, bits * 128 * 1_000);
}

/// A set-up in numbers. The divider is the largest that does not run slow, as
/// far as no bits are cut; the loop counts 30; and the timing is that of the
/// divider.
pub proof fn law_set_up_follows_the_divider(sys_hz: u32, rate: u32)
    requires
        can_run(sys_hz, rate),
    ensures
        ({
            let config = config_for(sys_hz, rate);
            let target: int = rate * 128;
            let bits: int = config.clock_divider_bits as int;
            let whole: int = sys_hz as int / target;
            let rest: int = sys_hz as int % target;
            let fraction = bits - 256 * (whole % 0x100_0000);
            let actual: int = config.timing.actual_sample_rate_hz as int;
            let feedback: int = config.timing.feedback_value_10_14 as int;
            &&& 0x100 <= bits <= 0xff_ffff
            &&& 0 <= fraction < 256
            &&& fraction * target <= (rest * 256) % 0x1_0000_0000 < (fraction + 1) * target
            &&& bits * target <= sys_hz * 256
            &&& whole < 0x100_0000 && rest < 0x100_0000 ==> sys_hz * 256 < (bits + 1) * target
            &&& config.slot_loop_count == 30
            &&& actual * (bits * 128) <= sys_hz * 256 < (actual + 1) * (bits * 128)
            &&& feedback * (bits * 128 * 1_000) <= sys_hz * 256 * 16_384 < (feedback + 1) * (bits
                * 128 * 1_000)
        }),
{
    let target: int = rate * 128;
    let bits = rate_divider(sys_hz, rate);
    let whole: int = sys_hz as int / target;
    let rest: int = sys_hz as int % target;
    let cut: int = (rest * 256) % 0x1_0000_0000;
    law_divider_fits_hardware(sys_hz, target as u32);
    law_divider_is_quotient_where_uncut(sys_hz, target as u32);
    lemma_quotient_bounds(cut, target);
    lemma_quotient_bounds(sys_hz * 256, target);
    assert(whole * 256 % 0x1_0000_0000 == 256 * (whole % 0x100_0000));
    assert(bits == 256 * (whole % 0x100_0000) + cut / target);
    assert(0 <= cut / target < 256) by (nonlinear_arith)
        requires
            0 <= cut <= rest * 256,
            0 <= rest < target,
    ;
    assert(bits * target <= sys_hz * 256) by (nonlinear_arith)
        requires
            bits <= sys_hz * 256 / target,
            (sys_hz * 256 / target) * target <= sys_hz * 256,
            target > 0,
    ;
    law_real_timing_counts_clocks(sys_hz, bits);
    law_real_feedback_leaves_room(sys_hz, bits);
    let actual = actual_rate(sys_hz, bits);
    assert(0 <= actual <= u32::MAX) by (nonlinear_arith)
        requires
            actual * (bits * 128) <= sys_hz * 256 < (actual + 1) * (bits * 128),
            bits >= 0x100,
    ;
}

} // verus!
