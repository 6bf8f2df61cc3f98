//! Stream formats, packet sizes and the shared state of the audio function.
//!
//! Two-channel PCM, 16 bits or packed 24 bits per sample, at 44.1, 48, 88.2 or
//! 96 kHz. A device starts stopped, at 16 bits and 48 kHz.

use vstd::prelude::*;

use crate::feedback::feedback_value_10_14;

verus! {

/// Sample rate at power-up, and the one fallen back to (Hz).
pub const SAMPLE_RATE_HZ: u32 = 48_000;

/// PCM channels: a stereo frame is a left and a right sample.
pub const CHANNEL_COUNT: usize = 2;

/// Bits per sample of alternate setting 1.
pub const BITS_PER_SAMPLE_16: u8 = 16;

/// Bits per sample of alternate setting 2, packed into three bytes on USB.
pub const BITS_PER_SAMPLE_24: u8 = 24;

/// The highest supported sample rate (Hz), for which buffers are sized.
pub const MAX_SAMPLE_RATE_HZ: u32 = 96_000;

/// Bytes of the largest 16-bit packet: 1 ms at 96 kHz.
pub const USB_PACKET_SIZE_16: usize = 384;

/// Bytes of the largest 24-bit packet: 1 ms at 96 kHz.
pub const USB_PACKET_SIZE_24: usize = 576;

/// I2S words of the largest packet: 1 ms at 96 kHz.
pub const MAX_I2S_PACKET_WORDS: usize = 192;

/// Number of sample rates that the clock source offers.
pub const SUPPORTED_RATE_COUNT: usize = 4;

/// `n / d`, rounded up.
pub open spec fn ceil_div(n: int, d: int) -> int
    recommends
        n >= 0,
        d > 0,
{
    (n + d - 1) / d
}

/// Bytes that one sample of `bits` bits takes on USB.
pub open spec fn sample_bytes(bits: u8) -> int {
    ceil_div(bits as int, 8)
}

/// The most stereo frames that 1 ms holds at `rate` Hz.
pub open spec fn packet_frames(rate: u32) -> int {
    ceil_div(rate as int, 1_000)
}

/// Bytes of the largest 1 ms packet of a format.
pub open spec fn packet_bytes(bits: u8, rate: u32) -> int {
    packet_frames(rate) * CHANNEL_COUNT * sample_bytes(bits)
}

/// I2S words of the largest 1 ms packet at a rate: one word per sample.
pub open spec fn packet_words(rate: u32) -> int {
    packet_frames(rate) * CHANNEL_COUNT
}

/// The sample rates that the clock source offers, ascending.
pub open spec fn supported_rates() -> Seq<u32> {
    seq![44_100u32, 48_000u32, 88_200u32, 96_000u32]
}

/// Whether `rate` is one of the offered sample rates.
pub open spec fn rate_supported(rate: u32) -> bool {
    supported_rates().contains(rate)
}

/// Whether the device plays `bits`-bit samples at `rate` Hz.
pub open spec fn format_supported(bits: u8, rate: u32) -> bool {
    (bits == BITS_PER_SAMPLE_16 || bits == BITS_PER_SAMPLE_24) && rate_supported(rate)
}

/// What the USB control path, the playback loop and the feedback senders share.
#[derive(Clone, Copy, Debug, PartialEq, Eq, Structural)]
pub struct AudioState {
    /// Whether a streaming alternate setting is selected.
    pub stream_active: bool,
    /// The selected nominal sample rate (Hz).
    pub sample_rate_hz: u32,
    /// Bits per sample; kept while the stream is stopped.
    pub bits_per_sample: u8,
    /// Generation of the format: moves on whenever rate or width changes.
    pub config_version: u32,
    /// Uncorrected feedback, from the real I2S clock (frames per ms, 10.14).
    pub base_feedback_10_14: u32,
    /// Feedback to report to the host (frames per ms, 10.14).
    pub current_feedback_10_14: u32,
}

impl AudioState {
    /// Whether the selected format is one that the device plays.
    pub open spec fn wf(self) -> bool {
        format_supported(self.bits_per_sample, self.sample_rate_hz)
    }

    /// The state with another format selected. The generation moves on, past
    /// the largest number back to 0, exactly if the format is a different one.
    pub open spec fn retuned(self, bits: u8, rate: u32) -> AudioState {
        let changed = self.bits_per_sample != bits || self.sample_rate_hz != rate;
        AudioState {
            bits_per_sample: bits,
            sample_rate_hz: rate,
            config_version: if changed {
                next_version(self.config_version)
            } else {
                self.config_version
            },
            ..self
        }
    }

    /// The power-up state: stopped, 16 bits, 48 kHz, nominal feedback.
    pub fn new() -> (state: AudioState)
        ensures
            state.wf(),
            !state.stream_active,
            state.sample_rate_hz == SAMPLE_RATE_HZ,
            state.bits_per_sample == BITS_PER_SAMPLE_16,
            state.config_version == 0,
            state.base_feedback_10_14 == crate::feedback::nominal_feedback(SAMPLE_RATE_HZ),
            state.current_feedback_10_14 == crate::feedback::nominal_feedback(SAMPLE_RATE_HZ),
            state.sample_rate_hz == 48_000,
            state.bits_per_sample == 16,
            state.base_feedback_10_14 == 786_432,
            state.current_feedback_10_14 == 786_432,
    {
        assert(supported_rates()[1] == SAMPLE_RATE_HZ);
        AudioState {
            stream_active: false,
            sample_rate_hz: SAMPLE_RATE_HZ,
            bits_per_sample: BITS_PER_SAMPLE_16,
            config_version: 0,
            base_feedback_10_14: feedback_value_10_14(SAMPLE_RATE_HZ),
            current_feedback_10_14: feedback_value_10_14(SAMPLE_RATE_HZ),
        }
    }
}

/// The generation after `version`, modulo 2^32.
pub open spec fn next_version(version: u32) -> u32 {
    if version == u32::MAX {
        0
    } else {
        (version + 1) as u32
    }
}

/// Rounds a sample's width in bits up to whole bytes.
pub fn bytes_per_sample(bits_per_sample: u8) -> (bytes: usize)
    ensures
        bytes == sample_bytes(bits_per_sample),
        bytes <= 32,
{
    (bits_per_sample as usize + 7) / 8
}

/// I2S words per sample: every width fills one 32-bit slot.
pub fn i2s_words_per_sample(bits_per_sample: u8) -> (words: usize)
    ensures
        words == 1,
{
    let _ = bits_per_sample;
    1
}

/// The most stereo frames in 1 ms.
fn frames_per_packet(sample_rate_hz: u32) -> (frames: usize)
    ensures
        frames == packet_frames(sample_rate_hz),
        frames <= 4_294_968,
{
    let whole: u32 = sample_rate_hz / 1_000;
    if sample_rate_hz % 1_000 == 0 {
        whole as usize
    } else {
        whole as usize + 1
    }
}

/// Bytes of the largest 1 ms isochronous packet of a format.
pub fn usb_packet_size(bits_per_sample: u8, sample_rate_hz: u32) -> (size: usize)
    ensures
        size == packet_bytes(bits_per_sample, sample_rate_hz),
{
    let frames: usize = frames_per_packet(sample_rate_hz);
    let bytes: usize = bytes_per_sample(bits_per_sample);
    assert(0 <= frames * 2 * bytes <= 4_294_968 * 2 * 32) by (nonlinear_arith)
        requires
            frames <= 4_294_968,
            bytes <= 32,
    ;
    frames * CHANNEL_COUNT * bytes
}

/// I2S words of the largest 1 ms packet. Any width and any rate, also 0 Hz,
/// have an answer, supported or not.
pub fn i2s_words_per_usb_packet(bits_per_sample: u8, sample_rate_hz: u32) -> (words: usize)
    ensures
        words == packet_words(sample_rate_hz),
{
    frames_per_packet(sample_rate_hz) * CHANNEL_COUNT * i2s_words_per_sample(bits_per_sample)
}

/// The offered sample rates, ascending.
pub fn supported_sample_rates_hz() -> (rates: [u32; SUPPORTED_RATE_COUNT])
    ensures
        rates@ == supported_rates(),
{
    [44_100, 48_000, 88_200, 96_000]
}

/// Whether the clock source offers `sample_rate_hz`.
pub fn supports_sample_rate(sample_rate_hz: u32) -> (supported: bool)
    ensures
        supported == rate_supported(sample_rate_hz),
{
    let rates = supported_sample_rates_hz();
    let mut index: usize = 0;
    while index < SUPPORTED_RATE_COUNT
        invariant
            index <= SUPPORTED_RATE_COUNT,
            rates@ == supported_rates(),
            forall|j: int| 0 <= j < index ==> rates@[j] != sample_rate_hz,
        decreases SUPPORTED_RATE_COUNT - index,
    {
        if rates[index] == sample_rate_hz {
            assert(supported_rates()[index as int] == sample_rate_hz);
            return true;
        }
        index += 1;
    }
    false
}

/// Whether the device plays `bits_per_sample`-bit samples at `sample_rate_hz`.
pub fn supports_stream_format(bits_per_sample: u8, sample_rate_hz: u32) -> (supported: bool)
    ensures
        supported == format_supported(bits_per_sample, sample_rate_hz),
{
    match bits_per_sample {
        BITS_PER_SAMPLE_16 => supports_sample_rate(sample_rate_hz),
        BITS_PER_SAMPLE_24 => supports_sample_rate(sample_rate_hz),
        _ => false,
    }
}

/// The selected nominal sample rate (Hz).
pub fn current_sample_rate_hz(state: &AudioState) -> (rate: u32)
    ensures
        rate == state.sample_rate_hz,
{
    state.sample_rate_hz
}

/// The selected width in bits, also while the stream is stopped.
pub fn current_bits_per_sample(state: &AudioState) -> (bits: u8)
    ensures
        bits == state.bits_per_sample,
{
    state.bits_per_sample
}

/// I2S words of the largest 1 ms packet of the selected format.
pub fn current_i2s_packet_words(state: &AudioState) -> (words: usize)
    ensures
        words == packet_words(state.sample_rate_hz),
        state.wf() ==> words <= MAX_I2S_PACKET_WORDS,
{
    proof {
        if state.wf() {
            law_supported_packets_fit(state.bits_per_sample, state.sample_rate_hz);
        }
    }
    i2s_words_per_usb_packet(current_bits_per_sample(state), current_sample_rate_hz(state))
}

/// The generation of the selected format. It wraps: only a difference tells.
pub fn stream_config_version(state: &AudioState) -> (version: u32)
    ensures
        version == state.config_version,
{
    state.config_version
}

/// Selects a rate without a check, and says whether it is a different one. The
/// generation is the caller's to move on.
pub(crate) fn update_sample_rate(state: &mut AudioState, sample_rate_hz: u32) -> (changed: bool)
    ensures
        changed == (old(state).sample_rate_hz != sample_rate_hz),
        *final(state) == (AudioState { sample_rate_hz, ..*old(state) }),
{
    let previous: u32 = state.sample_rate_hz;
    state.sample_rate_hz = sample_rate_hz;
    previous != sample_rate_hz
}

/// Selects a width without a check, and says whether it is a different one. The
/// generation is the caller's to move on.
pub(crate) fn update_stream_format(state: &mut AudioState, bits_per_sample: u8) -> (changed: bool)
    ensures
        changed == (old(state).bits_per_sample != bits_per_sample),
        *final(state) == (AudioState { bits_per_sample, ..*old(state) }),
{
    let previous: u8 = state.bits_per_sample;
    state.bits_per_sample = bits_per_sample;
    previous != bits_per_sample
}

/// Moves the generation on, past the largest number back to 0.
pub(crate) fn note_stream_config_change(state: &mut AudioState)
    ensures
        *final(state) == (AudioState {
            config_version: next_version(old(state).config_version),
            ..*old(state)
        }),
{
    state.config_version = state.config_version.wrapping_add(1);
}

/// Buffers sized for 96 kHz hold a packet of every supported format, and a
/// packet never exceeds the 1023 bytes of a full-speed isochronous transfer.
pub proof fn law_supported_packets_fit(bits: u8, rate: u32)
    requires
        format_supported(bits, rate),
    ensures
        0 < packet_words(rate) <= MAX_I2S_PACKET_WORDS,
        bits == BITS_PER_SAMPLE_16 ==> 0 < packet_bytes(bits, rate) <= USB_PACKET_SIZE_16,
        bits == BITS_PER_SAMPLE_24 ==> 0 < packet_bytes(bits, rate) <= USB_PACKET_SIZE_24,
        packet_bytes(bits, rate) <= 1023,
{
    let index = choose|i: int| 0 <= i < supported_rates().len() && supported_rates()[i] == rate;
    assert(rate == 44_100 || rate == 48_000 || rate == 88_200 || rate == 96_000);
    assert(sample_bytes(16) == 2 && sample_bytes(24) == 3);
    assert(packet_frames(44_100) == 45 && packet_frames(48_000) == 48);
    assert(packet_frames(88_200) == 89 && packet_frames(96_000) == 96);
}

/// The buffer sizes are those of the highest rate.
pub proof fn law_buffer_sizes()
    ensures
        packet_bytes(BITS_PER_SAMPLE_16, MAX_SAMPLE_RATE_HZ) == USB_PACKET_SIZE_16,
        packet_bytes(BITS_PER_SAMPLE_24, MAX_SAMPLE_RATE_HZ) == USB_PACKET_SIZE_24,
        packet_words(MAX_SAMPLE_RATE_HZ) == MAX_I2S_PACKET_WORDS,
        rate_supported(MAX_SAMPLE_RATE_HZ),
        forall|rate: u32| rate_supported(rate) ==> rate <= MAX_SAMPLE_RATE_HZ,
{
    assert(sample_bytes(16) == 2 && sample_bytes(24) == 3);
    assert(packet_frames(96_000) == 96);
    assert(supported_rates()[3] == MAX_SAMPLE_RATE_HZ);
}

/// A selection changes the generation exactly if it changes the format, and
/// touches neither the activity nor the feedback.
pub proof fn law_version_tracks_format(state: AudioState, bits: u8, rate: u32)
    ensures
        ({
            let next = state.retuned(bits, rate);
            &&& next.config_version == state.config_version <==> (next.bits_per_sample
                == state.bits_per_sample && next.sample_rate_hz == state.sample_rate_hz)
            &&& next.stream_active == state.stream_active
            &&& next.base_feedback_10_14 == state.base_feedback_10_14
            &&& next.current_feedback_10_14 == state.current_feedback_10_14
        }),
{
}

/// Sizes are the least that suffice: a sample takes the fewest bytes that hold
/// its bits, and 1 ms the fewest frames that reach the rate. A frame is two
/// samples, each of them one word.
pub proof fn law_sizes_are_least(bits: u8, rate: u32)
    ensures
        8 * (sample_bytes(bits) - 1) < bits <= 8 * sample_bytes(bits),
        1_000 * (packet_frames(rate) - 1) < rate <= 1_000 * packet_frames(rate),
        packet_words(rate) == 2 * packet_frames(rate),
        packet_bytes(bits, rate) == packet_words(rate) * sample_bytes(bits),
{
}

/// The device plays 16 and 24 bits, each at 44.1, 48, 88.2 and 96 kHz, and
/// nothing else.
pub proof fn law_formats_played(state: AudioState, bits: u8, rate: u32)
    ensures
        rate_supported(rate) <==> rate == 44_100 || rate == 48_000 || rate == 88_200 || rate
            == 96_000,
        format_supported(bits, rate) <==> (bits == 16 || bits == 24) && (rate == 44_100 || rate
            == 48_000 || rate == 88_200 || rate == 96_000),
        state.wf() <==> format_supported(state.bits_per_sample, state.sample_rate_hz),
{
    let rates = supported_rates();
    assert(rates[0] == 44_100 && rates[1] == 48_000 && rates[2] == 88_200 && rates[3] == 96_000);
    assert(rates.len() == 4);
    if rate_supported(rate) {
        let index = choose|i: int| 0 <= i < rates.len() && rates[i] == rate;
        assert(index == 0 || index == 1 || index == 2 || index == 3);
    }
}

/// A selection takes over width and rate as they are, counts one generation on
/// modulo 2^32 where either is new, and leaves the rest.
pub proof fn law_selection_counts_changes(state: AudioState, bits: u8, rate: u32)
    ensures
        ({
            let next = state.retuned(bits, rate);
            let changes: int = if bits == state.bits_per_sample && rate == state.sample_rate_hz {
                0
            } else {
                1
            };
            &&& next.bits_per_sample == bits
            &&& next.sample_rate_hz == rate
            &&& next.config_version == (state.config_version + changes) % 0x1_0000_0000
            &&& next.stream_active == state.stream_active
            &&& next.base_feedback_10_14 == state.base_feedback_10_14
            &&& next.current_feedback_10_14 == state.current_feedback_10_14
        }),
{
}

} // verus!
