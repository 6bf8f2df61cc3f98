//! Control requests: the clock source, alternate settings and bus resets.

use vstd::prelude::*;

use crate::audio::{
    current_bits_per_sample, current_sample_rate_hz, note_stream_config_change,
    supported_sample_rates_hz, supports_stream_format, update_sample_rate, update_stream_format,
    AudioState, BITS_PER_SAMPLE_16, BITS_PER_SAMPLE_24, SAMPLE_RATE_HZ, SUPPORTED_RATE_COUNT,
};
use crate::bytes::{u16_to_le, u32_from_le, u32_to_le, write_at};
use crate::descriptors::{
    CLOCK_SOURCE_ID, CONTROL_POSITION, INTERFACE_COUNT, STREAMING_POSITION,
};

verus! {

/// Request code that reads or sets a current value.
pub const UAC2_CUR: u8 = 0x01;

/// Request code that reads a range.
pub const UAC2_GET_RANGE: u8 = 0x02;

/// Clock source control: sample frequency.
pub const CLOCK_FREQUENCY_CONTROL_SELECTOR: u8 = 0x01;

/// Clock source control: clock validity.
pub const CLOCK_VALIDITY_CONTROL_SELECTOR: u8 = 0x02;

/// The channel number that means the clock as a whole.
pub const CLOCK_CONTROL_MASTER_CHANNEL: u8 = 0x00;

/// The answer that the clock is valid.
pub const CLOCK_VALIDITY_TRUE: u8 = 1;

/// Bytes of a frequency.
pub const CLOCK_FREQUENCY_BYTES: usize = 4;

/// Bytes of a validity.
pub const CLOCK_VALIDITY_BYTES: usize = 1;

/// Bytes of one entry of a frequency range: minimum, maximum, resolution.
pub const CLOCK_RANGE_ENTRY_BYTES: usize = 12;

/// Bytes of the frequency range: a count and an entry for each rate.
pub const CLOCK_RANGE_BYTES: usize = 50;

/// Who defines a control request.
#[derive(Clone, Copy, Debug, PartialEq, Eq, Structural)]
pub enum RequestType {
    Standard,
    Class,
    Vendor,
    Reserved,
}

/// Which part of the device a control request is for.
#[derive(Clone, Copy, Debug, PartialEq, Eq, Structural)]
pub enum Recipient {
    Device,
    Interface,
    Endpoint,
    Other,
    Reserved,
}

/// The fields of a setup packet that the audio function reads.
#[derive(Clone, Copy, Debug, PartialEq, Eq, Structural)]
pub struct ControlRequest {
    pub request_type: RequestType,
    pub recipient: Recipient,
    pub request: u8,
    /// High byte: control selector. Low byte: channel.
    pub value: u16,
    /// High byte: entity. Low byte: interface.
    pub index: u16,
}

/// The answer to a request that carries data to the device.
#[derive(Clone, Copy, Debug, PartialEq, Eq, Structural)]
pub enum OutResponse {
    Accepted,
    Rejected,
}

/// The answer to a request that asks for data.
#[derive(Clone, Copy, Debug, PartialEq, Eq, Structural)]
pub enum InResponse {
    /// Send this many bytes from the front of the buffer.
    Accepted(usize),
    Rejected,
}

impl ControlRequest {
    /// The interface that the request is for.
    pub open spec fn interface(self) -> u8 {
        (self.index % 256) as u8
    }

    /// The entity of the interface that the request is for.
    pub open spec fn entity(self) -> u8 {
        (self.index / 256) as u8
    }

    /// The channel of the entity.
    pub open spec fn channel(self) -> u8 {
        (self.value % 256) as u8
    }

    /// The control of the entity.
    pub open spec fn selector(self) -> u8 {
        (self.value / 256) as u8
    }

    /// Whether this is a class request to interface `number`.
    pub open spec fn is_class_request_to(self, number: u8) -> bool {
        &&& self.request_type == RequestType::Class
        &&& self.recipient == Recipient::Interface
        &&& self.interface() == number
    }

    /// Whether this is request `request` on control `selector` of the clock as
    /// a whole.
    pub open spec fn is_clock_request(self, selector: u8, request: u8) -> bool {
        &&& self.entity() == CLOCK_SOURCE_ID
        &&& self.channel() == CLOCK_CONTROL_MASTER_CHANNEL
        &&& self.selector() == selector
        &&& self.request == request
    }
}

/// The bytes of a frequency range entry for one discrete rate: the rate is both
/// minimum and maximum, and there is no resolution.
pub open spec fn range_entry(rate: u32) -> Seq<u8> {
    crate::bytes::le32(rate) + crate::bytes::le32(rate) + crate::bytes::le32(0)
}

/// Range entries of `rates`, one after the other.
pub open spec fn range_entries(rates: Seq<u32>) -> Seq<u8>
    decreases rates.len(),
{
    if rates.len() == 0 {
        seq![]
    } else {
        range_entries(rates.drop_last()) + range_entry(rates.last())
    }
}

/// The answer to a frequency range request: how many rates, and each of them.
pub open spec fn frequency_range() -> Seq<u8> {
    crate::bytes::le16(crate::audio::supported_rates().len() as u16) + range_entries(
        crate::audio::supported_rates(),
    )
}

/// The control side of the audio function: which interfaces are its own.
#[derive(Clone, Copy, Debug, PartialEq, Eq, Structural)]
pub struct UsbAudioClass {
    /// Number of the audio control interface.
    pub ac_interface: u8,
    /// Number of the audio streaming interface.
    pub streaming_interface: u8,
}

/// What a request on the clock as a whole reads, where it reads anything.
pub open spec fn clock_reading(state: AudioState, selector: u8, request: u8) -> Option<Seq<u8>> {
    if selector == CLOCK_FREQUENCY_CONTROL_SELECTOR && request == UAC2_CUR {
        Some(crate::bytes::le32(state.sample_rate_hz))
    } else if selector == CLOCK_FREQUENCY_CONTROL_SELECTOR && request == UAC2_GET_RANGE {
        Some(frequency_range())
    } else if selector == CLOCK_VALIDITY_CONTROL_SELECTOR && request == UAC2_CUR {
        Some(seq![CLOCK_VALIDITY_TRUE])
    } else {
        None
    }
}

/// The width that a streaming alternate setting carries.
pub open spec fn alternate_bits(alternate: u8) -> u8 {
    if alternate == 2 {
        BITS_PER_SAMPLE_24
    } else {
        BITS_PER_SAMPLE_16
    }
}

/// Whether an alternate setting carries a stream.
pub open spec fn alternate_streams(alternate: u8) -> bool {
    alternate == 1 || alternate == 2
}

/// The state after the streaming interface switched to `alternate`. A setting
/// that streams selects its width, and 48 kHz where the width does not go with
/// the rate so far. Any other only stops the stream.
pub open spec fn after_alternate(state: AudioState, alternate: u8) -> AudioState {
    if alternate_streams(alternate) {
        let bits = alternate_bits(alternate);
        let rate = if crate::audio::format_supported(bits, state.sample_rate_hz) {
            state.sample_rate_hz
        } else {
            SAMPLE_RATE_HZ
        };
        AudioState { stream_active: true, ..state.retuned(bits, rate) }
    } else {
        AudioState { stream_active: false, ..state }
    }
}

/// The state after a bus reset: stopped, 16 bits, 48 kHz. The feedback stays.
pub open spec fn after_reset(state: AudioState) -> AudioState {
    AudioState { stream_active: false, ..state.retuned(BITS_PER_SAMPLE_16, SAMPLE_RATE_HZ) }
}

impl UsbAudioClass {
    /// Whether a request sets the sample rate to one that goes with the
    /// selected width.
    pub open spec fn accepts(self, state: AudioState, req: ControlRequest, data: Seq<u8>) -> bool {
        &&& req.is_class_request_to(self.ac_interface)
        &&& req.is_clock_request(CLOCK_FREQUENCY_CONTROL_SELECTOR, UAC2_CUR)
        &&& data.len() >= CLOCK_FREQUENCY_BYTES
        &&& crate::audio::format_supported(
            state.bits_per_sample,
            crate::bytes::le32_value(data),
        )
    }

    /// The answer to a request that carries data: none to a request for someone
    /// else, and a refusal to everything but a supported sample rate.
    pub open spec fn out_reply(
        self,
        state: AudioState,
        req: ControlRequest,
        data: Seq<u8>,
    ) -> Option<OutResponse> {
        if !req.is_class_request_to(self.ac_interface) {
            None
        } else if self.accepts(state, req, data) {
            Some(OutResponse::Accepted)
        } else {
            Some(OutResponse::Rejected)
        }
    }

    /// The answer to a request for data, with `room` bytes to answer in: none to
    /// a request for someone else or one that the clock does not know, and a
    /// refusal where it is not for the clock as a whole or the room is short.
    pub open spec fn in_reply(
        self,
        state: AudioState,
        req: ControlRequest,
        room: nat,
    ) -> Option<InResponse> {
        if !req.is_class_request_to(self.ac_interface) || req.entity() != CLOCK_SOURCE_ID {
            None
        } else if req.channel() != CLOCK_CONTROL_MASTER_CHANNEL {
            Some(InResponse::Rejected)
        } else {
            match clock_reading(state, req.selector(), req.request) {
                None => None,
                Some(reading) => if room < reading.len() {
                    Some(InResponse::Rejected)
                } else {
                    Some(InResponse::Accepted(reading.len() as usize))
                },
            }
        }
    }

    /// The control side of a function whose interfaces have `numbers`, in the
    /// order of its layout.
    pub open spec fn of_interfaces(numbers: Seq<u8>) -> UsbAudioClass {
        UsbAudioClass {
            ac_interface: numbers[CONTROL_POSITION as int],
            streaming_interface: numbers[STREAMING_POSITION as int],
        }
    }

    /// The control side of a function whose interfaces, set up as
    /// `function_plan` says, were given `numbers`.
    pub fn new(numbers: [u8; INTERFACE_COUNT]) -> (class: UsbAudioClass)
        ensures
            class == UsbAudioClass::of_interfaces(numbers@),
            class.ac_interface == numbers@[0],
            class.streaming_interface == numbers@[1],
    {
        UsbAudioClass {
            ac_interface: numbers[CONTROL_POSITION],
            streaming_interface: numbers[STREAMING_POSITION],
        }
    }

    /// Answers a request that carries data to the device. The one request that
    /// is accepted selects the sample rate in its first four bytes; further
    /// bytes are ignored.
    pub fn control_out(
        &self,
        state: &mut AudioState,
        req: ControlRequest,
        buf: &[u8],
    ) -> (reply: Option<OutResponse>)
        ensures
            reply == self.out_reply(*old(state), req, buf@),
            *final(state) == if self.accepts(*old(state), req, buf@) {
                old(state).retuned(old(state).bits_per_sample, crate::bytes::le32_value(buf@))
            } else {
                *old(state)
            },
    {
        if req.request_type != RequestType::Class || req.recipient != Recipient::Interface {
            return None;
        }
        if (req.index % 256) as u8 != self.ac_interface {
            return None;
        }
        if (req.index / 256) as u8 != CLOCK_SOURCE_ID || req.request != UAC2_CUR {
            return Some(OutResponse::Rejected);
        }
        if (req.value % 256) as u8 != CLOCK_CONTROL_MASTER_CHANNEL || (req.value / 256) as u8
            != CLOCK_FREQUENCY_CONTROL_SELECTOR || buf.len() < CLOCK_FREQUENCY_BYTES {
            return Some(OutResponse::Rejected);
        }
        let sample_rate_hz: u32 = u32_from_le(buf);
        let bits_per_sample: u8 = current_bits_per_sample(state);
        if !supports_stream_format(bits_per_sample, sample_rate_hz) {
            return Some(OutResponse::Rejected);
        }
        if update_sample_rate(state, sample_rate_hz) {
            note_stream_config_change(state);
        }
        Some(OutResponse::Accepted)
    }

    /// Answers a request for data: the sample rate, the offered sample rates or
    /// the validity of the clock, in the front of `buf`.
    pub fn control_in(
        &self,
        state: &AudioState,
        req: ControlRequest,
        buf: &mut [u8],
    ) -> (reply: Option<InResponse>)
        ensures
            reply == self.in_reply(*state, req, old(buf)@.len()),
            final(buf)@ == match reply {
                Some(InResponse::Accepted(length)) => {
                    clock_reading(*state, req.selector(), req.request)->0 + old(buf)@.skip(
                        length as int,
                    )
                },
                _ => old(buf)@,
            },
    {
        if req.request_type != RequestType::Class || req.recipient != Recipient::Interface {
            return None;
        }
        if (req.index % 256) as u8 != self.ac_interface {
            return None;
        }
        if (req.index / 256) as u8 != CLOCK_SOURCE_ID {
            return None;
        }
        let control_selector: u8 = (req.value / 256) as u8;
        if (req.value % 256) as u8 != CLOCK_CONTROL_MASTER_CHANNEL {
            return Some(InResponse::Rejected);
        }
        match (control_selector, req.request) {
            (CLOCK_FREQUENCY_CONTROL_SELECTOR, UAC2_CUR) => {
                if buf.len() < CLOCK_FREQUENCY_BYTES {
                    return Some(InResponse::Rejected);
                }
                let bytes = u32_to_le(current_sample_rate_hz(state));
                write_at(buf, 0, &bytes);
                assert(old(buf)@.take(0) =~= seq![]);
                Some(InResponse::Accepted(CLOCK_FREQUENCY_BYTES))
            },
            (CLOCK_FREQUENCY_CONTROL_SELECTOR, UAC2_GET_RANGE) => {
                proof {
                    law_frequency_range_length();
                }
                if buf.len() < CLOCK_RANGE_BYTES {
                    return Some(InResponse::Rejected);
                }
                write_frequency_range(buf);
                Some(InResponse::Accepted(CLOCK_RANGE_BYTES))
            },
            (CLOCK_VALIDITY_CONTROL_SELECTOR, UAC2_CUR) => {
                if buf.len() < CLOCK_VALIDITY_BYTES {
                    return Some(InResponse::Rejected);
                }
                buf[0] = CLOCK_VALIDITY_TRUE;
                assert(buf@ =~= seq![CLOCK_VALIDITY_TRUE] + old(buf)@.skip(1));
                Some(InResponse::Accepted(CLOCK_VALIDITY_BYTES))
            },
            _ => None,
        }
    }

    /// Takes note that `iface` switched to an alternate setting. Only the
    /// streaming interface matters.
    pub fn set_alternate_setting(&self, state: &mut AudioState, iface: u8, alternate: u8)
        ensures
            *final(state) == if iface == self.streaming_interface {
                after_alternate(*old(state), alternate)
            } else {
                *old(state)
            },
    {
        if iface == self.streaming_interface {
            let mut changed = false;
            let active = alternate == 1 || alternate == 2;
            if active {
                let bits_per_sample: u8 = if alternate == 2 {
                    BITS_PER_SAMPLE_24
                } else {
                    BITS_PER_SAMPLE_16
                };
                changed = update_stream_format(state, bits_per_sample);
                if !supports_stream_format(bits_per_sample, current_sample_rate_hz(state)) {
                    let rate_changed = update_sample_rate(state, SAMPLE_RATE_HZ);
                    changed = changed || rate_changed;
                }
            }
            state.stream_active = active;
            if changed {
                note_stream_config_change(state);
            }
        }
    }

    /// Takes note of a bus reset.
    pub fn reset(&self, state: &mut AudioState)
        ensures
            *final(state) == after_reset(*old(state)),
    {
        state.stream_active = false;
        let width_changed = update_stream_format(state, BITS_PER_SAMPLE_16);
        let rate_changed = update_sample_rate(state, SAMPLE_RATE_HZ);
        if width_changed || rate_changed {
            note_stream_config_change(state);
        }
    }
}

/// The numbers of `count` interfaces that follow `taken` others on a device.
pub open spec fn interface_numbers(taken: nat, count: nat) -> Seq<u8> {
    Seq::new(count, |i: int| (taken + i) as u8)
}

/// Where the audio function comes first on its device, audio control is
/// interface 0 and streaming is interface 1.
pub proof fn law_first_function_is_interfaces_0_and_1()
    ensures
        ({
            let layout = crate::descriptors::function_layout();
            let numbers = interface_numbers(0, layout.len());
            let class = UsbAudioClass::of_interfaces(numbers);
            &&& layout.len() == INTERFACE_COUNT
            &&& layout[0].class == crate::descriptors::control_code()
            &&& layout[1].class == crate::descriptors::streaming_code()
            &&& numbers == seq![0u8, 1u8]
            &&& class.ac_interface == 0
            &&& class.streaming_interface == 1
        }),
{
    assert(interface_numbers(0, 2) =~= seq![0u8, 1u8]);
}

/// Writes the frequency range to the front of `buf`.
fn write_frequency_range(buf: &mut [u8])
    requires
        old(buf).len() >= CLOCK_RANGE_BYTES,
    ensures
        final(buf)@ == frequency_range() + old(buf)@.skip(CLOCK_RANGE_BYTES as int),
{
    let rates = supported_sample_rates_hz();
    let count = u16_to_le(SUPPORTED_RATE_COUNT as u16);
    write_at(buf, 0, &count);
    let ghost head = crate::bytes::le16(SUPPORTED_RATE_COUNT as u16);
    assert(rates@.take(0) =~= seq![]);
    assert(buf@ =~= head + range_entries(rates@.take(0)) + old(buf)@.skip(2));
    let mut index: usize = 0;
    while index < SUPPORTED_RATE_COUNT
        invariant
            index <= SUPPORTED_RATE_COUNT,
            rates@.len() == SUPPORTED_RATE_COUNT,
            head.len() == 2,
            old(buf)@.len() >= CLOCK_RANGE_BYTES,
            range_entries(rates@.take(index as int)).len() == index * CLOCK_RANGE_ENTRY_BYTES,
            buf@ == head + range_entries(rates@.take(index as int)) + old(buf)@.skip(
                2 + index * CLOCK_RANGE_ENTRY_BYTES,
            ),
        decreases SUPPORTED_RATE_COUNT - index,
    {
        let offset: usize = 2 + index * CLOCK_RANGE_ENTRY_BYTES;
        let rate = u32_to_le(rates[index]);
        let resolution = u32_to_le(0);
        write_at(buf, offset, &rate);
        write_at(buf, offset + 4, &rate);
        write_at(buf, offset + 8, &resolution);
        proof {
            let next = rates@.take(index + 1);
            assert(next.drop_last() =~= rates@.take(index as int));
            assert(range_entries(next) == range_entries(rates@.take(index as int)) + range_entry(
                rates@[index as int],
            ));
            assert(buf@ =~= head + range_entries(next) + old(buf)@.skip(
                2 + (index + 1) * CLOCK_RANGE_ENTRY_BYTES,
            ));
        }
        index += 1;
    }
    assert(rates@.take(index as int) =~= rates@);
}

/// The frequency range takes 50 bytes: two, and twelve for each rate.
pub proof fn law_frequency_range_length()
    ensures
        frequency_range().len() == CLOCK_RANGE_BYTES,
{
    reveal_with_fuel(range_entries, 5);
}

/// What a host sets is what it reads back: after an accepted sample rate, a
/// reading of the sample rate with room for it answers the bytes that set it.
pub proof fn law_rate_reads_back(
    class: UsbAudioClass,
    state: AudioState,
    set: ControlRequest,
    data: Seq<u8>,
    get: ControlRequest,
    room: nat,
)
    requires
        class.accepts(state, set, data),
        get.is_class_request_to(class.ac_interface),
        get.is_clock_request(CLOCK_FREQUENCY_CONTROL_SELECTOR, UAC2_CUR),
        room >= CLOCK_FREQUENCY_BYTES,
    ensures
        ({
            let after = state.retuned(state.bits_per_sample, crate::bytes::le32_value(data));
            &&& class.in_reply(after, get, room) == Some(
                InResponse::Accepted(CLOCK_FREQUENCY_BYTES),
            )
            &&& clock_reading(after, get.selector(), get.request) == Some(data.take(4))
        }),
{
    crate::bytes::law_le32_value_round_trip(data.take(4));
    assert(crate::bytes::le32_value(data.take(4)) == crate::bytes::le32_value(data));
}

/// The clock is always valid: whatever the state, a reading of the validity of
/// the clock with room for it answers so.
pub proof fn law_clock_is_always_valid(
    class: UsbAudioClass,
    state: AudioState,
    get: ControlRequest,
    room: nat,
)
    requires
        get.is_class_request_to(class.ac_interface),
        get.is_clock_request(CLOCK_VALIDITY_CONTROL_SELECTOR, UAC2_CUR),
        room >= CLOCK_VALIDITY_BYTES,
    ensures
        class.in_reply(state, get, room) == Some(InResponse::Accepted(CLOCK_VALIDITY_BYTES)),
        clock_reading(state, get.selector(), get.request) == Some(seq![CLOCK_VALIDITY_TRUE]),
{
}

/// The entries of the range, one after the other.
proof fn lemma_range_is_four_entries()
    ensures
        range_entries(crate::audio::supported_rates()) == range_entry(44_100) + range_entry(48_000)
            + range_entry(88_200) + range_entry(96_000),
{
    reveal_with_fuel(range_entries, 5);
    let rates = crate::audio::supported_rates();
    assert(rates.drop_last() =~= rates.take(3));
    assert(rates.take(3).drop_last() =~= rates.take(2));
    assert(rates.take(2).drop_last() =~= rates.take(1));
    assert(rates.take(1).drop_last() =~= rates.take(0));
    assert(range_entries(rates) =~= range_entry(rates[0]) + range_entry(rates[1]) + range_entry(
        rates[2],
    ) + range_entry(rates[3]));
}

/// The entry at position `index` of the frequency range is that of the rate at
/// position `index`.
pub proof fn law_range_entry_at(index: int)
    requires
        0 <= index < crate::audio::supported_rates().len(),
    ensures
        frequency_range().subrange(
            2 + index * CLOCK_RANGE_ENTRY_BYTES,
            2 + (index + 1) * CLOCK_RANGE_ENTRY_BYTES,
        ) == range_entry(crate::audio::supported_rates()[index]),
{
    let rates = crate::audio::supported_rates();
    lemma_range_is_four_entries();
    assert(frequency_range().subrange(
        2 + index * CLOCK_RANGE_ENTRY_BYTES,
        2 + (index + 1) * CLOCK_RANGE_ENTRY_BYTES,
    ) =~= range_entry(rates[index]));
}

/// The frequency range lists exactly the rates that a host may set: a request
/// to set a rate is accepted if and only if the rate has an entry.
pub proof fn law_range_lists_accepted_rates(
    class: UsbAudioClass,
    state: AudioState,
    set: ControlRequest,
    rate: u32,
)
    requires
        state.wf(),
        set.is_class_request_to(class.ac_interface),
        set.is_clock_request(CLOCK_FREQUENCY_CONTROL_SELECTOR, UAC2_CUR),
    ensures
        class.accepts(state, set, crate::bytes::le32(rate)) <==> exists|index: int|
            0 <= index < crate::audio::supported_rates().len()
                && #[trigger] frequency_range().subrange(
                2 + index * CLOCK_RANGE_ENTRY_BYTES,
                2 + (index + 1) * CLOCK_RANGE_ENTRY_BYTES,
            ) == range_entry(rate),
{
    let rates = crate::audio::supported_rates();
    crate::bytes::law_le32_round_trip(rate);
    assert forall|index: int| 0 <= index < rates.len() implies (
    #[trigger] frequency_range().subrange(
        2 + index * CLOCK_RANGE_ENTRY_BYTES,
        2 + (index + 1) * CLOCK_RANGE_ENTRY_BYTES,
    ) == range_entry(rate)) == (rates[index] == rate) by {
        law_range_entry_at(index);
        crate::bytes::law_le32_round_trip(rates[index]);
        assert(range_entry(rate).take(4) =~= crate::bytes::le32(rate));
        assert(range_entry(rates[index]).take(4) =~= crate::bytes::le32(rates[index]));
    }
    if crate::audio::rate_supported(rate) {
        let index = choose|i: int| 0 <= i < rates.len() && rates[i] == rate;
        assert(frequency_range().subrange(
            2 + index * CLOCK_RANGE_ENTRY_BYTES,
            2 + (index + 1) * CLOCK_RANGE_ENTRY_BYTES,
        ) == range_entry(rate));
    }
}

/// No request ever selects a format that the device does not play. Selecting a
/// streaming alternate setting and a bus reset even mend one.
pub proof fn law_format_stays_supported(
    class: UsbAudioClass,
    state: AudioState,
    req: ControlRequest,
    data: Seq<u8>,
    alternate: u8,
)
    ensures
        class.accepts(state, req, data) ==> state.retuned(
            state.bits_per_sample,
            crate::bytes::le32_value(data),
        ).wf(),
        state.wf() || alternate_streams(alternate) ==> after_alternate(state, alternate).wf(),
        after_reset(state).wf(),
{
    assert(crate::audio::supported_rates()[1] == SAMPLE_RATE_HZ);
}

/// Whether the generation tells if the format changed between two states.
pub open spec fn generation_tells(before: AudioState, after: AudioState) -> bool {
    after.config_version == before.config_version <==> (after.sample_rate_hz
        == before.sample_rate_hz && after.bits_per_sample == before.bits_per_sample)
}

/// Whether two states hold the same feedback.
pub open spec fn same_feedback(before: AudioState, after: AudioState) -> bool {
    after.base_feedback_10_14 == before.base_feedback_10_14 && after.current_feedback_10_14
        == before.current_feedback_10_14
}

/// The generation moves on exactly when the format changes, and the feedback
/// stays, over an accepted sample rate, an alternate setting and a bus reset
/// alike.
pub proof fn law_version_moves_with_format(state: AudioState, rate: u32, alternate: u8)
    ensures
        generation_tells(state, state.retuned(state.bits_per_sample, rate)),
        generation_tells(state, after_alternate(state, alternate)),
        generation_tells(state, after_reset(state)),
        same_feedback(state, state.retuned(state.bits_per_sample, rate)),
        same_feedback(state, after_alternate(state, alternate)),
        same_feedback(state, after_reset(state)),
{
}

/// Stopping and restarting a stream keeps format and generation: an alternate
/// setting that does not stream changes the activity alone, and selecting the
/// streaming one of the width so far, after it, changes nothing else either.
pub proof fn law_pause_keeps_format(state: AudioState, idle: u8, alternate: u8)
    requires
        state.wf(),
        !alternate_streams(idle),
        alternate_streams(alternate),
        alternate_bits(alternate) == state.bits_per_sample,
    ensures
        after_alternate(state, idle) == (AudioState { stream_active: false, ..state }),
        after_alternate(after_alternate(state, idle), alternate) == (AudioState {
            stream_active: true,
            ..state
        }),
{
}

/// Switching the width keeps the rate: each supported rate goes with both.
pub proof fn law_width_switch_keeps_rate(state: AudioState, alternate: u8)
    requires
        state.wf(),
    ensures
        after_alternate(state, alternate).sample_rate_hz == state.sample_rate_hz,
{
}

/// A second bus reset in a row changes nothing.
pub proof fn law_reset_is_idempotent(state: AudioState)
    ensures
        after_reset(after_reset(state)) == after_reset(state),
{
}

/// Setting the rate, over the fields of the setup packet. Audio control may have
/// any number, 0 too. A class request to that interface is answered, and any
/// other is left. It is accepted exactly where it is number 1 to entity 0x10,
/// control 1, channel 0, with at least four bytes of which the first four spell
/// one of the four rates, and the selected width is 16 or 24 bits. Then the rate
/// is selected, one generation further where it is a new one, and nothing else
/// changes.
pub proof fn law_setup_packet_sets_the_rate(
    class: UsbAudioClass,
    state: AudioState,
    req: ControlRequest,
    data: Seq<u8>,
)
    ensures
        ({
            let rate: int = data[0] + 256 * data[1] + 65536 * data[2] + 16777216 * data[3];
            let ours = req.request_type == RequestType::Class && req.recipient
                == Recipient::Interface && req.index % 256 == class.ac_interface;
            let listed = rate == 44_100 || rate == 48_000 || rate == 88_200 || rate == 96_000;
            let sets = ours && req.index == 0x1000 + class.ac_interface && req.value == 0x0100
                && req.request == 1 && data.len() >= 4 && listed && (state.bits_per_sample == 16
                || state.bits_per_sample == 24);
            let reply = class.out_reply(state, req, data);
            let after = state.retuned(state.bits_per_sample, crate::bytes::le32_value(data));
            &&& reply is None <==> !ours
            &&& reply == Some(OutResponse::Accepted) <==> sets
            &&& reply == Some(OutResponse::Rejected) <==> ours && !sets
            &&& class.accepts(state, req, data) <==> sets
            &&& sets ==> {
                &&& after.sample_rate_hz == rate
                &&& after.bits_per_sample == state.bits_per_sample
                &&& after.stream_active == state.stream_active
                &&& after.base_feedback_10_14 == state.base_feedback_10_14
                &&& after.current_feedback_10_14 == state.current_feedback_10_14
                &&& rate == state.sample_rate_hz ==> after.config_version == state.config_version
                &&& rate != state.sample_rate_hz ==> after.config_version == (state.config_version
                    + 1) % 0x1_0000_0000
            }
        }),
{
    crate::bytes::law_first_byte_counts_ones(0, 0, data);
    let rate = crate::bytes::le32_value(data);
    crate::audio::law_formats_played(state, state.bits_per_sample, rate);
    crate::audio::law_selection_counts_changes(state, state.bits_per_sample, rate);
}

/// Reading the clock, over the fields of the setup packet. A class request to
/// entity 0x10 of the audio control interface, whichever number that has, is
/// refused where it names a channel. Else request 1 to control 1 reads the rate
/// in four bytes, request 2 to control 1 the range in fifty, and request 1 to
/// control 2 the validity in one, each refused where there is less room. All
/// others are left.
pub proof fn law_setup_packet_reads_the_clock(
    class: UsbAudioClass,
    state: AudioState,
    req: ControlRequest,
    room: nat,
)
    ensures
        ({
            let ours = req.request_type == RequestType::Class && req.recipient
                == Recipient::Interface && req.index == 0x1000 + class.ac_interface;
            let length: int = if req.value == 0x0100 && req.request == 1 {
                4
            } else if req.value == 0x0100 && req.request == 2 {
                50
            } else if req.value == 0x0200 && req.request == 1 {
                1
            } else {
                0
            };
            let reply = class.in_reply(state, req, room);
            &&& reply is None <==> !ours || req.value % 256 == 0 && length == 0
            &&& reply == Some(InResponse::Rejected) <==> ours && (req.value % 256 != 0 || room
                < length)
            &&& ours && 0 < length <= room ==> reply == Some(InResponse::Accepted(length as usize))
            &&& ours && 0 < length ==> clock_reading(state, req.selector(), req.request) is Some
                && clock_reading(state, req.selector(), req.request)->0.len() == length
        }),
{
    law_frequency_range_length();
    crate::bytes::law_first_byte_counts_ones(0, state.sample_rate_hz, seq![]);
}

/// What a reading of the clock says, byte by byte: the selected rate, least
/// significant byte first; all four rates, each as its own minimum and maximum
/// without a resolution; and that the clock is valid.
pub proof fn law_readings_byte_by_byte(state: AudioState, req: ControlRequest)
    ensures
        req.value == 0x0100 && req.request == 1 ==> {
            let reading = clock_reading(state, req.selector(), req.request)->0;
            &&& reading.len() == 4
            &&& reading[0] + 256 * reading[1] + 65536 * reading[2] + 16777216 * reading[3]
                == state.sample_rate_hz
        },
        req.value == 0x0100 && req.request == 2 ==> clock_reading(
            state,
            req.selector(),
            req.request,
        ) == Some(
            seq![
            4u8, 0u8,
            68u8, 172u8, 0u8, 0u8, 68u8, 172u8, 0u8, 0u8, 0u8, 0u8, 0u8, 0u8,
            128u8, 187u8, 0u8, 0u8, 128u8, 187u8, 0u8, 0u8, 0u8, 0u8, 0u8, 0u8,
            136u8, 88u8, 1u8, 0u8, 136u8, 88u8, 1u8, 0u8, 0u8, 0u8, 0u8, 0u8,
            0u8, 119u8, 1u8, 0u8, 0u8, 119u8, 1u8, 0u8, 0u8, 0u8, 0u8, 0u8,
            ],
        ),
        req.value == 0x0200 && req.request == 1 ==> clock_reading(
            state,
            req.selector(),
            req.request,
        ) == Some(seq![1u8]),
{
    crate::bytes::law_first_byte_counts_ones(0, state.sample_rate_hz, seq![]);
    lemma_range_is_four_entries();
    assert(frequency_range() =~= seq![
            4u8, 0u8,
            68u8, 172u8, 0u8, 0u8, 68u8, 172u8, 0u8, 0u8, 0u8, 0u8, 0u8, 0u8,
            128u8, 187u8, 0u8, 0u8, 128u8, 187u8, 0u8, 0u8, 0u8, 0u8, 0u8, 0u8,
            136u8, 88u8, 1u8, 0u8, 136u8, 88u8, 1u8, 0u8, 0u8, 0u8, 0u8, 0u8,
            0u8, 119u8, 1u8, 0u8, 0u8, 119u8, 1u8, 0u8, 0u8, 0u8, 0u8, 0u8,
    ]);
}

/// Where an alternate setting leads, whatever was selected before: 1 plays 16
/// bits, 2 plays 24 bits, any other stops and keeps the width. The rate stays
/// where it is one of the four, or where the stream stops, and is 48 kHz else.
/// One generation passes where width or rate is new, and the feedback stays.
pub proof fn law_alternate_setting_plays_its_width(state: AudioState, alternate: u8)
    ensures
        ({
            let rate = state.sample_rate_hz;
            let after = after_alternate(state, alternate);
            let listed = rate == 44_100 || rate == 48_000 || rate == 88_200 || rate == 96_000;
            let new = after.bits_per_sample != state.bits_per_sample || after.sample_rate_hz != rate;
            &&& after.stream_active <==> alternate == 1 || alternate == 2
            &&& alternate == 1 ==> after.bits_per_sample == 16
            &&& alternate == 2 ==> after.bits_per_sample == 24
            &&& !after.stream_active ==> after.bits_per_sample == state.bits_per_sample
            &&& listed || !after.stream_active ==> after.sample_rate_hz == rate
            &&& !listed && after.stream_active ==> after.sample_rate_hz == 48_000
            &&& !new ==> after.config_version == state.config_version
            &&& new ==> after.config_version == (state.config_version + 1) % 0x1_0000_0000
            &&& after.base_feedback_10_14 == state.base_feedback_10_14
            &&& after.current_feedback_10_14 == state.current_feedback_10_14
        }),
{
    crate::audio::law_formats_played(state, 16, state.sample_rate_hz);
    crate::audio::law_formats_played(state, 24, state.sample_rate_hz);
}

/// Only the last alternate setting counts: which ones came before it makes no
/// difference to what plays.
pub proof fn law_last_alternate_setting_counts(state: AudioState, earlier: u8, alternate: u8)
    requires
        state.wf(),
        alternate == 1 || alternate == 2,
    ensures
        ({
            let direct = after_alternate(state, alternate);
            let detour = after_alternate(after_alternate(state, earlier), alternate);
            &&& detour.stream_active == direct.stream_active
            &&& detour.bits_per_sample == direct.bits_per_sample
            &&& detour.sample_rate_hz == direct.sample_rate_hz
        }),
{
}

/// Where a bus reset leads, whatever was selected before: stopped, 16 bits,
/// 48 kHz, one generation further where either is new. The feedback stays.
pub proof fn law_reset_stops_at_the_default(state: AudioState)
    ensures
        ({
            let after = after_reset(state);
            let new = state.bits_per_sample != 16 || state.sample_rate_hz != 48_000;
            &&& !after.stream_active
            &&& after.bits_per_sample == 16
            &&& after.sample_rate_hz == 48_000
            &&& !new ==> after.config_version == state.config_version
            &&& new ==> after.config_version == (state.config_version + 1) % 0x1_0000_0000
            &&& after.base_feedback_10_14 == state.base_feedback_10_14
            &&& after.current_feedback_10_14 == state.current_feedback_10_14
        }),
{
}

} // verus!
