//! Descriptors of the audio function.
//!
//! The signal runs from a USB streaming input terminal through a feature unit
//! without controls to a speaker output terminal. Both terminals run on one
//! programmable clock source. The streaming interface has an idle alternate
//! setting 0, and one with a data and a feedback endpoint for each width.

use vstd::prelude::*;

use crate::audio::{
    bytes_per_sample, usb_packet_size, BITS_PER_SAMPLE_16, BITS_PER_SAMPLE_24, CHANNEL_COUNT,
    MAX_SAMPLE_RATE_HZ,
};
use crate::bytes::{u16_to_le, u32_to_le};

verus! {

/// Interface class: audio.
pub const USB_CLASS_AUDIO: u8 = 0x01;

/// Interface subclass: audio control.
pub const USB_SUBCLASS_AUDIO_CONTROL: u8 = 0x01;

/// Interface subclass: audio streaming.
pub const USB_SUBCLASS_AUDIO_STREAMING: u8 = 0x02;

/// Interface protocol: audio class 2.0.
pub const USB_PROTOCOL_IP_02_00: u8 = 0x20;

/// Descriptor type: class-specific interface.
pub const CS_INTERFACE: u8 = 0x24;

/// Descriptor type: class-specific endpoint.
pub const CS_ENDPOINT: u8 = 0x25;

/// Audio control subtype: header.
pub const AC_HEADER: u8 = 0x01;

/// Audio control subtype: input terminal.
pub const AC_INPUT_TERM: u8 = 0x02;

/// Audio control subtype: output terminal.
pub const AC_OUTPUT_TERM: u8 = 0x03;

/// Audio control subtype: feature unit.
pub const AC_FEATURE_UNIT: u8 = 0x06;

/// Audio control subtype: clock source.
pub const AC_CLOCK_SOURCE: u8 = 0x0A;

/// Audio streaming subtype: general.
pub const AS_GENERAL: u8 = 0x01;

/// Audio streaming subtype: format type.
pub const AS_FORMAT_TYPE: u8 = 0x02;

/// Class-specific endpoint subtype: general.
pub const EP_GENERAL: u8 = 0x01;

/// Entity of the clock source that both terminals run on.
pub const CLOCK_SOURCE_ID: u8 = 0x10;

/// Entity of the USB streaming input terminal.
pub const INPUT_TERM_ID: u8 = 0x11;

/// Entity of the feature unit between the terminals.
pub const FEATURE_UNIT_ID: u8 = 0x12;

/// Entity of the speaker output terminal.
pub const OUTPUT_TERM_ID: u8 = 0x13;

/// Function category: desktop speaker.
pub const FUNCTION_CATEGORY_DESKTOP_SPEAKER: u8 = 0x01;

/// Release of the audio class, as a binary-coded decimal: 2.00.
pub const AUDIO_CLASS_RELEASE: u16 = 0x0200;

/// Terminal type: USB streaming.
pub const TERM_USB_STREAMING: u16 = 0x0101;

/// Terminal type: speaker.
pub const TERM_SPEAKER: u16 = 0x0301;

/// Channel locations: front left and front right.
pub const CHANNEL_CONFIG_FL_FR: u32 = 0x0000_0003;

/// Formats of type I: PCM.
pub const PCM_FORMAT_I: u32 = 0x0000_0001;

/// Format type: I.
pub const FORMAT_TYPE_I: u8 = 0x01;

/// Clock attributes: internal, programmable.
pub const CLOCK_SOURCE_ATTRIBUTES_INTERNAL_PROGRAMMABLE: u8 = 0x03;

/// Clock controls: the frequency can be read and set, the validity read.
pub const CLOCK_SOURCE_CONTROLS_HOST_PROGRAMMABLE_FREQUENCY_RW_VALIDITY_RO: u8 = 0x07;

/// Terminal that the clock belongs to: none.
pub const CLOCK_SOURCE_ASSOCIATION_TERMINAL_ID: u8 = 0x00;

/// Refresh exponent of the feedback endpoint.
pub const FEEDBACK_REFRESH_PERIOD: u8 = 1;

/// Bytes of a feedback packet; the fourth is always zero.
pub const FEEDBACK_PACKET_SIZE: u16 = 4;

/// Interval of both endpoints (ms).
pub const ENDPOINT_INTERVAL_MS: u8 = 1;

/// Bytes of all class-specific audio control descriptors together.
pub const AC_TOTAL_LENGTH: u16 = 64;

/// Room for the longest class-specific descriptor.
pub const DESCRIPTOR_CAPACITY: usize = 16;

/// Class-specific descriptors of the audio control interface.
pub const CONTROL_ITEM_COUNT: usize = 5;

/// Steps that set up a streaming alternate setting.
pub const STREAMING_ITEM_COUNT: usize = 7;

/// Alternate settings of the streaming interface.
pub const ALTERNATE_COUNT: usize = 3;

/// Interfaces of the audio function.
pub const INTERFACE_COUNT: usize = 2;

/// Position of the audio control interface in the function.
pub const CONTROL_POSITION: usize = 0;

/// Position of the audio streaming interface in the function.
pub const STREAMING_POSITION: usize = 1;

/// Class, subclass and protocol of a function or an interface.
#[derive(Clone, Copy, Debug, PartialEq, Eq, Structural)]
pub struct ClassCode {
    pub class: u8,
    pub subclass: u8,
    pub protocol: u8,
}

/// How an endpoint transfers data.
#[derive(Clone, Copy, Debug, PartialEq, Eq, Structural)]
pub enum TransferType {
    Control,
    Isochronous,
    Bulk,
    Interrupt,
}

/// How an isochronous endpoint keeps in step with the bus.
#[derive(Clone, Copy, Debug, PartialEq, Eq, Structural)]
pub enum Synchronization {
    NoSynchronization,
    Asynchronous,
}

/// What an isochronous endpoint carries.
#[derive(Clone, Copy, Debug, PartialEq, Eq, Structural)]
pub enum Usage {
    Data,
    Feedback,
}

/// A class-specific descriptor: its type, and what follows length and type.
#[derive(Clone, Copy, Debug)]
pub struct ClassDescriptor {
    kind: u8,
    data: [u8; DESCRIPTOR_CAPACITY],
    length: usize,
}

impl ClassDescriptor {
    #[verifier::type_invariant]
    spec fn wf(self) -> bool {
        self.length <= DESCRIPTOR_CAPACITY
    }

    /// The descriptor type.
    pub closed spec fn descriptor_type(self) -> u8 {
        self.kind
    }

    /// The bytes after length and type.
    pub closed spec fn body(self) -> Seq<u8> {
        self.data@.take(self.length as int)
    }

    /// A descriptor of type `kind` with the body `bytes`.
    pub fn new(kind: u8, bytes: &[u8]) -> (descriptor: ClassDescriptor)
        requires
            bytes.len() <= DESCRIPTOR_CAPACITY,
        ensures
            descriptor.descriptor_type() == kind,
            descriptor.body() == bytes@,
    {
        let mut data: [u8; DESCRIPTOR_CAPACITY] = [0; DESCRIPTOR_CAPACITY];
        let mut index: usize = 0;
        while index < bytes.len()
            invariant
                index <= bytes@.len() <= DESCRIPTOR_CAPACITY,
                data@.take(index as int) == bytes@.take(index as int),
            decreases bytes.len() - index,
        {
            data[index] = bytes[index];
            index += 1;
            assert(data@.take(index as int) =~= bytes@.take(index as int));
        }
        assert(bytes@.take(index as int) =~= bytes@);
        ClassDescriptor { kind, data, length: bytes.len() }
    }

    /// The descriptor type.
    pub fn kind(&self) -> (kind: u8)
        ensures
            kind == self.descriptor_type(),
    {
        self.kind
    }

    /// The bytes after length and type.
    pub fn data(&self) -> (data: &[u8])
        ensures
            data@ == self.body(),
    {
        proof {
            use_type_invariant(self);
        }
        let data = &self.data[0..self.length];
        assert(data@ =~= self.body());
        data
    }
}

/// A step in setting up an alternate setting.
#[derive(Clone, Copy, Debug)]
pub enum SettingItem {
    /// Write a class-specific descriptor.
    Descriptor(ClassDescriptor),
    /// Allocate the OUT endpoint.
    StreamOut { transfer: TransferType, max_packet_size: u16, interval_ms: u8 },
    /// Allocate the IN endpoint.
    FeedbackIn { transfer: TransferType, max_packet_size: u16, interval_ms: u8 },
    /// Write the descriptor of the OUT endpoint.
    StreamEndpoint { synchronization: Synchronization, usage: Usage },
    /// Write the descriptor of the IN endpoint.
    FeedbackEndpoint { synchronization: Synchronization, usage: Usage },
}

/// What a step does, with the bytes of a descriptor spelt out.
pub ghost enum Step {
    Descriptor { kind: u8, body: Seq<u8> },
    StreamOut { transfer: TransferType, max_packet_size: int, interval_ms: u8 },
    FeedbackIn { transfer: TransferType, max_packet_size: int, interval_ms: u8 },
    StreamEndpoint { synchronization: Synchronization, usage: Usage },
    FeedbackEndpoint { synchronization: Synchronization, usage: Usage },
}

impl View for SettingItem {
    type V = Step;

    open spec fn view(&self) -> Step {
        match *self {
            SettingItem::Descriptor(descriptor) => Step::Descriptor {
                kind: descriptor.descriptor_type(),
                body: descriptor.body(),
            },
            SettingItem::StreamOut { transfer, max_packet_size, interval_ms } => Step::StreamOut {
                transfer,
                max_packet_size: max_packet_size as int,
                interval_ms,
            },
            SettingItem::FeedbackIn { transfer, max_packet_size, interval_ms } => Step::FeedbackIn {
                transfer,
                max_packet_size: max_packet_size as int,
                interval_ms,
            },
            SettingItem::StreamEndpoint { synchronization, usage } => Step::StreamEndpoint {
                synchronization,
                usage,
            },
            SettingItem::FeedbackEndpoint { synchronization, usage } => Step::FeedbackEndpoint {
                synchronization,
                usage,
            },
        }
    }
}

/// The transfer type of the endpoint that a step allocates, where it does.
pub open spec fn transfer_type(step: Step) -> Option<TransferType> {
    match step {
        Step::StreamOut { transfer, .. } => Some(transfer),
        Step::FeedbackIn { transfer, .. } => Some(transfer),
        _ => None,
    }
}

/// The bytes that end the endpoint descriptor that a step writes, where it does:
/// the refresh exponent, and the address of the endpoint that feedback comes
/// from. The OUT endpoint has no refresh, the IN endpoint no feedback of its own.
pub open spec fn endpoint_extra(step: Step, feedback_address: u8) -> Option<Seq<u8>> {
    match step {
        Step::StreamEndpoint { .. } => Some(seq![0u8, feedback_address]),
        Step::FeedbackEndpoint { .. } => Some(seq![FEEDBACK_REFRESH_PERIOD, 0u8]),
        _ => None,
    }
}

/// What the steps in `items` do, in order.
pub open spec fn steps(items: Seq<SettingItem>) -> Seq<Step> {
    items.map_values(|item: SettingItem| item@)
}

/// A class-specific interface descriptor.
pub open spec fn interface_step(body: Seq<u8>) -> Step {
    Step::Descriptor { kind: CS_INTERFACE, body }
}

/// The audio control header: release, category and the length of all.
pub open spec fn control_header() -> Seq<u8> {
    seq![AC_HEADER] + crate::bytes::le16(AUDIO_CLASS_RELEASE) + seq![
        FUNCTION_CATEGORY_DESKTOP_SPEAKER,
    ] + crate::bytes::le16(AC_TOTAL_LENGTH) + seq![0u8]
}

/// The clock source: attributes, controls, no terminal and no name.
pub open spec fn clock_source() -> Seq<u8> {
    seq![
        AC_CLOCK_SOURCE,
        CLOCK_SOURCE_ID,
        CLOCK_SOURCE_ATTRIBUTES_INTERNAL_PROGRAMMABLE,
        CLOCK_SOURCE_CONTROLS_HOST_PROGRAMMABLE_FREQUENCY_RW_VALIDITY_RO,
        CLOCK_SOURCE_ASSOCIATION_TERMINAL_ID,
        0u8,
    ]
}

/// The input terminal: USB streaming on the clock, front left and right.
pub open spec fn input_terminal() -> Seq<u8> {
    seq![AC_INPUT_TERM, INPUT_TERM_ID] + crate::bytes::le16(TERM_USB_STREAMING) + seq![
        0u8,
        CLOCK_SOURCE_ID,
        CHANNEL_COUNT as u8,
    ] + crate::bytes::le32(CHANNEL_CONFIG_FL_FR) + seq![0u8] + crate::bytes::le16(0) + seq![0u8]
}

/// The feature unit: fed by the input terminal, no controls on the master
/// channel and on either of the two others.
pub open spec fn feature_unit() -> Seq<u8> {
    seq![AC_FEATURE_UNIT, FEATURE_UNIT_ID, INPUT_TERM_ID] + crate::bytes::le32(0)
        + crate::bytes::le32(0) + crate::bytes::le32(0) + seq![0u8]
}

/// The output terminal: a speaker on the clock, fed by the feature unit.
pub open spec fn output_terminal() -> Seq<u8> {
    seq![AC_OUTPUT_TERM, OUTPUT_TERM_ID] + crate::bytes::le16(TERM_SPEAKER) + seq![
        0u8,
        FEATURE_UNIT_ID,
        CLOCK_SOURCE_ID,
    ] + crate::bytes::le16(0) + seq![0u8]
}

/// The streaming interface: linked to the input terminal, PCM, two channels.
pub open spec fn streaming_general() -> Seq<u8> {
    seq![AS_GENERAL, INPUT_TERM_ID, 0u8, FORMAT_TYPE_I] + crate::bytes::le32(PCM_FORMAT_I) + seq![
        CHANNEL_COUNT as u8,
    ] + crate::bytes::le32(CHANNEL_CONFIG_FL_FR) + seq![0u8]
}

/// The sample format: bytes per sample on USB, and bits that count.
pub open spec fn streaming_format(bits: u8) -> Seq<u8> {
    seq![AS_FORMAT_TYPE, FORMAT_TYPE_I, crate::audio::sample_bytes(bits) as u8, bits]
}

/// The data endpoint: no attributes, no controls, no lock delay.
pub open spec fn streaming_endpoint() -> Seq<u8> {
    seq![EP_GENERAL, 0u8, 0u8, 0u8] + crate::bytes::le16(0)
}

/// The steps that set up the audio control interface.
pub open spec fn control_steps() -> Seq<Step> {
    seq![
        interface_step(control_header()),
        interface_step(clock_source()),
        interface_step(input_terminal()),
        interface_step(feature_unit()),
        interface_step(output_terminal()),
    ]
}

/// The steps that set up a streaming alternate setting of a width.
pub open spec fn streaming_steps(bits: u8) -> Seq<Step> {
    seq![
        interface_step(streaming_general()),
        interface_step(streaming_format(bits)),
        Step::StreamOut {
            transfer: TransferType::Isochronous,
            max_packet_size: crate::audio::packet_bytes(bits, MAX_SAMPLE_RATE_HZ),
            interval_ms: ENDPOINT_INTERVAL_MS,
        },
        Step::FeedbackIn {
            transfer: TransferType::Isochronous,
            max_packet_size: FEEDBACK_PACKET_SIZE as int,
            interval_ms: ENDPOINT_INTERVAL_MS,
        },
        Step::StreamEndpoint {
            synchronization: Synchronization::Asynchronous,
            usage: Usage::Data,
        },
        Step::Descriptor { kind: CS_ENDPOINT, body: streaming_endpoint() },
        Step::FeedbackEndpoint {
            synchronization: Synchronization::NoSynchronization,
            usage: Usage::Feedback,
        },
    ]
}

/// Class code of the audio function.
pub open spec fn function_code() -> ClassCode {
    ClassCode { class: USB_CLASS_AUDIO, subclass: 0x00, protocol: USB_PROTOCOL_IP_02_00 }
}

/// Class code of the audio control interface.
pub open spec fn control_code() -> ClassCode {
    ClassCode {
        class: USB_CLASS_AUDIO,
        subclass: USB_SUBCLASS_AUDIO_CONTROL,
        protocol: USB_PROTOCOL_IP_02_00,
    }
}

/// Class code of each alternate setting of the streaming interface.
pub open spec fn streaming_code() -> ClassCode {
    ClassCode {
        class: USB_CLASS_AUDIO,
        subclass: USB_SUBCLASS_AUDIO_STREAMING,
        protocol: USB_PROTOCOL_IP_02_00,
    }
}

/// Class code of the audio function.
pub fn function_class() -> (code: ClassCode)
    ensures
        code == function_code(),
{
    ClassCode { class: USB_CLASS_AUDIO, subclass: 0x00, protocol: USB_PROTOCOL_IP_02_00 }
}

/// Class code of the audio control interface.
pub fn control_class() -> (code: ClassCode)
    ensures
        code == control_code(),
{
    ClassCode {
        class: USB_CLASS_AUDIO,
        subclass: USB_SUBCLASS_AUDIO_CONTROL,
        protocol: USB_PROTOCOL_IP_02_00,
    }
}

/// Class code of each alternate setting of the streaming interface.
pub fn streaming_class() -> (code: ClassCode)
    ensures
        code == streaming_code(),
{
    ClassCode {
        class: USB_CLASS_AUDIO,
        subclass: USB_SUBCLASS_AUDIO_STREAMING,
        protocol: USB_PROTOCOL_IP_02_00,
    }
}

/// A step that writes a class-specific interface descriptor.
fn interface_item(bytes: &[u8]) -> (item: SettingItem)
    requires
        bytes.len() <= DESCRIPTOR_CAPACITY,
    ensures
        item@ == interface_step(bytes@),
{
    SettingItem::Descriptor(ClassDescriptor::new(CS_INTERFACE, bytes))
}

/// The header, the clock source, both terminals and the unit between them.
pub fn control_items() -> (items: [SettingItem; CONTROL_ITEM_COUNT])
    ensures
        steps(items@) == control_steps(),
{
    let release = u16_to_le(AUDIO_CLASS_RELEASE);
    let total = u16_to_le(AC_TOTAL_LENGTH);
    let header: [u8; 7] = [
        AC_HEADER,
        release[0],
        release[1],
        FUNCTION_CATEGORY_DESKTOP_SPEAKER,
        total[0],
        total[1],
        0x00,
    ];
    assert(header@ =~= control_header());

    let clock: [u8; 6] = [
        AC_CLOCK_SOURCE,
        CLOCK_SOURCE_ID,
        CLOCK_SOURCE_ATTRIBUTES_INTERNAL_PROGRAMMABLE,
        CLOCK_SOURCE_CONTROLS_HOST_PROGRAMMABLE_FREQUENCY_RW_VALIDITY_RO,
        CLOCK_SOURCE_ASSOCIATION_TERMINAL_ID,
        0x00,
    ];
    assert(clock@ =~= clock_source());

    let source_type = u16_to_le(TERM_USB_STREAMING);
    let channels = u32_to_le(CHANNEL_CONFIG_FL_FR);
    let input: [u8; 15] = [
        AC_INPUT_TERM,
        INPUT_TERM_ID,
        source_type[0],
        source_type[1],
        0x00,
        CLOCK_SOURCE_ID,
        CHANNEL_COUNT as u8,
        channels[0],
        channels[1],
        channels[2],
        channels[3],
        0x00,
        0x00,
        0x00,
        0x00,
    ];
    assert(input@ =~= input_terminal());

    let feature: [u8; 16] = [
        AC_FEATURE_UNIT,
        FEATURE_UNIT_ID,
        INPUT_TERM_ID,
        0x00,
        0x00,
        0x00,
        0x00,
        0x00,
        0x00,
        0x00,
        0x00,
        0x00,
        0x00,
        0x00,
        0x00,
        0x00,
    ];
    assert(feature@ =~= feature_unit());

    let sink_type = u16_to_le(TERM_SPEAKER);
    let output: [u8; 10] = [
        AC_OUTPUT_TERM,
        OUTPUT_TERM_ID,
        sink_type[0],
        sink_type[1],
        0x00,
        FEATURE_UNIT_ID,
        CLOCK_SOURCE_ID,
        0x00,
        0x00,
        0x00,
    ];
    assert(output@ =~= output_terminal());

    let items = [
        interface_item(&header),
        interface_item(&clock),
        interface_item(&input),
        interface_item(&feature),
        interface_item(&output),
    ];
    assert(steps(items@) =~= control_steps());
    items
}

/// The steps that set up a streaming alternate setting of a width.
pub fn streaming_items(bits_per_sample: u8) -> (items: [SettingItem; STREAMING_ITEM_COUNT])
    ensures
        steps(items@) == streaming_steps(bits_per_sample),
{
    let formats = u32_to_le(PCM_FORMAT_I);
    let channels = u32_to_le(CHANNEL_CONFIG_FL_FR);
    let general: [u8; 14] = [
        AS_GENERAL,
        INPUT_TERM_ID,
        0x00,
        FORMAT_TYPE_I,
        formats[0],
        formats[1],
        formats[2],
        formats[3],
        CHANNEL_COUNT as u8,
        channels[0],
        channels[1],
        channels[2],
        channels[3],
        0x00,
    ];
    assert(general@ =~= streaming_general());

    let format: [u8; 4] = [
        AS_FORMAT_TYPE,
        FORMAT_TYPE_I,
        bytes_per_sample(bits_per_sample) as u8,
        bits_per_sample,
    ];
    assert(format@ =~= streaming_format(bits_per_sample));

    let endpoint: [u8; 6] = [EP_GENERAL, 0x00, 0x00, 0x00, 0x00, 0x00];
    assert(endpoint@ =~= streaming_endpoint());

    let packet_size: usize = usb_packet_size(bits_per_sample, MAX_SAMPLE_RATE_HZ);
    assert(crate::audio::packet_frames(MAX_SAMPLE_RATE_HZ) == 96);
    assert(packet_size == 192 * crate::audio::sample_bytes(bits_per_sample));

    let items = [
        interface_item(&general),
        interface_item(&format),
        SettingItem::StreamOut {
            transfer: TransferType::Isochronous,
            max_packet_size: packet_size as u16,
            interval_ms: ENDPOINT_INTERVAL_MS,
        },
        SettingItem::FeedbackIn {
            transfer: TransferType::Isochronous,
            max_packet_size: FEEDBACK_PACKET_SIZE,
            interval_ms: ENDPOINT_INTERVAL_MS,
        },
        SettingItem::StreamEndpoint {
            synchronization: Synchronization::Asynchronous,
            usage: Usage::Data,
        },
        SettingItem::Descriptor(ClassDescriptor::new(CS_ENDPOINT, &endpoint)),
        SettingItem::FeedbackEndpoint {
            synchronization: Synchronization::NoSynchronization,
            usage: Usage::Feedback,
        },
    ];
    assert(steps(items@) =~= streaming_steps(bits_per_sample));
    items
}

/// The last two bytes of the OUT endpoint's descriptor: no refresh, and the
/// endpoint that its feedback comes from.
pub fn stream_endpoint_extra(feedback_address: u8) -> (extra: [u8; 2])
    ensures
        forall|step: Step|
            step is StreamEndpoint ==> #[trigger] endpoint_extra(step, feedback_address) == Some(
                extra@,
            ),
        extra@ == seq![0u8, feedback_address],
{
    let extra: [u8; 2] = [0x00, feedback_address];
    assert(extra@ =~= seq![0u8, feedback_address]);
    extra
}

/// The last two bytes of the IN endpoint's descriptor: its refresh exponent,
/// and no feedback of its own.
pub fn feedback_endpoint_extra() -> (extra: [u8; 2])
    ensures
        forall|step: Step, feedback_address: u8|
            step is FeedbackEndpoint ==> #[trigger] endpoint_extra(step, feedback_address) == Some(
                extra@,
            ),
        extra@ == seq![FEEDBACK_REFRESH_PERIOD, 0u8],
{
    let extra: [u8; 2] = [FEEDBACK_REFRESH_PERIOD, 0x00];
    assert(extra@ =~= seq![FEEDBACK_REFRESH_PERIOD, 0u8]);
    extra
}

/// The alternate settings of the streaming interface, in order: the width of
/// those that stream.
pub fn alternate_widths() -> (widths: [Option<u8>; ALTERNATE_COUNT])
    ensures
        widths@ == alternates(),
{
    [None, Some(BITS_PER_SAMPLE_16), Some(BITS_PER_SAMPLE_24)]
}

/// Setting 0 is idle, 1 carries 16 bits, 2 carries 24.
pub open spec fn alternates() -> Seq<Option<u8>> {
    seq![None, Some(BITS_PER_SAMPLE_16), Some(BITS_PER_SAMPLE_24)]
}

/// An alternate setting: the width that it streams, where it does, and the steps
/// that set it up.
pub ghost struct Setting {
    pub width: Option<u8>,
    pub steps: Seq<Step>,
}

/// An interface: the class code of each of its alternate settings, and the
/// settings from 0 on.
pub ghost struct Interface {
    pub class: ClassCode,
    pub settings: Seq<Setting>,
}

/// The streaming alternate setting of a width: without one it is idle, with
/// neither descriptors nor endpoints.
pub open spec fn streaming_setting(width: Option<u8>) -> Setting {
    Setting {
        width,
        steps: match width {
            None => seq![],
            Some(bits) => streaming_steps(bits),
        },
    }
}

/// The audio control interface: one setting.
pub open spec fn control_interface() -> Interface {
    Interface {
        class: control_code(),
        settings: seq![Setting { width: None, steps: control_steps() }],
    }
}

/// The streaming interface: one setting for each of the alternates.
pub open spec fn streaming_interface() -> Interface {
    Interface {
        class: streaming_code(),
        settings: alternates().map_values(|width: Option<u8>| streaming_setting(width)),
    }
}

/// The interfaces of the audio function, in order: audio control, then
/// streaming, and no other.
pub open spec fn function_layout() -> Seq<Interface> {
    seq![control_interface(), streaming_interface()]
}

/// How to set up an alternate setting.
#[derive(Debug)]
pub enum SettingPlan {
    /// The setting of the audio control interface.
    Control { items: [SettingItem; CONTROL_ITEM_COUNT] },
    /// A streaming setting that takes no bandwidth.
    Idle,
    /// A streaming setting of a width.
    Streaming { bits_per_sample: u8, items: [SettingItem; STREAMING_ITEM_COUNT] },
}

impl View for SettingPlan {
    type V = Setting;

    open spec fn view(&self) -> Setting {
        match *self {
            SettingPlan::Control { items } => Setting { width: None, steps: steps(items@) },
            SettingPlan::Idle => Setting { width: None, steps: seq![] },
            SettingPlan::Streaming { bits_per_sample, items } => Setting {
                width: Some(bits_per_sample),
                steps: steps(items@),
            },
        }
    }
}

impl SettingPlan {
    /// The width that the setting streams, where it does.
    pub fn width(&self) -> (width: Option<u8>)
        ensures
            width == self@.width,
    {
        match self {
            SettingPlan::Streaming { bits_per_sample, .. } => Some(*bits_per_sample),
            _ => None,
        }
    }

    /// The steps that set the setting up, in order.
    pub fn items(&self) -> (items: &[SettingItem])
        ensures
            steps(items@) == self@.steps,
    {
        match self {
            SettingPlan::Control { items } => items,
            SettingPlan::Idle => {
                let items: &[SettingItem] = &[];
                assert(steps(items@) =~= seq![]);
                items
            },
            SettingPlan::Streaming { items, .. } => items,
        }
    }
}

/// What the plans in `settings` stand for, in order.
pub open spec fn planned_settings(settings: Seq<SettingPlan>) -> Seq<Setting> {
    settings.map_values(|setting: SettingPlan| setting@)
}

/// How to set up an interface.
#[derive(Debug)]
pub struct InterfacePlan {
    class: ClassCode,
    settings: [SettingPlan; ALTERNATE_COUNT],
    count: usize,
}

impl View for InterfacePlan {
    type V = Interface;

    closed spec fn view(&self) -> Interface {
        Interface {
            class: self.class,
            settings: planned_settings(self.settings@.take(self.count as int)),
        }
    }
}

impl InterfacePlan {
    #[verifier::type_invariant]
    spec fn wf(self) -> bool {
        self.count <= ALTERNATE_COUNT
    }

    /// Class code of each alternate setting.
    pub fn class(&self) -> (code: ClassCode)
        ensures
            code == self@.class,
    {
        self.class
    }

    /// The alternate settings, from 0 on.
    pub fn settings(&self) -> (settings: &[SettingPlan])
        ensures
            planned_settings(settings@) == self@.settings,
    {
        proof {
            use_type_invariant(self);
        }
        let settings = &self.settings[0..self.count];
        assert(settings@ =~= self.settings@.take(self.count as int));
        settings
    }
}

/// What the plans in `interfaces` stand for, in order.
pub open spec fn planned_interfaces(interfaces: Seq<InterfacePlan>) -> Seq<Interface> {
    interfaces.map_values(|interface: InterfacePlan| interface@)
}

/// How to set up a streaming alternate setting.
fn streaming_plan(width: Option<u8>) -> (plan: SettingPlan)
    ensures
        plan@ == streaming_setting(width),
{
    match width {
        None => SettingPlan::Idle,
        Some(bits_per_sample) => SettingPlan::Streaming {
            bits_per_sample,
            items: streaming_items(bits_per_sample),
        },
    }
}

/// How to set up the audio function, interface by interface.
pub fn function_plan() -> (plan: [InterfacePlan; INTERFACE_COUNT])
    ensures
        planned_interfaces(plan@) == function_layout(),
{
    let control = InterfacePlan {
        class: control_class(),
        settings: [
            SettingPlan::Control { items: control_items() },
            SettingPlan::Idle,
            SettingPlan::Idle,
        ],
        count: 1,
    };
    assert(control@.settings =~= control_interface().settings);

    let widths = alternate_widths();
    let streaming = InterfacePlan {
        class: streaming_class(),
        settings: [
            streaming_plan(widths[0]),
            streaming_plan(widths[1]),
            streaming_plan(widths[2]),
        ],
        count: ALTERNATE_COUNT,
    };
    assert(streaming@.settings =~= streaming_interface().settings);

    let plan = [control, streaming];
    assert(planned_interfaces(plan@) =~= function_layout());
    plan
}

/// Bytes that descriptors take on the wire: each has a length byte and a type
/// byte before its body.
pub open spec fn wire_length(written: Seq<Step>) -> int
    decreases written.len(),
{
    if written.len() == 0 {
        0
    } else {
        wire_length(written.drop_last()) + match written.last() {
            Step::Descriptor { kind, body } => 2 + body.len(),
            _ => 0,
        }
    }
}

/// The total length that the audio control header states is that of all the
/// class-specific descriptors of its interface.
pub proof fn law_total_length_is_that_of_all()
    ensures
        wire_length(control_steps()) == AC_TOTAL_LENGTH,
        control_steps()[0] == interface_step(control_header()),
        control_header().subrange(4, 6) == crate::bytes::le16(AC_TOTAL_LENGTH),
{
    reveal_with_fuel(wire_length, 6);
    assert(control_header().subrange(4, 6) =~= crate::bytes::le16(AC_TOTAL_LENGTH));
}

/// The entities have numbers of their own and form one path: the streaming
/// interface feeds the input terminal, that the feature unit, that the output
/// terminal, and both terminals run on the clock source.
pub proof fn law_entities_form_one_path()
    ensures
        ({
            let clock = clock_source()[1];
            let input = input_terminal()[1];
            let unit = feature_unit()[1];
            let output = output_terminal()[1];
            &&& seq![clock, input, unit, output].no_duplicates()
            &&& streaming_general()[1] == input
            &&& feature_unit()[2] == input
            &&& output_terminal()[5] == unit
            &&& input_terminal()[5] == clock
            &&& output_terminal()[6] == clock
        }),
{
}

/// The OUT endpoint of a width takes a packet of every supported rate, within
/// the 1023 bytes of a full-speed isochronous transfer.
pub proof fn law_stream_endpoint_holds_every_packet(bits: u8, rate: u32)
    requires
        crate::audio::format_supported(bits, rate),
    ensures
        streaming_steps(bits)[2] matches Step::StreamOut { max_packet_size, .. }
            && crate::audio::packet_bytes(bits, rate) <= max_packet_size <= 1023,
{
    crate::audio::law_supported_packets_fit(bits, rate);
    crate::audio::law_buffer_sizes();
}

/// The function is two interfaces: audio control with its one setting first,
/// streaming with an idle setting, 16 bits and 24 bits second.
pub proof fn law_function_is_control_then_streaming()
    ensures
        function_layout().len() == INTERFACE_COUNT,
        function_layout()[CONTROL_POSITION as int].class == control_code(),
        function_layout()[CONTROL_POSITION as int].settings == seq![
            Setting { width: None, steps: control_steps() },
        ],
        function_layout()[STREAMING_POSITION as int].class == streaming_code(),
        function_layout()[STREAMING_POSITION as int].settings == seq![
            Setting { width: None, steps: seq![] },
            Setting { width: Some(BITS_PER_SAMPLE_16), steps: streaming_steps(BITS_PER_SAMPLE_16) },
            Setting { width: Some(BITS_PER_SAMPLE_24), steps: streaming_steps(BITS_PER_SAMPLE_24) },
        ],
{
    assert(function_layout()[STREAMING_POSITION as int].settings =~= seq![
        Setting { width: None, steps: seq![] },
        Setting { width: Some(BITS_PER_SAMPLE_16), steps: streaming_steps(BITS_PER_SAMPLE_16) },
        Setting { width: Some(BITS_PER_SAMPLE_24), steps: streaming_steps(BITS_PER_SAMPLE_24) },
    ]);
}

/// Where endpoints are: a setting that streams allocates one OUT and one IN
/// endpoint, both isochronous, and no other setting of the function allocates
/// any.
pub proof fn law_endpoints_are_isochronous_pairs(interface: int, setting: int, step: int)
    requires
        0 <= interface < function_layout().len(),
        0 <= setting < function_layout()[interface].settings.len(),
        0 <= step < function_layout()[interface].settings[setting].steps.len(),
    ensures
        ({
            let chosen = function_layout()[interface].settings[setting];
            let streams = chosen.width is Some;
            &&& chosen.steps[step] is StreamOut <==> streams && step == 2
            &&& chosen.steps[step] is FeedbackIn <==> streams && step == 3
            &&& transfer_type(chosen.steps[step]) == if streams && (step == 2 || step == 3) {
                Some(TransferType::Isochronous)
            } else {
                None
            }
        }),
{
    law_function_is_control_then_streaming();
}

/// A setting that streams describes both its endpoints, after it has allocated
/// them: first the OUT endpoint, which ends in the address of the IN endpoint,
/// then the IN endpoint. No other step of the function describes an endpoint.
pub proof fn law_stream_endpoint_names_its_feedback(
    interface: int,
    setting: int,
    step: int,
    feedback_address: u8,
)
    requires
        0 <= interface < function_layout().len(),
        0 <= setting < function_layout()[interface].settings.len(),
        0 <= step < function_layout()[interface].settings[setting].steps.len(),
    ensures
        ({
            let chosen = function_layout()[interface].settings[setting];
            let streams = chosen.width is Some;
            endpoint_extra(chosen.steps[step], feedback_address) == if streams && step == 4 {
                Some(seq![0u8, feedback_address])
            } else if streams && step == 6 {
                Some(seq![FEEDBACK_REFRESH_PERIOD, 0u8])
            } else {
                None
            }
        }),
{
    law_function_is_control_then_streaming();
}

/// The setting that a host finds at a position is the one that selecting it
/// plays: the same positions stream, at the same widths.
pub proof fn law_alternates_play_as_enumerated(alternate: u8)
    ensures
        crate::control::alternate_streams(alternate) <==> (alternate < alternates().len()
            && alternates()[alternate as int] is Some),
        crate::control::alternate_streams(alternate) ==> alternates()[alternate as int] == Some(
            crate::control::alternate_bits(alternate),
        ),
{
}

/// The class codes of the function and of its interfaces.
pub proof fn law_class_codes()
    ensures
        function_code() == (ClassCode { class: 0x01, subclass: 0x00, protocol: 0x20 }),
        control_code() == (ClassCode { class: 0x01, subclass: 0x01, protocol: 0x20 }),
        streaming_code() == (ClassCode { class: 0x01, subclass: 0x02, protocol: 0x20 }),
{
}

/// The audio control descriptors, byte by byte, each of type 0x24: header, clock
/// source 0x10, input terminal 0x11, feature unit 0x12, output terminal 0x13.
pub proof fn law_control_descriptors_byte_by_byte()
    ensures
        control_steps() == seq![
            Step::Descriptor {
                kind: 0x24,
                body: seq![0x01u8, 0x00u8, 0x02u8, 0x01u8, 64u8, 0u8, 0u8],
            },
            Step::Descriptor {
                kind: 0x24,
                body: seq![0x0Au8, 0x10u8, 0x03u8, 0x07u8, 0u8, 0u8],
            },
            Step::Descriptor {
                kind: 0x24,
                body: seq![
                    0x02u8, 0x11u8, 0x01u8, 0x01u8, 0u8, 0x10u8, 2u8, 3u8, 0u8, 0u8, 0u8, 0u8, 0u8,
                    0u8, 0u8,
                ],
            },
            Step::Descriptor {
                kind: 0x24,
                body: seq![
                    0x06u8, 0x12u8, 0x11u8, 0u8, 0u8, 0u8, 0u8, 0u8, 0u8, 0u8, 0u8, 0u8, 0u8, 0u8,
                    0u8, 0u8,
                ],
            },
            Step::Descriptor {
                kind: 0x24,
                body: seq![0x03u8, 0x13u8, 0x01u8, 0x03u8, 0u8, 0x12u8, 0x10u8, 0u8, 0u8, 0u8],
            },
        ],
{
    assert(control_header() =~= seq![0x01u8, 0x00u8, 0x02u8, 0x01u8, 64u8, 0u8, 0u8]);
    assert(clock_source() =~= seq![0x0Au8, 0x10u8, 0x03u8, 0x07u8, 0u8, 0u8]);
    assert(input_terminal() =~= seq![
        0x02u8, 0x11u8, 0x01u8, 0x01u8, 0u8, 0x10u8, 2u8, 3u8, 0u8, 0u8, 0u8, 0u8, 0u8, 0u8, 0u8,
    ]);
    assert(feature_unit() =~= seq![
        0x06u8, 0x12u8, 0x11u8, 0u8, 0u8, 0u8, 0u8, 0u8, 0u8, 0u8, 0u8, 0u8, 0u8, 0u8, 0u8, 0u8,
    ]);
    assert(output_terminal() =~= seq![
        0x03u8, 0x13u8, 0x01u8, 0x03u8, 0u8, 0x12u8, 0x10u8, 0u8, 0u8, 0u8,
    ]);
}

/// A streaming setting, step by step and byte by byte. A sample takes the fewest
/// bytes that hold its bits, and the OUT endpoint 1 ms at 96 kHz: 96 frames of
/// two samples.
pub proof fn law_streaming_setting_byte_by_byte(bits: u8)
    ensures
        ({
            let size = crate::audio::sample_bytes(bits);
            &&& 8 * (size - 1) < bits <= 8 * size
            &&& streaming_steps(bits) == seq![
                Step::Descriptor {
                    kind: 0x24,
                    body: seq![
                        0x01u8, 0x11u8, 0u8, 0x01u8, 1u8, 0u8, 0u8, 0u8, 2u8, 3u8, 0u8, 0u8, 0u8, 0u8,
                    ],
                },
                Step::Descriptor { kind: 0x24, body: seq![0x02u8, 0x01u8, size as u8, bits] },
                Step::StreamOut {
                    transfer: TransferType::Isochronous,
                    max_packet_size: 96 * 2 * size,
                    interval_ms: 1,
                },
                Step::FeedbackIn {
                    transfer: TransferType::Isochronous,
                    max_packet_size: 4,
                    interval_ms: 1,
                },
                Step::StreamEndpoint {
                    synchronization: Synchronization::Asynchronous,
                    usage: Usage::Data,
                },
                Step::Descriptor { kind: 0x25, body: seq![0x01u8, 0u8, 0u8, 0u8, 0u8, 0u8] },
                Step::FeedbackEndpoint {
                    synchronization: Synchronization::NoSynchronization,
                    usage: Usage::Feedback,
                },
            ]
        }),
{
    assert(streaming_general() =~= seq![
        0x01u8, 0x11u8, 0u8, 0x01u8, 1u8, 0u8, 0u8, 0u8, 2u8, 3u8, 0u8, 0u8, 0u8, 0u8,
    ]);
    assert(streaming_endpoint() =~= seq![0x01u8, 0u8, 0u8, 0u8, 0u8, 0u8]);
    assert(crate::audio::packet_frames(96_000) == 96);
}

/// A step shows what the item says, field by field.
pub proof fn law_steps_show_their_items(items: Seq<SettingItem>, i: int)
    requires
        0 <= i < items.len(),
    ensures
        steps(items).len() == items.len(),
        items[i] matches SettingItem::Descriptor(descriptor) ==> steps(items)[i] == (
        Step::Descriptor { kind: descriptor.descriptor_type(), body: descriptor.body() }),
        items[i] matches SettingItem::StreamOut { transfer, max_packet_size, interval_ms }
            ==> steps(items)[i] == (Step::StreamOut {
            transfer,
            max_packet_size: max_packet_size as int,
            interval_ms,
        }),
        items[i] matches SettingItem::FeedbackIn { transfer, max_packet_size, interval_ms }
            ==> steps(items)[i] == (Step::FeedbackIn {
            transfer,
            max_packet_size: max_packet_size as int,
            interval_ms,
        }),
        items[i] matches SettingItem::StreamEndpoint { synchronization, usage } ==> steps(items)[i]
            == (Step::StreamEndpoint { synchronization, usage }),
        items[i] matches SettingItem::FeedbackEndpoint { synchronization, usage } ==> steps(
            items,
        )[i] == (Step::FeedbackEndpoint { synchronization, usage }),
{
}

/// A plan shows every interface and every setting that it holds, in order, and
/// no other: the function has an audio control interface with five steps, and a
/// streaming interface with an idle setting and one of seven steps for 16 and
/// for 24 bits each.
pub proof fn law_plans_show_what_they_hold(
    interfaces: Seq<InterfacePlan>,
    settings: Seq<SettingPlan>,
    i: int,
)
    ensures
        planned_interfaces(interfaces).len() == interfaces.len(),
        0 <= i < interfaces.len() ==> planned_interfaces(interfaces)[i] == interfaces[i]@,
        planned_settings(settings).len() == settings.len(),
        0 <= i < settings.len() ==> planned_settings(settings)[i] == settings[i]@,
        alternates() == seq![None, Some(16u8), Some(24u8)],
        function_layout().len() == 2,
        function_layout()[0].class.subclass == 0x01,
        function_layout()[0].settings.len() == 1,
        function_layout()[0].settings[0].width is None,
        function_layout()[0].settings[0].steps == control_steps(),
        function_layout()[1].class.subclass == 0x02,
        function_layout()[1].settings.len() == 3,
        function_layout()[1].settings[0].width is None,
        function_layout()[1].settings[0].steps.len() == 0,
        function_layout()[1].settings[1].width == Some(16u8),
        function_layout()[1].settings[1].steps == streaming_steps(16),
        function_layout()[1].settings[2].width == Some(24u8),
        function_layout()[1].settings[2].steps == streaming_steps(24),
{
    law_function_is_control_then_streaming();
}

} // verus!
