//! The audio function as a host finds it: the descriptors that the USB stack
//! writes from the library's steps.

use embassy_usb::descriptor::{SynchronizationType, UsageType};
use embassy_usb::driver::{
    Bus, ControlPipe, Direction, Driver, Endpoint, EndpointAddress, EndpointAllocError,
    EndpointError, EndpointIn, EndpointInfo, EndpointOut, EndpointType, Event, Unsupported,
};
use embassy_usb::{Builder, Config, InterfaceAltBuilder};
use usb_audio_dac::control::UsbAudioClass;
use usb_audio_dac::descriptors::{
    feedback_endpoint_extra, function_class, function_plan, stream_endpoint_extra, SettingItem,
    Synchronization, TransferType, Usage,
};

struct IdleDriver {
    endpoints: usize,
}

struct IdleEndpoint {
    info: EndpointInfo,
}

struct IdleBus;

struct IdlePipe;

impl IdleDriver {
    fn endpoint(
        &mut self,
        direction: Direction,
        ep_type: EndpointType,
        max_packet_size: u16,
        interval_ms: u8,
    ) -> IdleEndpoint {
        self.endpoints += 1;
        let addr = EndpointAddress::from_parts(self.endpoints, direction);
        IdleEndpoint { info: EndpointInfo { addr, ep_type, max_packet_size, interval_ms } }
    }
}

impl<'a> Driver<'a> for IdleDriver {
    type EndpointOut = IdleEndpoint;
    type EndpointIn = IdleEndpoint;
    type ControlPipe = IdlePipe;
    type Bus = IdleBus;

    fn alloc_endpoint_out(
        &mut self,
        ep_type: EndpointType,
        _ep_addr: Option<EndpointAddress>,
        max_packet_size: u16,
        interval_ms: u8,
    ) -> Result<IdleEndpoint, EndpointAllocError> {
        Ok(self.endpoint(Direction::Out, ep_type, max_packet_size, interval_ms))
    }

    fn alloc_endpoint_in(
        &mut self,
        ep_type: EndpointType,
        _ep_addr: Option<EndpointAddress>,
        max_packet_size: u16,
        interval_ms: u8,
    ) -> Result<IdleEndpoint, EndpointAllocError> {
        Ok(self.endpoint(Direction::In, ep_type, max_packet_size, interval_ms))
    }

    fn start(self, _control_max_packet_size: u16) -> (IdleBus, IdlePipe) {
        (IdleBus, IdlePipe)
    }
}

impl Endpoint for IdleEndpoint {
    fn info(&self) -> &EndpointInfo {
        &self.info
    }

    async fn wait_enabled(&mut self) {}
}

impl EndpointOut for IdleEndpoint {
    async fn read(&mut self, _buf: &mut [u8]) -> Result<usize, EndpointError> {
        Err(EndpointError::Disabled)
    }
}

impl EndpointIn for IdleEndpoint {
    async fn write(&mut self, _buf: &[u8]) -> Result<(), EndpointError> {
        Err(EndpointError::Disabled)
    }
}

impl Bus for IdleBus {
    async fn enable(&mut self) {}

    async fn disable(&mut self) {}

    async fn poll(&mut self) -> Event {
        Event::PowerRemoved
    }

    fn endpoint_set_enabled(&mut self, _ep_addr: EndpointAddress, _enabled: bool) {}

    fn endpoint_set_stalled(&mut self, _ep_addr: EndpointAddress, _stalled: bool) {}

    fn endpoint_is_stalled(&mut self, _ep_addr: EndpointAddress) -> bool {
        false
    }

    async fn remote_wakeup(&mut self) -> Result<(), Unsupported> {
        Err(Unsupported)
    }
}

impl ControlPipe for IdlePipe {
    fn max_packet_size(&self) -> usize {
        64
    }

    async fn setup(&mut self) -> [u8; 8] {
        [0; 8]
    }

    async fn data_out(
        &mut self,
        _buf: &mut [u8],
        _first: bool,
        _last: bool,
    ) -> Result<usize, EndpointError> {
        Err(EndpointError::Disabled)
    }

    async fn data_in(
        &mut self,
        _data: &[u8],
        _first: bool,
        _last: bool,
    ) -> Result<(), EndpointError> {
        Err(EndpointError::Disabled)
    }

    async fn accept(&mut self) {}

    async fn reject(&mut self) {}

    async fn accept_set_address(&mut self, _addr: u8) {}
}

fn endpoint_type(transfer: TransferType) -> EndpointType {
    match transfer {
        TransferType::Control => EndpointType::Control,
        TransferType::Isochronous => EndpointType::Isochronous,
        TransferType::Bulk => EndpointType::Bulk,
        TransferType::Interrupt => EndpointType::Interrupt,
    }
}

fn synchronization_type(synchronization: Synchronization) -> SynchronizationType {
    match synchronization {
        Synchronization::NoSynchronization => SynchronizationType::NoSynchronization,
        Synchronization::Asynchronous => SynchronizationType::Asynchronous,
    }
}

fn usage_type(usage: Usage) -> UsageType {
    match usage {
        Usage::Data => UsageType::DataEndpoint,
        Usage::Feedback => UsageType::FeedbackEndpoint,
    }
}

fn carry_out(alt: &mut InterfaceAltBuilder<'_, '_, IdleDriver>, items: &[SettingItem]) {
    let mut stream: Option<IdleEndpoint> = None;
    let mut feedback: Option<IdleEndpoint> = None;
    for item in items {
        match *item {
            SettingItem::Descriptor(descriptor) => {
                alt.descriptor(descriptor.kind(), descriptor.data());
            }
            SettingItem::StreamOut { transfer, max_packet_size, interval_ms } => {
                let kind = endpoint_type(transfer);
                stream = Some(alt.alloc_endpoint_out(kind, None, max_packet_size, interval_ms));
            }
            SettingItem::FeedbackIn { transfer, max_packet_size, interval_ms } => {
                let kind = endpoint_type(transfer);
                feedback = Some(alt.alloc_endpoint_in(kind, None, max_packet_size, interval_ms));
            }
            SettingItem::StreamEndpoint { synchronization, usage } => {
                let address = feedback.as_ref().unwrap().info().addr.into();
                alt.endpoint_descriptor(
                    stream.as_ref().unwrap().info(),
                    synchronization_type(synchronization),
                    usage_type(usage),
                    &stream_endpoint_extra(address),
                );
            }
            SettingItem::FeedbackEndpoint { synchronization, usage } => {
                alt.endpoint_descriptor(
                    feedback.as_ref().unwrap().info(),
                    synchronization_type(synchronization),
                    usage_type(usage),
                    &feedback_endpoint_extra(),
                );
            }
        }
    }
}

/// The configuration descriptor of a device with the audio function alone, cut
/// into single descriptors, and the numbers that the interfaces were given.
fn enumerate() -> (Vec<Vec<u8>>, Vec<u8>) {
    let mut config_descriptor = [0u8; 256];
    let mut bos_descriptor = [0u8; 64];
    let mut control_buf = [0u8; 64];
    let mut config = Config::new(0x1209, 0x2350);
    config.composite_with_iads = true;
    config.device_class = 0xEF;
    config.device_sub_class = 0x02;
    config.device_protocol = 0x01;
    let mut builder = Builder::new(
        IdleDriver { endpoints: 0 },
        config,
        &mut config_descriptor,
        &mut bos_descriptor,
        &mut [],
        &mut control_buf,
    );

    let code = function_class();
    let mut function = builder.function(code.class, code.subclass, code.protocol);
    let mut numbers = Vec::new();
    for plan in function_plan() {
        let mut interface = function.interface();
        numbers.push(interface.interface_number().into());
        let code = plan.class();
        for setting in plan.settings() {
            let mut alt = interface.alt_setting(code.class, code.subclass, code.protocol, None);
            carry_out(&mut alt, setting.items());
        }
    }
    drop(function);
    drop(builder.build());

    let total = u16::from_le_bytes([config_descriptor[2], config_descriptor[3]]) as usize;
    let mut descriptors = Vec::new();
    let mut at = 0;
    while at < total {
        let length = config_descriptor[at] as usize;
        descriptors.push(config_descriptor[at..at + length].to_vec());
        at += length;
    }
    assert_eq!(at, total);
    (descriptors, numbers)
}

#[test]
fn a_host_finds_the_audio_function() {
    let (descriptors, numbers) = enumerate();
    assert_eq!(numbers, [0, 1]);
    let class = UsbAudioClass::new([numbers[0], numbers[1]]);
    assert_eq!((class.ac_interface, class.streaming_interface), (0, 1));
    let expected: [&[u8]; 20] = [
        // Both interfaces belong to one function.
        &[8, 0x0b, 0, 2, 0x01, 0x00, 0x20, 0],
        // Audio control.
        &[9, 0x04, 0, 0, 0, 0x01, 0x01, 0x20, 0],
        &[9, 0x24, 0x01, 0x00, 0x02, 0x01, 64, 0, 0],
        &[8, 0x24, 0x0a, 0x10, 0x03, 0x07, 0x00, 0x00],
        &[17, 0x24, 0x02, 0x11, 0x01, 0x01, 0x00, 0x10, 2, 3, 0, 0, 0, 0, 0, 0, 0],
        &[18, 0x24, 0x06, 0x12, 0x11, 0, 0, 0, 0, 0, 0, 0, 0, 0, 0, 0, 0, 0],
        &[12, 0x24, 0x03, 0x13, 0x01, 0x03, 0x00, 0x12, 0x10, 0, 0, 0],
        // Audio streaming, idle.
        &[9, 0x04, 1, 0, 0, 0x01, 0x02, 0x20, 0],
        // Audio streaming, 16 bits.
        &[9, 0x04, 1, 1, 2, 0x01, 0x02, 0x20, 0],
        &[16, 0x24, 0x01, 0x11, 0x00, 0x01, 1, 0, 0, 0, 2, 3, 0, 0, 0, 0],
        &[6, 0x24, 0x02, 0x01, 2, 16],
        &[9, 0x05, 0x01, 0x05, 0x80, 0x01, 1, 0x00, 0x82],
        &[8, 0x25, 0x01, 0, 0, 0, 0, 0],
        &[9, 0x05, 0x82, 0x11, 0x04, 0x00, 1, 0x01, 0x00],
        // Audio streaming, 24 bits.
        &[9, 0x04, 1, 2, 2, 0x01, 0x02, 0x20, 0],
        &[16, 0x24, 0x01, 0x11, 0x00, 0x01, 1, 0, 0, 0, 2, 3, 0, 0, 0, 0],
        &[6, 0x24, 0x02, 0x01, 3, 24],
        &[9, 0x05, 0x03, 0x05, 0x40, 0x02, 1, 0x00, 0x84],
        &[8, 0x25, 0x01, 0, 0, 0, 0, 0],
        &[9, 0x05, 0x84, 0x11, 0x04, 0x00, 1, 0x01, 0x00],
    ];
    assert_eq!(descriptors.len(), 1 + expected.len());
    // The first is that of the configuration as a whole: two interfaces.
    assert_eq!(descriptors[0][1..5], [0x02, 213, 0, 2]);
    for (found, wanted) in descriptors[1..].iter().zip(expected) {
        assert_eq!(found, wanted);
    }
}
