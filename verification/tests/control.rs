use usb_audio_dac::audio::{supported_sample_rates_hz, AudioState};
use usb_audio_dac::control::{
    ControlRequest, InResponse, OutResponse, Recipient, RequestType, UsbAudioClass,
};

const CLASS: UsbAudioClass = UsbAudioClass { ac_interface: 3, streaming_interface: 4 };

fn clock_request(selector: u8, request: u8) -> ControlRequest {
    ControlRequest {
        request_type: RequestType::Class,
        recipient: Recipient::Interface,
        request,
        value: (selector as u16) << 8,
        index: 0x1003,
    }
}

fn set_rate(state: &mut AudioState, rate: u32) -> Option<OutResponse> {
    CLASS.control_out(state, clock_request(1, 1), &rate.to_le_bytes())
}

#[test]
fn interfaces_are_as_given() {
    assert_eq!(UsbAudioClass::new([3, 4]), CLASS);
}

#[test]
fn set_rate_reads_back() {
    let mut state = AudioState::new();
    for (count, rate) in [44_100u32, 88_200, 96_000, 48_000].into_iter().enumerate() {
        assert_eq!(set_rate(&mut state, rate), Some(OutResponse::Accepted));
        assert_eq!(state.sample_rate_hz, rate);
        assert_eq!(state.config_version, count as u32 + 1);
        let mut buf = [0xaau8; 6];
        let reply = CLASS.control_in(&state, clock_request(1, 1), &mut buf);
        assert_eq!(reply, Some(InResponse::Accepted(4)));
        assert_eq!(buf[..4], rate.to_le_bytes());
        assert_eq!(buf[4..], [0xaa, 0xaa]);
    }
}

#[test]
fn the_same_rate_keeps_the_generation() {
    let mut state = AudioState::new();
    assert_eq!(set_rate(&mut state, 48_000), Some(OutResponse::Accepted));
    assert_eq!(state, AudioState::new());
}

#[test]
fn further_bytes_are_ignored() {
    let mut state = AudioState::new();
    let data = [0x44, 0xac, 0x00, 0x00, 0xff];
    let reply = CLASS.control_out(&mut state, clock_request(1, 1), &data);
    assert_eq!(reply, Some(OutResponse::Accepted));
    assert_eq!(state.sample_rate_hz, 44_100);
}

#[test]
fn the_generation_wraps() {
    let mut state = AudioState::new();
    state.config_version = u32::MAX;
    assert_eq!(set_rate(&mut state, 96_000), Some(OutResponse::Accepted));
    assert_eq!(state.config_version, 0);
}

#[test]
fn out_requests_for_others_are_left() {
    let mut state = AudioState::new();
    let data = 44_100u32.to_le_bytes();
    let good = clock_request(1, 1);
    let others = [
        ControlRequest { request_type: RequestType::Standard, ..good },
        ControlRequest { request_type: RequestType::Vendor, ..good },
        ControlRequest { request_type: RequestType::Reserved, ..good },
        ControlRequest { recipient: Recipient::Device, ..good },
        ControlRequest { recipient: Recipient::Endpoint, ..good },
        ControlRequest { recipient: Recipient::Other, ..good },
        ControlRequest { recipient: Recipient::Reserved, ..good },
        ControlRequest { index: 0x1004, ..good },
    ];
    for req in others {
        assert_eq!(CLASS.control_out(&mut state, req, &data), None);
    }
    assert_eq!(state, AudioState::new());
}

#[test]
fn other_out_requests_are_rejected() {
    let mut state = AudioState::new();
    let data = 44_100u32.to_le_bytes();
    let good = clock_request(1, 1);
    let rejected = [
        ControlRequest { index: 0x1103, ..good },
        ControlRequest { request: 2, ..good },
        ControlRequest { value: 0x0101, ..good },
        ControlRequest { value: 0x0200, ..good },
    ];
    for req in rejected {
        assert_eq!(CLASS.control_out(&mut state, req, &data), Some(OutResponse::Rejected));
    }
    let short = CLASS.control_out(&mut state, good, &data[..3]);
    assert_eq!(short, Some(OutResponse::Rejected));
    assert_eq!(set_rate(&mut state, 32_000), Some(OutResponse::Rejected));
    assert_eq!(set_rate(&mut state, 0), Some(OutResponse::Rejected));
    assert_eq!(state, AudioState::new());
}

#[test]
fn range_lists_the_rates() {
    let state = AudioState::new();
    let mut buf = [0x55u8; 64];
    let reply = CLASS.control_in(&state, clock_request(1, 2), &mut buf);
    assert_eq!(reply, Some(InResponse::Accepted(50)));
    let mut expected: Vec<u8> = vec![4, 0];
    for rate in supported_sample_rates_hz() {
        expected.extend_from_slice(&rate.to_le_bytes());
        expected.extend_from_slice(&rate.to_le_bytes());
        expected.extend_from_slice(&[0, 0, 0, 0]);
    }
    assert_eq!(buf[..50], expected[..]);
    assert_eq!(buf[50..], [0x55; 14]);
}

#[test]
fn every_listed_rate_is_accepted() {
    let mut buf = [0u8; 50];
    CLASS.control_in(&AudioState::new(), clock_request(1, 2), &mut buf);
    for entry in 0..4 {
        let at = 2 + 12 * entry;
        let mut state = AudioState::new();
        let reply = CLASS.control_out(&mut state, clock_request(1, 1), &buf[at..at + 4]);
        assert_eq!(reply, Some(OutResponse::Accepted));
    }
}

#[test]
fn the_clock_is_valid() {
    let state = AudioState::new();
    let mut buf = [9u8; 2];
    let reply = CLASS.control_in(&state, clock_request(2, 1), &mut buf);
    assert_eq!(reply, Some(InResponse::Accepted(1)));
    assert_eq!(buf, [1, 9]);
}

#[test]
fn short_buffers_are_rejected() {
    let state = AudioState::new();
    let mut buf = [9u8; 49];
    for (selector, request, room) in [(1, 1, 3), (1, 2, 49), (2, 1, 0)] {
        let req = clock_request(selector, request);
        let reply = CLASS.control_in(&state, req, &mut buf[..room]);
        assert_eq!(reply, Some(InResponse::Rejected));
    }
    assert_eq!(buf, [9; 49]);
}

#[test]
fn in_requests_for_others_are_left() {
    let state = AudioState::new();
    let mut buf = [9u8; 64];
    let good = clock_request(1, 1);
    let others = [
        ControlRequest { request_type: RequestType::Standard, ..good },
        ControlRequest { recipient: Recipient::Device, ..good },
        ControlRequest { index: 0x1004, ..good },
        ControlRequest { index: 0x1203, ..good },
        clock_request(2, 2),
        clock_request(3, 1),
        clock_request(1, 3),
    ];
    for req in others {
        assert_eq!(CLASS.control_in(&state, req, &mut buf), None);
    }
    let channel = ControlRequest { value: 0x0101, ..good };
    assert_eq!(CLASS.control_in(&state, channel, &mut buf), Some(InResponse::Rejected));
    assert_eq!(buf, [9; 64]);
}

#[test]
fn alternate_settings_select_the_width() {
    let mut state = AudioState::new();
    CLASS.set_alternate_setting(&mut state, 4, 1);
    assert!(state.stream_active);
    assert_eq!((state.bits_per_sample, state.config_version), (16, 0));
    CLASS.set_alternate_setting(&mut state, 4, 2);
    assert!(state.stream_active);
    assert_eq!((state.bits_per_sample, state.config_version), (24, 1));
    CLASS.set_alternate_setting(&mut state, 4, 0);
    assert!(!state.stream_active);
    assert_eq!((state.bits_per_sample, state.config_version), (24, 1));
    CLASS.set_alternate_setting(&mut state, 4, 2);
    assert!(state.stream_active);
    assert_eq!((state.bits_per_sample, state.config_version), (24, 1));
    CLASS.set_alternate_setting(&mut state, 4, 3);
    assert!(!state.stream_active);
    assert_eq!((state.bits_per_sample, state.config_version), (24, 1));
}

#[test]
fn other_interfaces_do_not_matter() {
    let mut state = AudioState::new();
    CLASS.set_alternate_setting(&mut state, 3, 2);
    assert_eq!(state, AudioState::new());
}

#[test]
fn switching_the_width_keeps_the_rate() {
    let mut state = AudioState::new();
    set_rate(&mut state, 96_000);
    CLASS.set_alternate_setting(&mut state, 4, 2);
    assert_eq!((state.bits_per_sample, state.sample_rate_hz), (24, 96_000));
}

#[test]
fn a_stray_rate_falls_back() {
    let mut state = AudioState::new();
    state.sample_rate_hz = 12_345;
    CLASS.set_alternate_setting(&mut state, 4, 2);
    assert_eq!((state.bits_per_sample, state.sample_rate_hz), (24, 48_000));
    assert_eq!(state.config_version, 1);
}

#[test]
fn reset_goes_back_to_the_default_format() {
    let mut state = AudioState::new();
    set_rate(&mut state, 96_000);
    CLASS.set_alternate_setting(&mut state, 4, 2);
    state.current_feedback_10_14 = 5;
    CLASS.reset(&mut state);
    assert!(!state.stream_active);
    assert_eq!((state.bits_per_sample, state.sample_rate_hz), (16, 48_000));
    assert_eq!(state.config_version, 3);
    assert_eq!(state.current_feedback_10_14, 5);
    let once = state;
    CLASS.reset(&mut state);
    assert_eq!(state, once);
}

#[test]
fn reset_of_the_default_format_keeps_the_generation() {
    let mut state = AudioState::new();
    CLASS.set_alternate_setting(&mut state, 4, 1);
    CLASS.reset(&mut state);
    assert_eq!(state, AudioState::new());
}
