use usb_audio_dac::control::UsbAudioClass;
use usb_audio_dac::audio::AudioState;
use usb_audio_dac::descriptors::{
    alternate_widths, control_class, control_items, feedback_endpoint_extra, function_class,
    function_plan, stream_endpoint_extra, streaming_class, streaming_items, ClassCode,
    ClassDescriptor, SettingItem, Synchronization, TransferType, Usage,
};

fn descriptor(item: &SettingItem) -> (u8, Vec<u8>) {
    match item {
        SettingItem::Descriptor(descriptor) => (descriptor.kind(), descriptor.data().to_vec()),
        _ => panic!("no descriptor: {:?}", item),
    }
}

#[test]
fn class_codes() {
    assert_eq!(function_class(), ClassCode { class: 0x01, subclass: 0x00, protocol: 0x20 });
    assert_eq!(control_class(), ClassCode { class: 0x01, subclass: 0x01, protocol: 0x20 });
    assert_eq!(streaming_class(), ClassCode { class: 0x01, subclass: 0x02, protocol: 0x20 });
}

#[test]
fn audio_control_descriptors() {
    let items = control_items();
    let expected: [&[u8]; 5] = [
        &[0x01, 0x00, 0x02, 0x01, 64, 0, 0],
        &[0x0a, 0x10, 0x03, 0x07, 0x00, 0x00],
        &[0x02, 0x11, 0x01, 0x01, 0x00, 0x10, 2, 3, 0, 0, 0, 0, 0, 0, 0],
        &[0x06, 0x12, 0x11, 0, 0, 0, 0, 0, 0, 0, 0, 0, 0, 0, 0, 0],
        &[0x03, 0x13, 0x01, 0x03, 0x00, 0x12, 0x10, 0, 0, 0],
    ];
    let mut total = 0;
    for (item, body) in items.iter().zip(expected) {
        let (kind, data) = descriptor(item);
        assert_eq!(kind, 0x24);
        assert_eq!(data, body);
        total += data.len() + 2;
    }
    assert_eq!(total, 64);
}

#[test]
fn streaming_settings() {
    for (bits, slot, size) in [(16u8, 2u8, 384u16), (24, 3, 576)] {
        let items = streaming_items(bits);
        let general = vec![0x01, 0x11, 0x00, 0x01, 1, 0, 0, 0, 2, 3, 0, 0, 0, 0];
        assert_eq!(descriptor(&items[0]), (0x24, general));
        assert_eq!(descriptor(&items[1]), (0x24, vec![0x02, 0x01, slot, bits]));
        match items[2] {
            SettingItem::StreamOut { transfer, max_packet_size, interval_ms } => {
                assert_eq!(transfer, TransferType::Isochronous);
                assert_eq!((max_packet_size, interval_ms), (size, 1));
            }
            _ => panic!("no OUT endpoint"),
        }
        match items[3] {
            SettingItem::FeedbackIn { transfer, max_packet_size, interval_ms } => {
                assert_eq!(transfer, TransferType::Isochronous);
                assert_eq!((max_packet_size, interval_ms), (4, 1));
            }
            _ => panic!("no IN endpoint"),
        }
        match items[4] {
            SettingItem::StreamEndpoint { synchronization, usage } => {
                assert_eq!((synchronization, usage), (Synchronization::Asynchronous, Usage::Data));
            }
            _ => panic!("no OUT endpoint descriptor"),
        }
        assert_eq!(descriptor(&items[5]), (0x25, vec![0x01, 0, 0, 0, 0, 0]));
        match items[6] {
            SettingItem::FeedbackEndpoint { synchronization, usage } => {
                assert_eq!(synchronization, Synchronization::NoSynchronization);
                assert_eq!(usage, Usage::Feedback);
            }
            _ => panic!("no IN endpoint descriptor"),
        }
    }
}

#[test]
fn endpoint_extra_bytes() {
    assert_eq!(stream_endpoint_extra(0x81), [0x00, 0x81]);
    assert_eq!(feedback_endpoint_extra(), [0x01, 0x00]);
}

#[test]
fn enumerated_settings_play_as_selected() {
    assert_eq!(alternate_widths(), [None, Some(16), Some(24)]);
    let class = UsbAudioClass::new([0, 1]);
    for (alternate, width) in alternate_widths().into_iter().enumerate() {
        let mut state = AudioState::new();
        class.set_alternate_setting(&mut state, 1, alternate as u8);
        assert_eq!(state.stream_active, width.is_some());
        if let Some(bits) = width {
            assert_eq!(state.bits_per_sample, bits);
        }
    }
}

#[test]
fn descriptor_keeps_its_bytes() {
    let short = ClassDescriptor::new(7, &[1, 2, 3]);
    assert_eq!((short.kind(), short.data()), (7, &[1u8, 2, 3][..]));
    let empty = ClassDescriptor::new(8, &[]);
    assert_eq!((empty.kind(), empty.data().len()), (8, 0));
    let full: Vec<u8> = (0..16).collect();
    assert_eq!(ClassDescriptor::new(9, &full).data(), &full[..]);
}

#[test]
fn the_function_is_control_then_streaming() {
    let [control, streaming] = function_plan();
    assert_eq!(control.class(), control_class());
    assert_eq!(control.settings().len(), 1);
    assert_eq!((control.settings()[0].width(), control.settings()[0].items().len()), (None, 5));
    for (item, own) in control.settings()[0].items().iter().zip(control_items()) {
        assert_eq!(descriptor(item), descriptor(&own));
    }
    assert_eq!(streaming.class(), streaming_class());
    let shape: Vec<(Option<u8>, usize)> =
        streaming.settings().iter().map(|s| (s.width(), s.items().len())).collect();
    assert_eq!(shape, [(None, 0), (Some(16), 7), (Some(24), 7)]);
}

#[test]
fn endpoints_come_in_isochronous_pairs() {
    for interface in function_plan() {
        for setting in interface.settings() {
            let mut outs = Vec::new();
            let mut ins = Vec::new();
            for item in setting.items() {
                match item {
                    SettingItem::StreamOut { transfer, .. } => outs.push(*transfer),
                    SettingItem::FeedbackIn { transfer, .. } => ins.push(*transfer),
                    _ => {}
                }
            }
            let expected = match setting.width() {
                Some(_) => vec![TransferType::Isochronous],
                None => vec![],
            };
            assert_eq!((&outs, &ins), (&expected, &expected));
        }
    }
}

#[test]
fn entities_form_one_path() {
    let body = |item: &SettingItem| descriptor(item).1;
    let control = control_items();
    let [clock, input, unit, output] =
        [&control[1], &control[2], &control[3], &control[4]].map(|item| body(item));
    assert_eq!([clock[1], input[1], unit[1], output[1]], [0x10, 0x11, 0x12, 0x13]);
    assert_eq!(body(&streaming_items(16)[0])[1], input[1]);
    assert_eq!((unit[2], output[5]), (input[1], unit[1]));
    assert_eq!((input[5], output[6]), (clock[1], clock[1]));
}
