use usb_audio_dac::pcm::{bytes_to_i2s_words, pcm24_to_i2s_slot};

#[test]
fn packed_24_bits_fill_the_upper_bytes() {
    assert_eq!(pcm24_to_i2s_slot(&[0x56, 0x34, 0x12]), 0x1234_5600);
    assert_eq!(pcm24_to_i2s_slot(&[0xff, 0xff, 0xff]), 0xffff_ff00);
    assert_eq!(pcm24_to_i2s_slot(&[0x00, 0x00, 0x80, 0x77]), 0x8000_0000);
    assert_eq!(pcm24_to_i2s_slot(&[0xff, 0xff, 0xff]) as i32, -256);
    assert_eq!(pcm24_to_i2s_slot(&[0xff, 0xff, 0x7f]) as i32, 0x7fff_ff00);
}

#[test]
fn frames_of_16_bits() {
    let mut out = [0xdead_beefu32; 5];
    let bytes = [0x34, 0x12, 0xff, 0xff, 0x00, 0x80, 0x01, 0x00];
    assert_eq!(bytes_to_i2s_words(&bytes, 16, &mut out), 4);
    assert_eq!(out, [0x1234_0000, 0xffff_0000, 0x8000_0000, 0x0001_0000, 0xdead_beef]);
}

#[test]
fn frames_of_24_bits() {
    let mut out = [7u32; 4];
    let bytes = [1, 2, 3, 4, 5, 6, 0xf1, 0xf2, 0xf3, 0xf4, 0xf5, 0xf6];
    assert_eq!(bytes_to_i2s_words(&bytes, 24, &mut out), 4);
    assert_eq!(out, [0x0302_0100, 0x0605_0400, 0xf3f2_f100, 0xf6f5_f400]);
}

#[test]
fn bytes_short_of_a_frame_are_dropped() {
    let mut out = [7u32; 4];
    assert_eq!(bytes_to_i2s_words(&[1, 0, 2, 0, 3, 0, 4], 16, &mut out), 2);
    assert_eq!(out, [0x0001_0000, 0x0002_0000, 7, 7]);
    assert_eq!(bytes_to_i2s_words(&[1, 2, 3, 4, 5], 24, &mut out), 0);
    assert_eq!(bytes_to_i2s_words(&[], 16, &mut out), 0);
    assert_eq!(out, [0x0001_0000, 0x0002_0000, 7, 7]);
}

#[test]
fn frames_past_the_room_are_dropped() {
    let mut out = [7u32; 3];
    assert_eq!(bytes_to_i2s_words(&[1, 0, 2, 0, 3, 0, 4, 0], 16, &mut out), 2);
    assert_eq!(out, [0x0001_0000, 0x0002_0000, 7]);
    let mut one = [7u32; 1];
    assert_eq!(bytes_to_i2s_words(&[1, 2, 3, 4, 5, 6], 24, &mut one), 0);
    assert_eq!(one, [7]);
}

#[test]
fn other_widths_convert_to_nothing() {
    let mut out = [7u32; 4];
    assert_eq!(bytes_to_i2s_words(&[1, 2, 3, 4, 5, 6, 7, 8], 32, &mut out), 0);
    assert_eq!(out, [7; 4]);
}

#[test]
fn the_largest_packets_convert_in_full() {
    let mut out = [1u32; 192];
    assert_eq!(bytes_to_i2s_words(&[0; 384], 16, &mut out), 192);
    assert_eq!(bytes_to_i2s_words(&[0; 576], 24, &mut out), 192);
    assert_eq!(out, [0; 192]);
}

#[test]
fn different_samples_have_different_slots() {
    let mut out = [0u32; 4];
    assert_eq!(bytes_to_i2s_words(&[1, 0, 0, 1, 1, 1, 0, 0], 16, &mut out), 4);
    assert_eq!(out, [0x0001_0000, 0x0100_0000, 0x0101_0000, 0]);
    assert_ne!(pcm24_to_i2s_slot(&[1, 0, 0]), pcm24_to_i2s_slot(&[0, 1, 0]));
    assert_ne!(pcm24_to_i2s_slot(&[0, 1, 0]), pcm24_to_i2s_slot(&[0, 0, 1]));
    assert_eq!(pcm24_to_i2s_slot(&[1, 2, 3, 4]), pcm24_to_i2s_slot(&[1, 2, 3, 5]));
}
