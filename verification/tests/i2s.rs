use usb_audio_dac::i2s::{i2s_timing, supports_clock, I2sConfig, I2sPioTx, I2sTiming};

fn config(bits: u32, actual: u32, feedback: u32) -> I2sConfig {
    I2sConfig {
        clock_divider_bits: bits,
        slot_loop_count: 30,
        timing: I2sTiming { actual_sample_rate_hz: actual, feedback_value_10_14: feedback },
    }
}

#[test]
fn set_up_for_the_initial_rate() {
    let (tx, set_up) = I2sPioTx::new(150_000_000);
    assert!(!tx.started);
    assert_eq!(set_up, config(6_250, 48_000, 786_432));
}

#[test]
fn dividers_and_real_timing() {
    let (mut tx, _) = I2sPioTx::new(150_000_000);
    assert_eq!(tx.configure(150_000_000, 44_100), config(6_802, 44_104, 722_610));
    assert_eq!(tx.configure(150_000_000, 88_200), config(3_401, 88_209, 1_445_221));
    assert_eq!(tx.configure(150_000_000, 96_000), config(3_125, 96_000, 1_572_864));
    assert_eq!(tx.configure(125_000_000, 48_000), config(5_208, 48_003, 786_482));
    // A PIO clock past 2^24 Hz.
    assert_eq!(tx.configure(4_000_000_000, 200_000).clock_divider_bits, 40_000);
    assert_eq!(i2s_timing(150_000_000, 6_802).actual_sample_rate_hz, 44_104);
}

#[test]
fn clocks_out_of_range_are_known() {
    assert!(supports_clock(150_000_000, 48_000));
    assert!(supports_clock(6_144_000, 48_000));
    assert!(!supports_clock(6_143_999, 48_000));
    assert!(!supports_clock(150_000_000, 0));
    assert!(!supports_clock(150_000_000, 17));
    assert!(supports_clock(150_000_000, 18));
    assert!(!supports_clock(u32::MAX, u32::MAX));
}

#[test]
fn starts_once_until_set_up_again() {
    let (mut tx, _) = I2sPioTx::new(150_000_000);
    assert!(tx.start());
    assert!(tx.started);
    assert!(!tx.start());
    tx.configure(150_000_000, 96_000);
    assert!(!tx.started);
    assert!(tx.start());
}

#[test]
fn priming_takes_eight_words() {
    let (tx, _) = I2sPioTx::new(150_000_000);
    let words: Vec<u32> = (0..20).collect();
    assert_eq!(tx.prime(&words), &words[..8]);
    assert_eq!(tx.prime(&words[..8]), &words[..8]);
    assert_eq!(tx.prime(&words[..3]), &words[..3]);
    assert_eq!(tx.prime(&[]).len(), 0);
}

#[test]
fn the_low_bits_of_the_quotient_decide() {
    // 16_777_221 PIO clocks of 128 Hz: 5 is left of the quotient.
    assert!(supports_clock(2_147_484_288, 1));
    let (mut tx, _) = I2sPioTx::new(150_000_000);
    assert_eq!(tx.configure(2_147_484_288, 1).clock_divider_bits, 5 * 256);
    // Exactly 2^24 of them leave nothing.
    assert!(!supports_clock(2_147_483_648, 1));
}

#[test]
fn a_cut_fraction_makes_the_transmitter_fast() {
    let (mut tx, _) = I2sPioTx::new(150_000_000);
    // 20_000_000 Hz from 39_999_999 Hz: the quotient is 511 in units of 1/256,
    // but the remainder has more than 24 bits.
    let set_up = tx.configure(39_999_999, 156_250);
    assert_eq!(set_up.clock_divider_bits, 297);
    assert_eq!(set_up.timing.actual_sample_rate_hz, 269_360);
}
