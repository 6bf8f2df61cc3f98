use usb_audio_dac::audio::{i2s_words_per_usb_packet, supported_sample_rates_hz, AudioState};
use usb_audio_dac::control::UsbAudioClass;
use usb_audio_dac::feedback::{
    current_feedback_packet, feedback_start_level_words, feedback_target_level_words,
};
use usb_audio_dac::fifo::AudioSampleFifo;
use usb_audio_dac::i2s::I2sPioTx;
use usb_audio_dac::playback::{
    keep_sending, receive, retune, Notice, Playback, SendOutcome, StreamAction, StreamEvent,
    AUDIO_FIFO_CAPACITY_WORDS,
};

type Fifo = AudioSampleFifo<AUDIO_FIFO_CAPACITY_WORDS>;

const BASE: u32 = 786_432;

fn active_state() -> AudioState {
    let mut state = AudioState::new();
    state.stream_active = true;
    state
}

fn filled(count: u32) -> Fifo {
    let mut fifo = Fifo::new();
    let words: Vec<u32> = (1..=count).collect();
    fifo.push_slice(&words);
    fifo
}

#[test]
fn packets_join_the_fifo() {
    let mut fifo = filled(2);
    let mut words = [0u32; 192];
    let action = receive(StreamEvent::Packet(&[1, 0, 2, 0, 9]), 16, &mut words, &mut fifo);
    assert_eq!(action, StreamAction::Read);
    let mut out = [0u32; 5];
    assert_eq!(fifo.pop_slice(&mut out), 4);
    assert_eq!(out, [1, 2, 0x0001_0000, 0x0002_0000, 0]);
}

#[test]
fn switches_empty_the_fifo() {
    let mut words = [0u32; 192];
    let mut fifo = filled(10);
    let action = receive(StreamEvent::Enabled, 16, &mut words, &mut fifo);
    assert_eq!((action, fifo.len()), (StreamAction::Read, 0));
    let mut fifo = filled(10);
    let action = receive(StreamEvent::Disabled, 24, &mut words, &mut fifo);
    assert_eq!((action, fifo.len()), (StreamAction::AwaitEnabled, 0));
    let mut fifo = filled(10);
    let action = receive(StreamEvent::Overflow, 24, &mut words, &mut fifo);
    assert_eq!((action, fifo.len()), (StreamAction::Read, 10));
    assert_eq!(words, [0; 192]);
}

#[test]
fn feedback_goes_on_until_disabled() {
    assert!(keep_sending(SendOutcome::Sent));
    assert!(keep_sending(SendOutcome::Overflow));
    assert!(!keep_sending(SendOutcome::Disabled));
}

#[test]
fn retuning_makes_real_timing_the_base() {
    let (mut tx, _) = I2sPioTx::new(150_000_000);
    tx.start();
    let mut state = active_state();
    state.sample_rate_hz = 44_100;
    let config = retune(&mut state, &mut tx, 150_000_000);
    assert_eq!(config.clock_divider_bits, 6_802);
    assert!(!tx.started);
    assert_eq!(state.base_feedback_10_14, 722_610);
    assert_eq!(state.current_feedback_10_14, 722_610);
    assert!(state.stream_active);
}

#[test]
fn a_new_format_is_seen_once() {
    let class = UsbAudioClass::new([0, 1]);
    let mut state = AudioState::new();
    let mut playback = Playback::new(&state);
    let mut fifo = filled(10);
    assert_eq!(playback.poll_configuration(&state, &mut fifo), None);
    assert_eq!(fifo.len(), 10);
    playback.playback_started = true;
    playback.diag_frames = 7;
    class.set_alternate_setting(&mut state, 1, 2);
    let change = playback.poll_configuration(&state, &mut fifo).unwrap();
    assert_eq!((change.sample_rate_hz, change.bits_per_sample), (48_000, 24));
    assert_eq!(change.packet_words, 96);
    assert_eq!(change.start_level_words, 576);
    assert_eq!(change.target_level_words, 1_152);
    assert_eq!(fifo.len(), 0);
    assert_eq!(playback, Playback::new(&state));
    assert_eq!(playback.poll_configuration(&state, &mut fifo), None);
}

#[test]
fn silence_until_the_start_level() {
    let mut state = active_state();
    let mut playback = Playback::new(&state);
    let mut fifo = filled(575);
    let mut chunk = [7u32; 192];
    let report = playback.cycle(&mut state, &mut fifo, &mut chunk, BASE);
    assert_eq!((report.packet_words, report.written), (96, 0));
    assert_eq!((report.fifo_level_words, report.notice), (575, Notice::Buffering));
    assert_eq!(chunk[..96], [0; 96]);
    assert_eq!(chunk[96..], [7; 96]);
    assert_eq!(fifo.len(), 575);
    // The FIFO is below its target, so the host is asked for more.
    assert_eq!(state.current_feedback_10_14, BASE + 16);
    // Waiting is told once.
    let report = playback.cycle(&mut state, &mut fifo, &mut chunk, BASE);
    assert_eq!(report.notice, Notice::Nothing);
    assert!(playback.buffering);
    // One more word and playback starts.
    fifo.push_slice(&[576]);
    let report = playback.cycle(&mut state, &mut fifo, &mut chunk, BASE);
    assert_eq!((report.written, report.notice), (96, Notice::Started));
    assert_eq!(chunk[..3], [1, 2, 3]);
    assert_eq!(chunk[95], 96);
    assert_eq!(fifo.len(), 480);
    assert!(playback.playback_started && !playback.buffering);
    // It goes on below the start level, and is not told again.
    let report = playback.cycle(&mut state, &mut fifo, &mut chunk, BASE);
    assert_eq!((report.written, report.notice), (96, Notice::Nothing));
    assert_eq!(chunk[0], 97);
}

#[test]
fn a_dry_fifo_is_filled_up_with_silence() {
    let mut state = active_state();
    let mut playback = Playback::new(&state);
    playback.playback_started = true;
    let mut fifo = filled(10);
    let mut chunk = [7u32; 96];
    let report = playback.cycle(&mut state, &mut fifo, &mut chunk, BASE);
    assert_eq!(report.written, 10);
    assert_eq!(chunk[..10], [1, 2, 3, 4, 5, 6, 7, 8, 9, 10]);
    assert_eq!(chunk[10..], [0; 86]);
    let report = playback.cycle(&mut state, &mut fifo, &mut chunk, BASE);
    assert_eq!(report.written, 0);
    assert_eq!(chunk, [0; 96]);
    assert!(playback.playback_started);
}

#[test]
fn a_stopped_stream_plays_silence() {
    let mut state = AudioState::new();
    state.current_feedback_10_14 = BASE + 100;
    let mut playback = Playback::new(&state);
    playback.playback_started = true;
    playback.buffering = true;
    playback.diag_frames = 999;
    let mut fifo = filled(1_000);
    let mut chunk = [7u32; 96];
    let report = playback.cycle(&mut state, &mut fifo, &mut chunk, 722_610);
    assert_eq!((report.written, report.fifo_level_words), (0, 0));
    assert_eq!((report.notice, report.diagnostics), (Notice::Nothing, None));
    assert_eq!(chunk, [0; 96]);
    assert_eq!(fifo.len(), 0);
    assert_eq!(playback, Playback::new(&state));
    assert_eq!(state.base_feedback_10_14, 722_610);
    assert_eq!(state.current_feedback_10_14, 722_610);
}

#[test]
fn diagnostics_come_every_thousand_cycles() {
    let mut state = active_state();
    let mut playback = Playback::new(&state);
    let mut fifo = Fifo::new();
    let mut chunk = [0u32; 96];
    for cycle in 1..=2_000 {
        let report = playback.cycle(&mut state, &mut fifo, &mut chunk, BASE);
        assert_eq!(report.diagnostics.is_some(), cycle % 1_000 == 0);
        if let Some(figures) = report.diagnostics {
            assert_eq!(figures.fifo_level_words, 0);
            assert_eq!(figures.target_level_words, 1_152);
            assert_eq!(figures.feedback_10_14, BASE + 512);
            assert_eq!(figures.correction_10_14, 512);
        }
    }
}

#[test]
fn received_samples_play_in_order() {
    let mut state = active_state();
    let mut playback = Playback::new(&state);
    let mut fifo = Fifo::new();
    let mut words = [0u32; 192];
    let mut chunk = [0u32; 192];
    let mut sent: Vec<u32> = Vec::new();
    let mut played: Vec<u32> = Vec::new();
    for packet in 0u16..20 {
        let mut bytes: Vec<u8> = Vec::new();
        for sample in 0u16..96 {
            let value = packet * 96 + sample;
            bytes.extend_from_slice(&value.to_le_bytes());
            sent.push((value as u32) << 16);
        }
        receive(StreamEvent::Packet(&bytes), 16, &mut words, &mut fifo);
        let report = playback.cycle(&mut state, &mut fifo, &mut chunk, BASE);
        played.extend_from_slice(&chunk[..report.written]);
    }
    assert_eq!(played.len(), 15 * 96);
    assert_eq!(played[..], sent[..15 * 96]);
}

#[test]
fn frames_stay_whole() {
    let mut fifo: AudioSampleFifo<8> = AudioSampleFifo::new();
    let mut words = [0u32; 7];
    // Two and a half frames at a time: two join, and overflow drops two.
    for first in [1u8, 5, 9] {
        let bytes = [0, first, 0, first + 1, 0, first + 2, 0, first + 3, 0, 99];
        receive(StreamEvent::Packet(&bytes), 16, &mut words, &mut fifo);
        assert_eq!(fifo.len() % 2, 0);
    }
    let mut out = [0u32; 8];
    assert_eq!(fifo.pop_slice(&mut out), 8);
    assert_eq!(out.map(|word| word >> 24), [5, 6, 7, 8, 9, 10, 11, 12]);
}

#[test]
fn levels_fit_the_fifo() {
    let mut levels = Vec::new();
    for rate in supported_sample_rates_hz() {
        let words = i2s_words_per_usb_packet(24, rate);
        levels.push((feedback_start_level_words(words), feedback_target_level_words(words)));
    }
    assert_eq!(levels, [(540, 1_080), (576, 1_152), (1_068, 2_136), (1_152, 2_304)]);
    assert_eq!(AUDIO_FIFO_CAPACITY_WORDS, 6_144);
}

#[test]
fn feedback_stays_on_course_and_is_sent_in_full() {
    let (mut tx, _) = I2sPioTx::new(150_000_000);
    let mut chunk = [0u32; 192];
    for rate in supported_sample_rates_hz() {
        let mut state = active_state();
        state.sample_rate_hz = rate;
        let base = retune(&mut state, &mut tx, 150_000_000).timing.feedback_value_10_14;
        let mut playback = Playback::new(&state);
        // First a dry FIFO, then a full one.
        let mut dry = Fifo::new();
        for cycle in 0..200 {
            if cycle < 100 {
                playback.cycle(&mut state, &mut dry, &mut chunk, base);
            } else {
                playback.cycle(&mut state, &mut filled(6_144), &mut chunk, base);
            }
            let value = state.current_feedback_10_14;
            assert!(value.abs_diff(base) <= 512);
            let packet = current_feedback_packet(&state);
            assert_eq!(packet[3], 0);
            assert_eq!(u32::from_le_bytes(packet), value);
            if cycle == 99 {
                assert_eq!(value, base + 512);
            }
        }
        assert_eq!(state.current_feedback_10_14, base - 512);
    }
}

#[test]
fn notices_and_diagnostics_do_not_hang_on_the_format() {
    let mut state = active_state();
    let mut playback = Playback::new(&state);
    let mut fifo = Fifo::new();
    let mut chunk = [0u32; 192];
    let mut buffering = 0;
    let mut reports = Vec::new();
    for cycle in 1..=1_000 {
        state.sample_rate_hz = supported_sample_rates_hz()[cycle % 4];
        state.bits_per_sample = if cycle % 2 == 0 { 16 } else { 24 };
        let report = playback.cycle(&mut state, &mut fifo, &mut chunk, BASE);
        if report.notice == Notice::Buffering {
            buffering += 1;
        }
        if report.diagnostics.is_some() {
            reports.push(cycle);
        }
    }
    assert_eq!((buffering, reports), (1, vec![1_000]));
    // The start is told once too, though the next cycle plays another format.
    state.sample_rate_hz = 48_000;
    let mut fifo = filled(1_000);
    let report = playback.cycle(&mut state, &mut fifo, &mut chunk, BASE);
    assert_eq!(report.notice, Notice::Started);
    state.sample_rate_hz = 96_000;
    let report = playback.cycle(&mut state, &mut fifo, &mut chunk, BASE);
    assert_eq!((report.notice, report.written), (Notice::Nothing, 192));
}
