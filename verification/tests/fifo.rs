use usb_audio_dac::fifo::AudioSampleFifo;

fn held<const N: usize>(fifo: &mut AudioSampleFifo<N>) -> Vec<u32> {
    let mut out = vec![0u32; N];
    let count = fifo.pop_slice(&mut out);
    out.truncate(count);
    out
}

#[test]
fn words_leave_in_order() {
    let mut fifo: AudioSampleFifo<8> = AudioSampleFifo::new();
    assert_eq!(fifo.len(), 0);
    fifo.push_slice(&[1, 2, 3, 4]);
    fifo.push_slice(&[5, 6]);
    assert_eq!(fifo.len(), 6);
    let mut out = [9u32; 3];
    assert_eq!(fifo.pop_slice(&mut out), 3);
    assert_eq!(out, [1, 2, 3]);
    assert_eq!(held(&mut fifo), [4, 5, 6]);
    assert_eq!(fifo.len(), 0);
}

#[test]
fn short_fifo_leaves_the_rest_of_the_buffer() {
    let mut fifo: AudioSampleFifo<4> = AudioSampleFifo::new();
    fifo.push_slice(&[7, 8]);
    let mut out = [1u32; 4];
    assert_eq!(fifo.pop_slice(&mut out), 2);
    assert_eq!(out, [7, 8, 1, 1]);
    assert_eq!(fifo.pop_slice(&mut out), 0);
    assert_eq!(out, [7, 8, 1, 1]);
}

#[test]
fn overflow_drops_the_oldest() {
    let mut fifo: AudioSampleFifo<4> = AudioSampleFifo::new();
    fifo.push_slice(&[1, 2, 3]);
    fifo.push_slice(&[4, 5, 6]);
    assert_eq!(fifo.len(), 4);
    assert_eq!(held(&mut fifo), [3, 4, 5, 6]);
}

#[test]
fn a_block_past_the_capacity_keeps_its_end() {
    let mut fifo: AudioSampleFifo<4> = AudioSampleFifo::new();
    fifo.push_slice(&[90, 91]);
    fifo.push_slice(&[1, 2, 3, 4, 5, 6]);
    assert_eq!(held(&mut fifo), [3, 4, 5, 6]);
    fifo.push_slice(&[1, 2, 3, 4]);
    assert_eq!(held(&mut fifo), [1, 2, 3, 4]);
}

#[test]
fn empty_input_changes_nothing() {
    let mut fifo: AudioSampleFifo<4> = AudioSampleFifo::new();
    fifo.push_slice(&[1, 2, 3, 4]);
    fifo.push_slice(&[]);
    assert_eq!(held(&mut fifo), [1, 2, 3, 4]);
}

#[test]
fn the_ring_wraps() {
    let mut fifo: AudioSampleFifo<3> = AudioSampleFifo::new();
    let mut out = [0u32; 2];
    let mut next = 0u32;
    let mut expected = 0u32;
    for _ in 0..20 {
        fifo.push_slice(&[next, next + 1]);
        next += 2;
        assert_eq!(fifo.pop_slice(&mut out), 2);
        assert_eq!(out, [expected, expected + 1]);
        expected += 2;
    }
}

#[test]
fn additions_in_parts_are_one_addition() {
    let mut parts: AudioSampleFifo<4> = AudioSampleFifo::new();
    let mut whole: AudioSampleFifo<4> = AudioSampleFifo::new();
    for fifo in [&mut parts, &mut whole] {
        fifo.push_slice(&[1, 2]);
    }
    parts.push_slice(&[3, 4]);
    parts.push_slice(&[5, 6]);
    whole.push_slice(&[3, 4, 5, 6]);
    assert_eq!(held(&mut parts), held(&mut whole));
}

#[test]
fn discarding_and_clearing() {
    let mut fifo: AudioSampleFifo<4> = AudioSampleFifo::new();
    fifo.push_slice(&[1, 2, 3]);
    fifo.discard_oldest(2);
    assert_eq!(fifo.len(), 1);
    fifo.push_slice(&[4]);
    assert_eq!(held(&mut fifo), [3, 4]);
    fifo.push_slice(&[5, 6]);
    fifo.discard_oldest(9);
    assert_eq!(fifo.len(), 0);
    fifo.push_slice(&[7]);
    fifo.clear();
    assert_eq!(fifo.len(), 0);
    assert_eq!(held(&mut fifo), Vec::<u32>::new());
}
