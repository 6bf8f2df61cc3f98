//! Reception and playback, one event and one millisecond at a time.

use vstd::prelude::*;

use crate::audio::{
    current_bits_per_sample, current_i2s_packet_words, current_sample_rate_hz,
    stream_config_version, AudioState,
};
use crate::feedback::{
    current_feedback_correction_10_14, current_feedback_value_10_14, feedback_start_level_words,
    feedback_target_level_words, reset_feedback_control, update_feedback_control,
};
use crate::fifo::AudioSampleFifo;
use crate::i2s::{I2sConfig, I2sPioTx};
use crate::pcm::bytes_to_i2s_words;

verus! {

/// Words of the sample FIFO: 32 of the largest packets.
pub const AUDIO_FIFO_CAPACITY_WORDS: usize = 6144;

/// Active cycles from one diagnostic report to the next.
pub const DIAGNOSTIC_PERIOD: u16 = 1_000;

/// What happened on the endpoint that audio comes in on.
#[derive(Clone, Copy, Debug)]
pub enum StreamEvent<'a> {
    /// The host selected the alternate setting.
    Enabled,
    /// A packet came in.
    Packet(&'a [u8]),
    /// The host left the alternate setting.
    Disabled,
    /// A packet did not fit its buffer.
    Overflow,
}

/// What to do next on the endpoint that audio comes in on.
#[derive(Clone, Copy, Debug, PartialEq, Eq, Structural)]
pub enum StreamAction {
    /// Read the next packet.
    Read,
    /// Wait until the host selects the alternate setting.
    AwaitEnabled,
}

/// How sending a feedback packet went.
#[derive(Clone, Copy, Debug, PartialEq, Eq, Structural)]
pub enum SendOutcome {
    Sent,
    /// The host left the alternate setting.
    Disabled,
    Overflow,
}

/// Digests an event: a packet is converted through `words` and joins the FIFO,
/// a switch of the alternate setting empties it, and a packet that was too long
/// is passed over.
pub fn receive<const N: usize>(
    event: StreamEvent<'_>,
    bits_per_sample: u8,
    words: &mut [u32],
    fifo: &mut AudioSampleFifo<N>,
) -> (action: StreamAction)
    ensures
        action == (if event is Disabled {
            StreamAction::AwaitEnabled
        } else {
            StreamAction::Read
        }),
        match event {
            StreamEvent::Packet(bytes) => {
                let slots = crate::pcm::sample_slots(
                    bytes@,
                    bits_per_sample,
                    crate::pcm::converted_samples(
                        bytes@.len() as int,
                        bits_per_sample,
                        old(words)@.len() as int,
                    ) as nat,
                );
                &&& final(fifo)@ == crate::fifo::newest(old(fifo)@ + slots, N as nat)
                &&& final(words)@ == slots + old(words)@.skip(slots.len() as int)
            },
            StreamEvent::Enabled | StreamEvent::Disabled => {
                &&& final(fifo)@ == Seq::<u32>::empty()
                &&& final(words)@ == old(words)@
            },
            StreamEvent::Overflow => {
                &&& final(fifo)@ == old(fifo)@
                &&& final(words)@ == old(words)@
            },
        },
{
    match event {
        StreamEvent::Enabled => {
            fifo.clear();
            StreamAction::Read
        },
        StreamEvent::Packet(bytes) => {
            let count: usize = bytes_to_i2s_words(bytes, bits_per_sample, words);
            let converted = &words[0..count];
            assert(converted@ =~= crate::pcm::sample_slots(bytes@, bits_per_sample, count as nat));
            fifo.push_slice(converted);
            StreamAction::Read
        },
        StreamEvent::Disabled => {
            fifo.clear();
            StreamAction::AwaitEnabled
        },
        StreamEvent::Overflow => StreamAction::Read,
    }
}

/// Whether to go on sending feedback without waiting for the host.
pub fn keep_sending(outcome: SendOutcome) -> (keep: bool)
    ensures
        keep == !(outcome is Disabled),
{
    match outcome {
        SendOutcome::Disabled => false,
        _ => true,
    }
}

/// Sets the transmitter up for the selected rate, and makes its real timing the
/// base of the feedback.
pub fn retune(state: &mut AudioState, tx: &mut I2sPioTx, sys_hz: u32) -> (config: I2sConfig)
    requires
        crate::i2s::can_run(sys_hz, old(state).sample_rate_hz),
    ensures
        config == crate::i2s::config_for(sys_hz, old(state).sample_rate_hz),
        !final(tx).started,
        *final(state) == crate::feedback::feedback_reset(
            *old(state),
            config.timing.feedback_value_10_14,
        ),
{
    let config = tx.configure(sys_hz, current_sample_rate_hz(state));
    reset_feedback_control(state, config.timing.feedback_value_10_14);
    config
}

/// A new stream format, to set the output up for.
#[derive(Clone, Copy, Debug, PartialEq, Eq, Structural)]
pub struct Reconfiguration {
    pub sample_rate_hz: u32,
    pub bits_per_sample: u8,
    pub packet_words: usize,
    pub start_level_words: usize,
    pub target_level_words: usize,
}

/// What a playback cycle has to tell.
#[derive(Clone, Copy, Debug, PartialEq, Eq, Structural)]
pub enum Notice {
    Nothing,
    /// Playback starts with this cycle.
    Started,
    /// Playback waits for the FIFO to fill, from this cycle on.
    Buffering,
}

/// The figures of a diagnostic report.
#[derive(Clone, Copy, Debug, PartialEq, Eq, Structural)]
pub struct Diagnostics {
    pub fifo_level_words: usize,
    pub target_level_words: usize,
    pub feedback_10_14: u32,
    pub correction_10_14: i32,
}

/// What a playback cycle did.
#[derive(Clone, Copy, Debug, PartialEq, Eq, Structural)]
pub struct CycleReport {
    /// Words to send: the front of the chunk.
    pub packet_words: usize,
    /// Words of them that came from the FIFO; the rest is silence.
    pub written: usize,
    /// Words that the FIFO held before the cycle; 0 while stopped.
    pub fifo_level_words: usize,
    pub start_level_words: usize,
    pub target_level_words: usize,
    pub notice: Notice,
    pub diagnostics: Option<Diagnostics>,
}

/// `count` words of silence.
pub open spec fn silence(count: int) -> Seq<u32>
    recommends
        count >= 0,
{
    Seq::new(count as nat, |i: int| 0u32)
}

/// The state of the playback loop.
#[derive(Clone, Copy, Debug, PartialEq, Eq, Structural)]
pub struct Playback {
    /// Generation of the format that the output is set up for.
    pub config_version: u32,
    /// Whether words leave the FIFO.
    pub playback_started: bool,
    /// Whether waiting for the FIFO to fill has been told.
    pub buffering: bool,
    /// Active cycles since the last diagnostic report.
    pub diag_frames: u16,
}

/// FIFO level at which playback of a format starts.
pub open spec fn start_level(rate: u32) -> int {
    crate::feedback::saturated(
        crate::audio::packet_words(rate) * crate::feedback::FIFO_START_PACKETS,
    )
}

/// FIFO level to hold while a format plays.
pub open spec fn target_level(rate: u32) -> int {
    crate::feedback::saturated(
        crate::audio::packet_words(rate) * crate::feedback::FIFO_TARGET_PACKETS,
    )
}

impl Playback {
    /// Whether an active cycle takes words from a FIFO of `level` words.
    pub open spec fn plays(self, rate: u32, level: int) -> bool {
        self.playback_started || level >= start_level(rate)
    }

    /// Words that a cycle takes from a FIFO of `level` words.
    pub open spec fn taken(self, state: AudioState, level: int) -> int {
        if state.stream_active && self.plays(state.sample_rate_hz, level) {
            crate::fifo::smaller(crate::audio::packet_words(state.sample_rate_hz), level)
        } else {
            0
        }
    }

    /// Whether an active cycle ends a diagnostic period.
    pub open spec fn diagnostics_due(self) -> bool {
        self.diag_frames + 1 >= DIAGNOSTIC_PERIOD
    }

    /// The loop's state after a cycle.
    pub open spec fn after_cycle(self, state: AudioState, level: int) -> Playback {
        if state.stream_active {
            Playback {
                playback_started: self.plays(state.sample_rate_hz, level),
                buffering: !self.plays(state.sample_rate_hz, level),
                diag_frames: if self.diagnostics_due() {
                    0
                } else {
                    (self.diag_frames + 1) as u16
                },
                ..self
            }
        } else {
            Playback { playback_started: false, buffering: false, diag_frames: 0, ..self }
        }
    }

    /// The shared state after a cycle: active, the feedback takes a step,
    /// stopped, it goes back to the base.
    pub open spec fn state_after_cycle(
        self,
        state: AudioState,
        level: int,
        base: u32,
    ) -> AudioState {
        if state.stream_active {
            crate::feedback::feedback_updated(
                state,
                level,
                crate::audio::packet_words(state.sample_rate_hz),
                base,
            )
        } else {
            crate::feedback::feedback_reset(state, base)
        }
    }

    /// What a cycle has to tell.
    pub open spec fn notice(self, state: AudioState, level: int) -> Notice {
        if !state.stream_active || self.playback_started {
            Notice::Nothing
        } else if self.plays(state.sample_rate_hz, level) {
            Notice::Started
        } else if self.buffering {
            Notice::Nothing
        } else {
            Notice::Buffering
        }
    }

    /// A loop that has not started, set up for the selected format.
    pub fn new(state: &AudioState) -> (playback: Playback)
        ensures
            playback == (Playback {
                config_version: state.config_version,
                playback_started: false,
                buffering: false,
                diag_frames: 0,
            }),
    {
        Playback {
            config_version: stream_config_version(state),
            playback_started: false,
            buffering: false,
            diag_frames: 0,
        }
    }

    /// Looks for a new stream format. With one, the FIFO is emptied, playback
    /// starts over, and the output has to be set up for what is returned.
    pub fn poll_configuration<const N: usize>(
        &mut self,
        state: &AudioState,
        fifo: &mut AudioSampleFifo<N>,
    ) -> (change: Option<Reconfiguration>)
        ensures
            state.config_version == old(self).config_version ==> {
                &&& change is None
                &&& *final(self) == *old(self)
                &&& final(fifo)@ == old(fifo)@
            },
            state.config_version != old(self).config_version ==> {
                &&& change matches Some(new) && {
                    &&& new.sample_rate_hz == state.sample_rate_hz
                    &&& new.bits_per_sample == state.bits_per_sample
                    &&& new.packet_words == crate::audio::packet_words(state.sample_rate_hz)
                    &&& new.start_level_words == start_level(state.sample_rate_hz)
                    &&& new.target_level_words == target_level(state.sample_rate_hz)
                }
                &&& *final(self) == (Playback {
                    config_version: state.config_version,
                    playback_started: false,
                    buffering: false,
                    diag_frames: 0,
                })
                &&& final(fifo)@ == Seq::<u32>::empty()
            },
    {
        let next_version: u32 = stream_config_version(state);
        if next_version == self.config_version {
            return None;
        }
        let packet_words: usize = current_i2s_packet_words(state);
        fifo.clear();
        *self = Playback::new(state);
        Some(
            Reconfiguration {
                sample_rate_hz: current_sample_rate_hz(state),
                bits_per_sample: current_bits_per_sample(state),
                packet_words,
                start_level_words: feedback_start_level_words(packet_words),
                target_level_words: feedback_target_level_words(packet_words),
            },
        )
    }

    /// Plays one millisecond: fills the front of `chunk` with the words to
    /// send, from the FIFO as far as it goes and may be played, and silence
    /// beyond. Until the FIFO has filled to its start level, and while the
    /// stream is stopped, that is silence alone.
    pub fn cycle<const N: usize>(
        &mut self,
        state: &mut AudioState,
        fifo: &mut AudioSampleFifo<N>,
        chunk: &mut [u32],
        base_feedback_value_10_14: u32,
    ) -> (report: CycleReport)
        requires
            crate::audio::packet_words(old(state).sample_rate_hz) <= old(chunk)@.len(),
            old(state).stream_active ==> crate::feedback::feedback_inputs_fit(
                old(fifo)@.len() as int,
                crate::audio::packet_words(old(state).sample_rate_hz),
                base_feedback_value_10_14 as int,
            ),
            old(state).stream_active && old(self).diagnostics_due() ==> i32::MIN
                <= crate::feedback::correction_of(
                old(self).state_after_cycle(
                    *old(state),
                    old(fifo)@.len() as int,
                    base_feedback_value_10_14,
                ),
            ) <= i32::MAX,
        ensures
            ({
                let level = old(fifo)@.len() as int;
                let active = old(state).stream_active;
                let rate = old(state).sample_rate_hz;
                let words = crate::audio::packet_words(rate);
                let taken = old(self).taken(*old(state), level);
                &&& final(chunk)@ == old(fifo)@.take(taken) + silence(words - taken) + old(
                    chunk,
                )@.skip(words)
                &&& final(fifo)@ == if active {
                    old(fifo)@.skip(taken)
                } else {
                    Seq::<u32>::empty()
                }
                &&& *final(self) == old(self).after_cycle(*old(state), level)
                &&& *final(state) == old(self).state_after_cycle(
                    *old(state),
                    level,
                    base_feedback_value_10_14,
                )
                &&& report.packet_words == words
                &&& report.written == taken
                &&& forall|i: int|
                    0 <= i < taken ==> #[trigger] final(chunk)@[i] == old(fifo)@[i]
                &&& forall|i: int| taken <= i < words ==> #[trigger] final(chunk)@[i] == 0
                &&& forall|i: int|
                    words <= i < old(chunk)@.len() ==> #[trigger] final(chunk)@[i] == old(chunk)@[i]
                &&& report.fifo_level_words == if active {
                    level
                } else {
                    0
                }
                &&& report.start_level_words == start_level(rate)
                &&& report.target_level_words == target_level(rate)
                &&& report.notice == old(self).notice(*old(state), level)
                &&& report.diagnostics is Some <==> active && old(self).diagnostics_due()
                &&& report.diagnostics matches Some(figures) ==> {
                    &&& figures.fifo_level_words == level
                    &&& figures.target_level_words == target_level(rate)
                    &&& figures.feedback_10_14 == final(state).current_feedback_10_14
                    &&& figures.correction_10_14 == crate::feedback::correction_of(*final(state))
                }
            }),
    {
        let packet_words: usize = current_i2s_packet_words(state);
        let start_level_words: usize = feedback_start_level_words(packet_words);
        let target_level_words: usize = feedback_target_level_words(packet_words);
        let active = state.stream_active;
        let mut started_this_cycle = false;
        let mut fifo_level_words: usize = 0;
        let mut written: usize = 0;
        let mut notice = Notice::Nothing;
        let mut diagnostics: Option<Diagnostics> = None;

        if active {
            fifo_level_words = fifo.len();
            if self.playback_started || fifo_level_words >= start_level_words {
                if !self.playback_started {
                    started_this_cycle = true;
                    self.playback_started = true;
                }
                let (head, _tail) = chunk.split_at_mut(packet_words);
                written = fifo.pop_slice(head);
            }
            update_feedback_control(
                state,
                fifo_level_words,
                packet_words,
                base_feedback_value_10_14,
            );
            if started_this_cycle {
                self.buffering = false;
                notice = Notice::Started;
            } else if !self.playback_started {
                if !self.buffering {
                    notice = Notice::Buffering;
                    self.buffering = true;
                }
            } else {
                self.buffering = false;
            }
            self.diag_frames = self.diag_frames.saturating_add(1);
            if self.diag_frames >= DIAGNOSTIC_PERIOD {
                self.diag_frames = 0;
                diagnostics = Some(
                    Diagnostics {
                        fifo_level_words,
                        target_level_words,
                        feedback_10_14: current_feedback_value_10_14(state),
                        correction_10_14: current_feedback_correction_10_14(state),
                    },
                );
            }
        } else {
            fifo.clear();
            self.playback_started = false;
            self.buffering = false;
            self.diag_frames = 0;
            reset_feedback_control(state, base_feedback_value_10_14);
        }

        let ghost level = old(fifo)@.len() as int;
        let ghost taken = old(self).taken(*old(state), level);
        assert(chunk@ =~= old(fifo)@.take(taken) + old(chunk)@.skip(taken));
        fill_silence(chunk, written, packet_words);
        assert(chunk@ =~= old(fifo)@.take(taken) + silence(packet_words - taken) + old(
            chunk,
        )@.skip(packet_words as int));

        CycleReport {
            packet_words,
            written,
            fifo_level_words,
            start_level_words,
            target_level_words,
            notice,
            diagnostics,
        }
    }
}

/// Silences the words from `from` up to `to`.
fn fill_silence(chunk: &mut [u32], from: usize, to: usize)
    requires
        from <= to <= old(chunk)@.len(),
    ensures
        final(chunk)@ == old(chunk)@.take(from as int) + silence(to - from) + old(chunk)@.skip(
            to as int,
        ),
{
    let mut index: usize = from;
    assert(chunk@ =~= old(chunk)@.take(from as int) + silence(0) + old(chunk)@.skip(from as int));
    while index < to
        invariant
            from <= index <= to <= old(chunk)@.len(),
            chunk@ == old(chunk)@.take(from as int) + silence(index - from) + old(chunk)@.skip(
                index as int,
            ),
        decreases to - index,
    {
        chunk[index] = 0;
        index += 1;
        assert(chunk@ =~= old(chunk)@.take(from as int) + silence(index - from) + old(chunk)@.skip(
            index as int,
        ));
    }
}

/// The levels of a supported format: playback starts below the level to hold,
/// which leaves room in the FIFO, and both are whole frames.
pub proof fn law_levels_fit_fifo(rate: u32)
    requires
        crate::audio::rate_supported(rate),
    ensures
        0 < start_level(rate) < target_level(rate) < AUDIO_FIFO_CAPACITY_WORDS,
        start_level(rate) == 6 * crate::audio::packet_words(rate),
        target_level(rate) == 12 * crate::audio::packet_words(rate),
        start_level(rate) % 2 == 0,
        target_level(rate) % 2 == 0,
        AUDIO_FIFO_CAPACITY_WORDS == 32 * crate::audio::MAX_I2S_PACKET_WORDS,
{
    crate::audio::law_supported_packets_fit(crate::audio::BITS_PER_SAMPLE_16, rate);
}

/// Playing a supported format from a FIFO of the usual size never leaves the
/// range of the control arithmetic, and keeps it so: what one cycle needs of
/// the reported value, it gives the next.
pub proof fn law_cycles_can_go_on(playback: Playback, state: AudioState, level: nat, base: u32)
    requires
        state.wf(),
        level <= AUDIO_FIFO_CAPACITY_WORDS,
        state.current_feedback_10_14 <= i32::MAX,
        base <= i32::MAX - crate::feedback::FEEDBACK_MAX_CORRECTION_10_14,
    ensures
        ({
            let words = crate::audio::packet_words(state.sample_rate_hz);
            let after = playback.state_after_cycle(state, level as int, base);
            &&& 0 < words <= crate::audio::MAX_I2S_PACKET_WORDS
            &&& crate::feedback::feedback_inputs_fit(level as int, words, base as int)
            &&& i32::MIN <= crate::feedback::correction_of(after) <= i32::MAX
            &&& after.current_feedback_10_14 <= i32::MAX
            &&& after.wf()
        }),
{
    let words = crate::audio::packet_words(state.sample_rate_hz);
    crate::audio::law_supported_packets_fit(state.bits_per_sample, state.sample_rate_hz);
    crate::feedback::law_ordinary_inputs_fit(level, words as nat, base as nat);
}

/// Whether the reported value is within the correction bound of `base`, and
/// stays within the three bytes of a packet wherever in that bound it goes.
pub open spec fn on_course(state: AudioState, base: u32) -> bool {
    let bound = crate::feedback::FEEDBACK_MAX_CORRECTION_10_14;
    &&& crate::feedback::magnitude(state.current_feedback_10_14 - base) <= bound
    &&& base + bound < 0x100_0000
}

/// Setting the output up for a supported rate puts the feedback on course, and
/// every cycle on that base keeps it there, whatever the FIFO does.
pub proof fn law_feedback_stays_on_course(
    playback: Playback,
    state: AudioState,
    sys_hz: u32,
    level: nat,
    base: u32,
)
    ensures
        state.wf() && crate::i2s::can_run(sys_hz, state.sample_rate_hz) ==> ({
            let timing = crate::i2s::config_for(sys_hz, state.sample_rate_hz).timing;
            on_course(
                crate::feedback::feedback_reset(state, timing.feedback_value_10_14),
                timing.feedback_value_10_14,
            )
        }),
        on_course(state, base) ==> on_course(
            playback.state_after_cycle(state, level as int, base),
            base,
        ),
{
    if state.wf() && crate::i2s::can_run(sys_hz, state.sample_rate_hz) {
        crate::i2s::law_real_feedback_near_nominal(sys_hz, state.sample_rate_hz);
    }
    if on_course(state, base) {
        let words = crate::audio::packet_words(state.sample_rate_hz);
        crate::feedback::law_update_keeps_correction_bounded(
            state.current_feedback_10_14 as nat,
            level,
            words as nat,
            base as nat,
        );
    }
}

/// Feedback that is on course reaches the host in full.
pub proof fn law_feedback_on_course_is_sent_in_full(state: AudioState, base: u32)
    requires
        on_course(state, base),
    ensures
        crate::feedback::packet_value(
            crate::bytes::le32(state.current_feedback_10_14).take(3).push(0),
        ) == state.current_feedback_10_14,
{
    crate::feedback::law_packet_carries_value(state.current_feedback_10_14);
}

/// A cycle loses no word while the stream runs: what it plays and what it
/// leaves in the FIFO are what was there, in order.
pub proof fn law_active_cycle_loses_nothing(playback: Playback, state: AudioState, held: Seq<u32>)
    requires
        state.stream_active,
    ensures
        ({
            let taken = playback.taken(state, held.len() as int);
            &&& 0 <= taken <= held.len()
            &&& held.take(taken) + held.skip(taken) == held
        }),
{
    let taken = playback.taken(state, held.len() as int);
    assert(0 <= crate::audio::packet_words(state.sample_rate_hz));
    assert(held.take(taken) + held.skip(taken) =~= held);
}

/// Left and right stay paired through the FIFO: with an even ring that holds
/// whole frames, receiving a packet and playing a cycle leave whole frames, and
/// a cycle sends whole frames.
pub proof fn law_frames_stay_whole(
    playback: Playback,
    state: AudioState,
    held: Seq<u32>,
    bytes: Seq<u8>,
    bits: u8,
    room: nat,
    n: nat,
)
    requires
        n % 2 == 0,
        held.len() % 2 == 0,
    ensures
        ({
            let count = crate::pcm::converted_samples(bytes.len() as int, bits, room as int);
            let slots = crate::pcm::sample_slots(bytes, bits, count as nat);
            let taken = playback.taken(state, held.len() as int);
            &&& crate::fifo::newest(held + slots, n).len() % 2 == 0
            &&& taken % 2 == 0
            &&& held.skip(taken).len() % 2 == 0
            &&& crate::audio::packet_words(state.sample_rate_hz) % 2 == 0
        }),
{
    crate::pcm::law_conversion_writes_whole_frames(bytes.len(), bits, room);
    assert(0 <= crate::audio::packet_words(state.sample_rate_hz));
}

/// Until the FIFO reaches its start level, and while the stream is stopped, a
/// cycle takes nothing, so all that plays is silence. A stop also ends playback,
/// so that the next stream fills the FIFO first.
pub proof fn law_silence_before_start_and_while_stopped(
    playback: Playback,
    state: AudioState,
    level: nat,
)
    ensures
        !state.stream_active ==> playback.taken(state, level as int) == 0
            && !playback.after_cycle(state, level as int).playback_started,
        state.stream_active && !playback.playback_started && level < start_level(
            state.sample_rate_hz,
        ) ==> playback.taken(state, level as int) == 0 && !playback.after_cycle(
            state,
            level as int,
        ).playback_started,
{
}

/// Once started, playback goes on while the stream runs, also where the FIFO
/// runs dry: it then plays what there is.
pub proof fn law_started_playback_goes_on(playback: Playback, state: AudioState, level: nat)
    requires
        state.stream_active,
        playback.playback_started || level >= start_level(state.sample_rate_hz),
    ensures
        playback.after_cycle(state, level as int).playback_started,
        playback.taken(state, level as int) == crate::fifo::smaller(
            crate::audio::packet_words(state.sample_rate_hz),
            level as int,
        ),
{
}

/// Every start and every wait for the FIFO is told once: the cycle that follows
/// one that told so, with the stream still running, tells it no more, whatever
/// has become of the shared state and the FIFO in between.
pub proof fn law_notices_come_once(
    playback: Playback,
    state: AudioState,
    level: nat,
    later: AudioState,
    next: nat,
)
    requires
        state.stream_active,
        later.stream_active,
    ensures
        ({
            let after = playback.after_cycle(state, level as int);
            &&& playback.notice(state, level as int) == Notice::Started ==> after.notice(
                later,
                next as int,
            ) == Notice::Nothing
            &&& playback.notice(state, level as int) == Notice::Buffering ==> after.notice(
                later,
                next as int,
            ) != Notice::Buffering
        }),
{
}

/// The loop's state after one cycle for each of `cycles`: the shared state that
/// the cycle finds, and the level that it finds the FIFO at.
pub open spec fn after_cycles(playback: Playback, cycles: Seq<(AudioState, int)>) -> Playback
    decreases cycles.len(),
{
    if cycles.len() == 0 {
        playback
    } else {
        after_cycles(playback, cycles.drop_last()).after_cycle(cycles.last().0, cycles.last().1)
    }
}

/// An active stream reports every thousandth cycle, whatever becomes of the rest
/// of the shared state and of the FIFO: after fewer cycles the count is their
/// number, and after a thousand it starts over.
pub proof fn law_diagnostics_every_period(playback: Playback, cycles: Seq<(AudioState, int)>)
    requires
        forall|i: int| 0 <= i < cycles.len() ==> (#[trigger] cycles[i]).0.stream_active,
        playback.diag_frames == 0,
        cycles.len() <= DIAGNOSTIC_PERIOD,
    ensures
        ({
            let after = after_cycles(playback, cycles);
            &&& cycles.len() < DIAGNOSTIC_PERIOD ==> after.diag_frames == cycles.len()
            &&& cycles.len() == DIAGNOSTIC_PERIOD ==> after.diag_frames == 0
            &&& cycles.len() < DIAGNOSTIC_PERIOD ==> (after.diagnostics_due() <==> cycles.len() + 1
                == DIAGNOSTIC_PERIOD)
        }),
    decreases cycles.len(),
{
    if cycles.len() > 0 {
        law_diagnostics_every_period(playback, cycles.drop_last());
        assert(cycles[cycles.len() - 1].0.stream_active);
    }
}

/// A loop that is set up for the selected format sees the next selection
/// exactly if it changes the format.
pub proof fn law_format_change_is_seen(playback: Playback, state: AudioState, bits: u8, rate: u32)
    requires
        playback.config_version == state.config_version,
    ensures
        ({
            let after = state.retuned(bits, rate);
            after.config_version != playback.config_version <==> (rate != state.sample_rate_hz
                || bits != state.bits_per_sample)
        }),
{
}

/// Silence is zeros.
pub proof fn law_silence_is_zeros(count: nat, i: int)
    ensures
        silence(count as int).len() == count,
        0 <= i < count ==> silence(count as int)[i] == 0,
{
}

/// Playback starts at six packets and holds twelve, at any rate.
pub proof fn law_levels_are_six_and_twelve_packets(rate: u32)
    ensures
        start_level(rate) == 6 * crate::audio::packet_words(rate),
        target_level(rate) == 12 * crate::audio::packet_words(rate),
{
}

/// What a cycle takes: nothing while stopped, and nothing before the FIFO has
/// held six packets; else a packet, or all that there is where that is less.
pub proof fn law_cycle_takes_a_packet(playback: Playback, state: AudioState, level: nat)
    ensures
        ({
            let words = crate::audio::packet_words(state.sample_rate_hz);
            let taken = playback.taken(state, level as int);
            let playing = state.stream_active && (playback.playback_started || level >= 6 * words);
            &&& !playing ==> taken == 0
            &&& playing && level <= words ==> taken == level
            &&& playing && level >= words ==> taken == words
        }),
{
}

/// What a cycle sends, word by word: the oldest words of the FIFO as far as it
/// takes any, and zeros up to a whole packet. While stopped, and before playback
/// has started on a FIFO of less than six packets, every word is zero.
pub proof fn law_cycle_sends_words_and_zeros(
    playback: Playback,
    state: AudioState,
    held: Seq<u32>,
    i: int,
)
    requires
        0 <= i < crate::audio::packet_words(state.sample_rate_hz),
    ensures
        ({
            let words = crate::audio::packet_words(state.sample_rate_hz);
            let taken = playback.taken(state, held.len() as int);
            let sent = held.take(taken) + silence(words - taken);
            &&& sent.len() == words
            &&& i < taken ==> sent[i] == held[i]
            &&& i >= taken ==> sent[i] == 0
            &&& !state.stream_active ==> sent[i] == 0
            &&& !playback.playback_started && held.len() < 6 * words ==> sent[i] == 0
        }),
{
}

/// The loop's state after a cycle, in numbers. Words leave from the cycle on
/// that finds six packets, until the stream stops; waiting is the opposite of
/// that while the stream runs; and active cycles are counted up to 999.
pub proof fn law_loop_after_a_cycle(playback: Playback, state: AudioState, level: nat)
    ensures
        ({
            let words = crate::audio::packet_words(state.sample_rate_hz);
            let after = playback.after_cycle(state, level as int);
            &&& after.config_version == playback.config_version
            &&& after.playback_started <==> state.stream_active && (playback.playback_started
                || level >= 6 * words)
            &&& after.buffering <==> state.stream_active && !after.playback_started
            &&& !state.stream_active || playback.diag_frames >= 999 ==> after.diag_frames == 0
            &&& state.stream_active && playback.diag_frames < 999 ==> after.diag_frames
                == playback.diag_frames + 1
            &&& playback.diagnostics_due() <==> playback.diag_frames >= 999
        }),
{
}

/// The shared state after a cycle: one step of the feedback while the stream
/// runs, the base while it does not. Format, activity and generation stay.
pub proof fn law_feedback_after_a_cycle(
    playback: Playback,
    state: AudioState,
    level: nat,
    base: u32,
)
    ensures
        ({
            let words = crate::audio::packet_words(state.sample_rate_hz);
            let after = playback.state_after_cycle(state, level as int, base);
            &&& after.base_feedback_10_14 == base
            &&& !state.stream_active ==> after.current_feedback_10_14 == base
            &&& state.stream_active ==> after.current_feedback_10_14
                == crate::feedback::feedback_updated(
                state,
                level as int,
                words,
                base,
            ).current_feedback_10_14
            &&& after.stream_active == state.stream_active
            &&& after.sample_rate_hz == state.sample_rate_hz
            &&& after.bits_per_sample == state.bits_per_sample
            &&& after.config_version == state.config_version
        }),
{
}

/// While a supported format plays on its base, a FIFO that is more than one
/// packet short of twelve has the host asked for more, and one that is more than
/// one packet over for less.
pub proof fn law_cycle_steers_against_the_level(
    playback: Playback,
    state: AudioState,
    level: nat,
    base: u32,
)
    requires
        state.wf(),
        state.stream_active,
        state.current_feedback_10_14 == base,
        level <= AUDIO_FIFO_CAPACITY_WORDS,
        512 <= base <= i32::MAX - crate::feedback::FEEDBACK_MAX_CORRECTION_10_14,
    ensures
        ({
            let words = crate::audio::packet_words(state.sample_rate_hz);
            let after = playback.state_after_cycle(state, level as int, base);
            &&& level < 11 * words ==> after.current_feedback_10_14 == base + 16
            &&& level > 13 * words ==> after.current_feedback_10_14 == base - 16
            &&& 11 * words <= level <= 13 * words ==> after.current_feedback_10_14 == base
        }),
{
    law_cycles_can_go_on(playback, state, level, base);
    crate::audio::law_sizes_are_least(state.bits_per_sample, state.sample_rate_hz);
    crate::feedback::law_update_steers_against_the_level(
        state,
        level,
        crate::audio::packet_frames(state.sample_rate_hz) as nat,
        base,
    );
}

/// What a cycle tells: the start, where it is the one that finds six packets,
/// and the wait, where the one before did not wait.
pub proof fn law_notice_tells_the_turn(playback: Playback, state: AudioState, level: nat)
    ensures
        ({
            let words = crate::audio::packet_words(state.sample_rate_hz);
            let notice = playback.notice(state, level as int);
            let idle = state.stream_active && !playback.playback_started;
            &&& notice == Notice::Started <==> idle && level >= 6 * words
            &&& notice == Notice::Buffering <==> idle && level < 6 * words && !playback.buffering
        }),
{
}

} // verus!
