//! The engine: a voice, its parameters and a signal graph, played block by
//! block.

use vstd::prelude::*;
use crate::encoding::{fixed_of_binary64, is_finite_sample, lemma_silence_is_finite, sanitize,
    sanitized, SILENCE};
use crate::envelope::{envelope_gain, gain, lemma_gain_at_trigger};
use crate::fixed::{seconds, seconds_of, ONE};
use crate::graph::SignalGraph;
use crate::midi::{decode_message, decoded, note_frequency, note_frequency_bits, MidiEvent};
use crate::params::{Parameter, Parameters, ParamRange, SynthyParams};
use crate::tags::{Tag, TagTable};
use crate::voice::VoiceState;

verus! {

/// The number of samples per second before a host has set one.
pub const DEFAULT_SAMPLE_RATE: u32 = 41_000;

/// Why a block was not processed.
#[derive(Clone, Copy, Debug, PartialEq, Eq, Structural)]
pub enum ProcessError {
    /// The host did not hand over exactly two output channels.
    ChannelMismatch,
}

/// Everything the engine knows besides the graph itself.
#[derive(Clone, Copy, Debug, PartialEq, Eq)]
pub struct EngineState {
    /// Samples per second.
    pub sample_rate: u32,
    /// The normalized values that a host automates.
    pub parameters: Parameters,
    /// The declared parameters and their ranges.
    pub declared: SynthyParams,
    /// What was last written to each modulation input of the graph.
    pub tags: TagTable,
    /// The voice.
    pub voice: VoiceState,
}

impl EngineState {
    /// The sample rate is positive, the declared ranges are well formed and
    /// so is the voice.
    pub open spec fn wf(self) -> bool {
        &&& self.sample_rate > 0
        &&& self.declared.wf()
        &&& self.voice.wf()
    }

    /// The state of a new engine.
    pub open spec fn initial() -> EngineState {
        EngineState {
            sample_rate: DEFAULT_SAMPLE_RATE,
            parameters: Parameters { freq: 28836, modulation: 0x1_0000, amplitude: 0x8000 },
            declared: SynthyParams::default_declared(),
            tags: TagTable { freq: 0x1b8_0000_0000, modulation: ONE, note_on: 0 },
            voice: VoiceState::idle(),
        }
    }

    /// The present time of the voice, in seconds.
    pub open spec fn now(self) -> i64 {
        seconds_of(self.voice.elapsed_time, self.sample_rate) as i64
    }

    /// The state after an event. A pressed key also stamps the present time
    /// into the trigger input of the graph.
    pub open spec fn after_event(self, event: MidiEvent) -> EngineState {
        match event {
            MidiEvent::NoteOn { key, velocity } => EngineState {
                tags: TagTable { note_on: self.now(), ..self.tags },
                voice: self.voice.triggered(key, velocity),
                ..self
            },
            _ => EngineState { voice: self.voice.after(event), ..self },
        }
    }

    /// The state after a sequence of raw messages, each decoded and applied
    /// in turn.
    pub open spec fn after_messages(self, messages: Seq<Vec<u8>>) -> EngineState
        decreases messages.len(),
    {
        if messages.len() == 0 {
            self
        } else {
            self.after_messages(messages.drop_last()).after_event(decoded(messages.last()@))
        }
    }

    /// The modulation depth that a block feeds to the graph: the normalized
    /// parameter, mapped through its declared range.
    pub open spec fn block_modulation(self) -> i64 {
        self.declared.modulation.range.mapped(self.parameters.modulation as int) as i64
    }

    /// The frequency that a block feeds to the graph: that of the sounding
    /// note, or what was there before where there is none.
    pub open spec fn block_frequency(self) -> i64 {
        match self.voice.current_note {
            Some(note) => fixed_of_binary64(note_frequency_bits(note.pitch)) as i64,
            None => self.tags.freq,
        }
    }

    /// The state after a block of `frames` samples.
    pub open spec fn after_block(self, frames: u64) -> EngineState {
        EngineState {
            tags: TagTable {
                freq: self.block_frequency(),
                modulation: self.block_modulation(),
                note_on: self.tags.note_on,
            },
            voice: self.voice.advanced(frames),
            ..self
        }
    }

    /// The state after the host has set a sample rate: the voice is idle
    /// and its clock at zero.
    pub open spec fn after_rate(self, rate: u32) -> EngineState {
        EngineState { sample_rate: rate, voice: VoiceState::idle(), ..self }
    }

    /// The gain of the envelope at the present time.
    pub open spec fn envelope(self) -> int {
        gain(self.now() - self.tags.note_on)
    }

    /// A pressed key brings the envelope back to one, whatever it was.
    pub proof fn lemma_trigger_restores_gain(self, key: u8, velocity: u8)
        ensures
            self.after_event(MidiEvent::NoteOn { key, velocity }).envelope() == ONE,
    {
        lemma_gain_at_trigger(0);
    }

    /// A block does not move the clock of a silent voice, and moves that of
    /// a sounding voice by the length of the block.
    pub proof fn lemma_block_clock(self, frames: u64)
        ensures
            !self.voice.enabled ==> self.after_block(frames).voice == self.voice,
            self.voice.enabled ==> self.after_block(frames).voice.elapsed_time
                == self.voice.time_after(frames),
    {
    }

    /// Events, blocks and sample rates keep a well-formed state well formed.
    pub proof fn lemma_wf_preserved(self, event: MidiEvent, frames: u64, rate: u32)
        requires
            self.wf(),
        ensures
            self.after_event(event).wf(),
            self.after_block(frames).wf(),
            rate > 0 ==> self.after_rate(rate).wf(),
    {
    }

    /// The state of a new engine.
    pub fn new() -> (state: EngineState)
        ensures
            state == EngineState::initial(),
            state.wf(),
    {
        EngineState {
            sample_rate: DEFAULT_SAMPLE_RATE,
            parameters: Parameters::default(),
            declared: SynthyParams::default(),
            tags: TagTable::new(ONE),
            voice: VoiceState::new(),
        }
    }

    /// Tells whether the state is well formed.
    pub fn is_valid(&self) -> (valid: bool)
        ensures
            valid == self.wf(),
    {
        let voice_valid: bool = match self.voice.current_note {
            Some(note) => self.voice.enabled && note.trigger_time <= self.voice.elapsed_time,
            None => !self.voice.enabled,
        };
        self.sample_rate > 0 && self.declared.modulation.range.is_valid()
            && self.declared.freq.range.is_valid() && self.declared.amplitude.range.is_valid()
            && voice_valid
    }

    /// Applies an event.
    pub fn handle(&mut self, event: MidiEvent)
        requires
            old(self).wf(),
        ensures
            *final(self) == old(self).after_event(event),
            final(self).wf(),
    {
        match event {
            MidiEvent::NoteOn { key, velocity } => {
                self.tags.note_on = seconds(self.voice.elapsed_time, self.sample_rate);
                self.voice.note_on(key, velocity);
            },
            MidiEvent::NoteOff { key } => {
                self.voice.note_off(key);
            },
            MidiEvent::Ignored => {},
        }
    }

    /// Prepares a block of `frames` samples: reads the parameters, sets the
    /// modulation inputs and lets the clock of a sounding voice run. Tells
    /// whether the graph is to be played for this block; where it is not,
    /// the block is silent.
    pub fn prepare_block(&mut self, frames: u64) -> (play: bool)
        requires
            old(self).wf(),
        ensures
            *final(self) == old(self).after_block(frames),
            play == old(self).voice.enabled,
            final(self).wf(),
    {
        self.tags.modulation = self.declared.modulation.range.map(self.parameters.modulation);
        match self.voice.current_note {
            Some(note) => {
                self.tags.freq = note_frequency(note.pitch);
            },
            None => {},
        }
        let play: bool = self.voice.enabled;
        self.voice.advance(frames);
        play
    }

    /// Takes a new sample rate: silences the voice and sets its clock to
    /// zero.
    pub fn set_sample_rate(&mut self, rate: u32)
        requires
            rate > 0,
        ensures
            *final(self) == old(self).after_rate(rate),
            old(self).wf() ==> final(self).wf(),
    {
        self.sample_rate = rate;
        self.voice.reset();
    }

    /// The gain of the envelope at the present time, between zero and one.
    pub fn envelope_gain(&self) -> (level: i64)
        requires
            self.wf(),
        ensures
            level == self.envelope(),
            0 <= level <= ONE,
    {
        envelope_gain(seconds(self.voice.elapsed_time, self.sample_rate), self.tags.note_on)
    }
}

/// What a block leaves in one channel: `frames` finite samples, all of them
/// silence where the block is silent, and behind them what was there before.
pub open spec fn block_written(before: Seq<u32>, after: Seq<u32>, frames: int, silent: bool)
    -> bool {
    &&& after.len() == before.len()
    &&& forall|i: int|
        0 <= i < frames && i < after.len() ==> is_finite_sample(#[trigger] after[i]) && (silent
            ==> after[i] == SILENCE)
    &&& forall|i: int| frames <= i < after.len() ==> #[trigger] after[i] == before[i]
}

/// The number of frames in a pair of channels: the length of the shorter.
pub open spec fn frames_of(left: Seq<u32>, right: Seq<u32>) -> int {
    if left.len() <= right.len() {
        left.len() as int
    } else {
        right.len() as int
    }
}

/// Writes one frame into the channels at position `at`: each sample as the
/// graph played it where it is finite, and as silence where it is not.
pub fn write_frame(left: &mut Vec<u32>, right: &mut Vec<u32>, at: usize, frame: (u32, u32))
    requires
        at < old(left)@.len(),
        at < old(right)@.len(),
    ensures
        final(left)@ == old(left)@.update(at as int, sanitized(frame.0)),
        final(right)@ == old(right)@.update(at as int, sanitized(frame.1)),
{
    left.set(at, sanitize(frame.0));
    right.set(at, sanitize(frame.1));
}

/// The synthesizer: an engine state and the graph that it plays.
pub struct Synthy<G: SignalGraph> {
    /// The signal graph.
    pub audio: G,
    /// Everything else.
    pub state: EngineState,
}

impl<G: SignalGraph> Synthy<G> {
    /// A synthesizer that plays `audio`. The modulation inputs of the graph
    /// are written once, so that graph and engine start out agreeing.
    pub fn new(audio: G) -> (synth: Self)
        ensures
            synth.state == EngineState::initial(),
            synth.state.wf(),
    {
        let mut synth = Synthy { audio, state: EngineState::new() };
        synth.send_tag(Tag::Freq);
        synth.send_tag(Tag::Modulation);
        synth.send_tag(Tag::NoteOn);
        synth
    }

    /// Writes what the table holds for `tag` to the graph.
    fn send_tag(&mut self, tag: Tag)
        ensures
            final(self).state == old(self).state,
    {
        let id: i64 = tag.id();
        let value: i64 = self.state.tags.get(id);
        self.audio.set_tag(id, value);
    }

    /// Writes `value` to a modulation input of the graph.
    pub fn set_tag(&mut self, tag: Tag, value: i64)
        ensures
            final(self).state == (EngineState {
                tags: old(self).state.tags.with_value(tag, value),
                ..old(self).state
            }),
    {
        self.state.tags.set(tag.id(), value);
        self.send_tag(tag);
    }

    /// Writes a parameter, mapped through `range`, to a modulation input of
    /// the graph.
    pub fn set_tag_with_param(&mut self, tag: Tag, param: Parameter, range: ParamRange)
        requires
            range.wf(),
        ensures
            final(self).state == (EngineState {
                tags: old(self).state.tags.with_value(
                    tag,
                    range.mapped(old(self).state.parameters.value_of(param) as int) as i64,
                ),
                ..old(self).state
            }),
    {
        let value: i32 = self.state.parameters.get_parameter(param.index());
        let mapped: i64 = range.map(value);
        self.set_tag(tag, mapped);
    }

    /// Applies an event and tells the graph of a new trigger.
    pub fn handle(&mut self, event: MidiEvent)
        requires
            old(self).state.wf(),
        ensures
            final(self).state == old(self).state.after_event(event),
            final(self).state.wf(),
    {
        self.state.handle(event);
        self.send_tag(Tag::NoteOn);
    }

    /// Decodes the raw messages of a host and applies each in turn. What
    /// does not decode to a note message is dropped.
    pub fn process_events(&mut self, events: &Vec<Vec<u8>>)
        requires
            old(self).state.wf(),
        ensures
            final(self).state == old(self).state.after_messages(events@),
            final(self).state.wf(),
    {
        let ghost start = self.state;
        let mut i: usize = 0;
        while i < events.len()
            invariant
                i <= events.len(),
                self.state == start.after_messages(events@.take(i as int)),
                self.state.wf(),
            decreases events.len() - i,
        {
            let event: MidiEvent = decode_message(events[i].as_slice());
            self.handle(event);
            proof {
                let next = events@.take(i + 1);
                assert(next.drop_last() =~= events@.take(i as int));
                assert(next.last() == events@[i as int]);
            }
            i += 1;
        }
        proof {
            assert(events@.take(events.len() as int) =~= events@);
        }
    }

    /// Takes a new sample rate from the host and resets the graph for it.
    pub fn set_sample_rate(&mut self, rate: u32)
        requires
            rate > 0,
        ensures
            final(self).state == old(self).state.after_rate(rate),
            old(self).state.wf() ==> final(self).state.wf(),
    {
        self.state.set_sample_rate(rate);
        self.audio.reset(rate);
    }

    /// Processes one block into the output channels of a host.
    ///
    /// With any number of channels but two the block fails and nothing is
    /// touched. With two, the block has as many frames as the shorter
    /// channel. A sounding voice plays the graph for that many frames; a
    /// sample that is an infinity or a NaN is written as silence. A silent
    /// voice writes silence and does not play the graph.
    pub fn process(&mut self, outputs: &mut Vec<Vec<u32>>) -> (result: Result<(), ProcessError>)
        requires
            old(self).state.wf(),
        ensures
            old(outputs)@.len() != 2 ==> result == Err::<(), ProcessError>(
                ProcessError::ChannelMismatch,
            ) && *final(outputs) == *old(outputs) && *final(self) == *old(self),
            old(outputs)@.len() == 2 ==> {
                let frames = frames_of(old(outputs)@[0]@, old(outputs)@[1]@);
                &&& result == Ok::<(), ProcessError>(())
                &&& final(outputs)@.len() == 2
                &&& block_written(
                    old(outputs)@[0]@,
                    final(outputs)@[0]@,
                    frames,
                    !old(self).state.voice.enabled,
                )
                &&& block_written(
                    old(outputs)@[1]@,
                    final(outputs)@[1]@,
                    frames,
                    !old(self).state.voice.enabled,
                )
                &&& final(self).state == old(self).state.after_block(frames as u64)
                &&& final(self).state.wf()
            },
    {
        if outputs.len() != 2 {
            return Err(ProcessError::ChannelMismatch);
        }
        let mut right: Vec<u32> = outputs.pop().unwrap();
        let mut left: Vec<u32> = outputs.pop().unwrap();
        let ghost left_before = left@;
        let ghost right_before = right@;
        let frames: usize = if left.len() <= right.len() {
            left.len()
        } else {
            right.len()
        };
        let play: bool = self.state.prepare_block(frames as u64);
        self.send_tag(Tag::Modulation);
        self.send_tag(Tag::Freq);
        let ghost prepared = self.state;
        let mut i: usize = 0;
        while i < frames
            invariant
                i <= frames,
                frames <= left.len(),
                frames <= right.len(),
                self.state == prepared,
                block_written(left_before.take(i as int), left@.take(i as int), i as int, !play),
                block_written(right_before.take(i as int), right@.take(i as int), i as int, !play),
                left@.len() == left_before.len(),
                right@.len() == right_before.len(),
                forall|j: int| i <= j < left@.len() ==> left@[j] == left_before[j],
                forall|j: int| i <= j < right@.len() ==> right@[j] == right_before[j],
            decreases frames - i,
        {
            let ghost left_done = left@;
            let ghost right_done = right@;
            let frame: (u32, u32) = if play {
                self.audio.tick()
            } else {
                (SILENCE, SILENCE)
            };
            proof {
                lemma_silence_is_finite();
            }
            write_frame(&mut left, &mut right, i, frame);
            proof {
                assert forall|j: int| 0 <= j < i + 1 implies is_finite_sample(
                    #[trigger] left@.take(i + 1)[j],
                ) && (!play ==> left@.take(i + 1)[j] == SILENCE) by {
                    if j < i {
                        assert(left@.take(i + 1)[j] == left_done.take(i as int)[j]);
                    }
                }
                assert forall|j: int| 0 <= j < i + 1 implies is_finite_sample(
                    #[trigger] right@.take(i + 1)[j],
                ) && (!play ==> right@.take(i + 1)[j] == SILENCE) by {
                    if j < i {
                        assert(right@.take(i + 1)[j] == right_done.take(i as int)[j]);
                    }
                }
            }
            i += 1;
        }
        proof {
            assert forall|j: int| 0 <= j < frames && j < left@.len() implies is_finite_sample(
                #[trigger] left@[j],
            ) && (!play ==> left@[j] == SILENCE) by {
                assert(left@[j] == left@.take(frames as int)[j]);
            }
            assert forall|j: int| 0 <= j < frames && j < right@.len() implies is_finite_sample(
                #[trigger] right@[j],
            ) && (!play ==> right@[j] == SILENCE) by {
                assert(right@[j] == right@.take(frames as int)[j]);
            }
        }
        outputs.push(left);
        outputs.push(right);
        Ok(())
    }
}

} // verus!
