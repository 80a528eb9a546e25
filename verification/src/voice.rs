//! The voice: which note sounds, and for how long the voice has played.
//!
//! The voice is monophonic. It is idle or it sounds one note; a new note
//! replaces the sounding one, and only the release of the sounding key
//! silences it.

use vstd::prelude::*;
use crate::midi::MidiEvent;

verus! {

/// A note as it was triggered.
#[derive(Clone, Copy, Debug, PartialEq, Eq)]
pub struct Note {
    /// The key of the note.
    pub pitch: u8,
    /// How hard the key was pressed. Kept, and not heard.
    pub velocity: u8,
    /// The elapsed time of the voice at the trigger, in samples.
    pub trigger_time: u64,
}

/// The state of the voice.
#[derive(Clone, Copy, Debug, PartialEq, Eq)]
pub struct VoiceState {
    /// The note that sounds.
    pub current_note: Option<Note>,
    /// Whether the voice sounds.
    pub enabled: bool,
    /// For how many samples the voice has sounded since the last reset.
    pub elapsed_time: u64,
}

impl VoiceState {
    /// The voice sounds exactly when it has a note, and no note was
    /// triggered in the future.
    pub open spec fn wf(self) -> bool {
        &&& self.enabled == self.current_note.is_some()
        &&& match self.current_note {
            Some(note) => note.trigger_time <= self.elapsed_time,
            None => true,
        }
    }

    /// The idle voice at time zero.
    pub open spec fn idle() -> VoiceState {
        VoiceState { current_note: None, enabled: false, elapsed_time: 0 }
    }

    /// Whether the note of `key` is the one that sounds.
    pub open spec fn sounds(self, key: u8) -> bool {
        match self.current_note {
            Some(note) => note.pitch == key,
            None => false,
        }
    }

    /// The voice after a key is pressed: it sounds the new note, triggered
    /// now, whatever it did before.
    pub open spec fn triggered(self, key: u8, velocity: u8) -> VoiceState {
        VoiceState {
            current_note: Some(Note { pitch: key, velocity, trigger_time: self.elapsed_time }),
            enabled: true,
            elapsed_time: self.elapsed_time,
        }
    }

    /// The voice after a key is released: idle where that key sounded,
    /// unchanged where it did not.
    pub open spec fn released(self, key: u8) -> VoiceState {
        if self.sounds(key) {
            VoiceState { current_note: None, enabled: false, elapsed_time: self.elapsed_time }
        } else {
            self
        }
    }

    /// The voice after an event.
    pub open spec fn after(self, event: MidiEvent) -> VoiceState {
        match event {
            MidiEvent::NoteOn { key, velocity } => self.triggered(key, velocity),
            MidiEvent::NoteOff { key } => self.released(key),
            MidiEvent::Ignored => self,
        }
    }

    /// The elapsed time after `frames` more samples, held at the largest
    /// count where it would pass it.
    pub open spec fn time_after(self, frames: u64) -> u64 {
        if self.elapsed_time + frames > u64::MAX {
            u64::MAX
        } else {
            (self.elapsed_time + frames) as u64
        }
    }

    /// The voice after a block of `frames` samples: its clock runs only
    /// while it sounds.
    pub open spec fn advanced(self, frames: u64) -> VoiceState {
        if self.enabled {
            VoiceState { elapsed_time: self.time_after(frames), ..self }
        } else {
            self
        }
    }

    /// The release of a key that does not sound changes nothing, the first
    /// time and every time after.
    pub proof fn lemma_release_of_other_key(self, key: u8)
        requires
            !self.sounds(key),
        ensures
            self.released(key) == self,
            self.released(key).released(key) == self,
    {
    }

    /// The release of the sounding key silences a sounding voice, and the
    /// clock of a silent voice stands still.
    pub proof fn lemma_release_of_sounding_key(self, key: u8, frames: u64)
        requires
            self.enabled,
            self.sounds(key),
        ensures
            !self.released(key).enabled,
            self.released(key).current_note.is_none(),
            self.released(key).advanced(frames) == self.released(key),
            self.released(key).advanced(frames).elapsed_time == self.elapsed_time,
    {
    }

    /// A pressed key takes the voice over: the voice sounds that key,
    /// triggered at the present time, whether or not it sounded before.
    pub proof fn lemma_last_note_wins(self, key: u8, velocity: u8)
        ensures
            self.triggered(key, velocity).enabled,
            self.triggered(key, velocity).sounds(key),
            self.triggered(key, velocity).current_note == Some(
                Note { pitch: key, velocity, trigger_time: self.elapsed_time },
            ),
            self.triggered(key, velocity).wf(),
    {
    }

    /// Events and blocks keep a well-formed voice well formed.
    pub proof fn lemma_wf_preserved(self, event: MidiEvent, frames: u64)
        requires
            self.wf(),
        ensures
            self.after(event).wf(),
            self.advanced(frames).wf(),
    {
    }

    /// The idle voice at time zero.
    pub fn new() -> (voice: VoiceState)
        ensures
            voice == VoiceState::idle(),
            voice.wf(),
    {
        VoiceState { current_note: None, enabled: false, elapsed_time: 0 }
    }

    /// Presses a key.
    pub fn note_on(&mut self, key: u8, velocity: u8)
        ensures
            *final(self) == old(self).triggered(key, velocity),
    {
        self.current_note = Some(Note { pitch: key, velocity, trigger_time: self.elapsed_time });
        self.enabled = true;
    }

    /// Releases a key.
    pub fn note_off(&mut self, key: u8)
        ensures
            *final(self) == old(self).released(key),
    {
        match self.current_note {
            Some(note) => {
                if note.pitch == key {
                    self.current_note = None;
                    self.enabled = false;
                }
            },
            None => {},
        }
    }

    /// Applies an event.
    pub fn apply(&mut self, event: MidiEvent)
        ensures
            *final(self) == old(self).after(event),
    {
        match event {
            MidiEvent::NoteOn { key, velocity } => self.note_on(key, velocity),
            MidiEvent::NoteOff { key } => self.note_off(key),
            MidiEvent::Ignored => {},
        }
    }

    /// Lets the clock run for a block of `frames` samples, if the voice
    /// sounds.
    pub fn advance(&mut self, frames: u64)
        ensures
            *final(self) == old(self).advanced(frames),
    {
        if self.enabled {
            self.elapsed_time = self.elapsed_time.saturating_add(frames);
        }
    }

    /// Silences the voice and sets its clock to zero.
    pub fn reset(&mut self)
        ensures
            *final(self) == VoiceState::idle(),
    {
        self.current_note = None;
        self.enabled = false;
        self.elapsed_time = 0;
    }
}

} // verus!
