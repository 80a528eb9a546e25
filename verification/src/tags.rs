//! The modulation inputs of the signal graph.
//!
//! A tag is a slot of the graph that the engine writes from outside. The
//! table keeps what was last written to each slot. A slot is addressed by a
//! small integer; an integer that addresses no slot is tolerated.

use vstd::prelude::*;

verus! {

/// What a lookup of an unknown slot returns.
pub const UNKNOWN_TAG_VALUE: i64 = 0;

/// The frequency that the graph plays before any note: 440 Hz.
pub const DEFAULT_FREQUENCY: i64 = 0x1b8_0000_0000;

/// The slots of the graph.
#[derive(Clone, Copy, Debug, PartialEq, Eq, Structural)]
pub enum Tag {
    /// The frequency of the oscillator, in Hz.
    Freq,
    /// The depth of the frequency modulation.
    Modulation,
    /// The time at which the sounding note was triggered, in seconds.
    NoteOn,
}

impl Tag {
    /// The integer that addresses this slot.
    pub open spec fn id_of(self) -> int {
        match self {
            Tag::Freq => 0,
            Tag::Modulation => 1,
            Tag::NoteOn => 2,
        }
    }

    /// The slot that `id` addresses, if there is one.
    pub open spec fn of_id(id: int) -> Option<Tag> {
        if id == 0 {
            Some(Tag::Freq)
        } else if id == 1 {
            Some(Tag::Modulation)
        } else if id == 2 {
            Some(Tag::NoteOn)
        } else {
            None
        }
    }

    /// Every slot is found again under its own integer.
    pub proof fn lemma_id_round_trip(self)
        ensures
            Tag::of_id(self.id_of()) == Some(self),
    {
    }

    /// The integer that addresses this slot.
    pub fn id(self) -> (id: i64)
        ensures
            id == self.id_of(),
    {
        match self {
            Tag::Freq => 0,
            Tag::Modulation => 1,
            Tag::NoteOn => 2,
        }
    }

    /// Looks a slot up by its integer.
    pub fn from_id(id: i64) -> (tag: Option<Tag>)
        ensures
            tag == Tag::of_id(id as int),
    {
        if id == 0 {
            Some(Tag::Freq)
        } else if id == 1 {
            Some(Tag::Modulation)
        } else if id == 2 {
            Some(Tag::NoteOn)
        } else {
            None
        }
    }
}

/// The value last written to each slot, in 32.32 fixed point.
#[derive(Clone, Copy, Debug, PartialEq, Eq, Structural)]
pub struct TagTable {
    pub freq: i64,
    pub modulation: i64,
    pub note_on: i64,
}

impl TagTable {
    /// The value in the slot `tag`.
    pub open spec fn value_of(self, tag: Tag) -> i64 {
        match tag {
            Tag::Freq => self.freq,
            Tag::Modulation => self.modulation,
            Tag::NoteOn => self.note_on,
        }
    }

    /// The table with `value` in the slot `tag` and every other slot kept.
    pub open spec fn with_value(self, tag: Tag, value: i64) -> TagTable {
        match tag {
            Tag::Freq => TagTable { freq: value, ..self },
            Tag::Modulation => TagTable { modulation: value, ..self },
            Tag::NoteOn => TagTable { note_on: value, ..self },
        }
    }

    /// What a read at `id` returns: zero where `id` addresses no slot.
    pub open spec fn read(self, id: int) -> i64 {
        match Tag::of_id(id) {
            Some(tag) => self.value_of(tag),
            None => UNKNOWN_TAG_VALUE,
        }
    }

    /// The table after a write at `id`: unchanged where `id` addresses no
    /// slot.
    pub open spec fn written(self, id: int, value: i64) -> TagTable {
        match Tag::of_id(id) {
            Some(tag) => self.with_value(tag, value),
            None => self,
        }
    }

    /// A read after a write to the same slot returns what was written, and a
    /// read at any other integer returns what it did before.
    pub proof fn lemma_read_after_write(self, written: int, value: i64, read: int)
        ensures
            self.written(written, value).read(read) == if read == written && Tag::of_id(
                written,
            ).is_some() {
                value
            } else {
                self.read(read)
            },
    {
    }

    /// The table of a new graph: 440 Hz, the given modulation depth, and a
    /// trigger at time zero.
    pub fn new(modulation: i64) -> (table: TagTable)
        ensures
            table == (TagTable { freq: DEFAULT_FREQUENCY, modulation, note_on: 0 }),
    {
        TagTable { freq: DEFAULT_FREQUENCY, modulation, note_on: 0 }
    }

    /// Reads the slot that `id` addresses.
    pub fn get(&self, id: i64) -> (value: i64)
        ensures
            value == self.read(id as int),
    {
        match Tag::from_id(id) {
            Some(Tag::Freq) => self.freq,
            Some(Tag::Modulation) => self.modulation,
            Some(Tag::NoteOn) => self.note_on,
            None => UNKNOWN_TAG_VALUE,
        }
    }

    /// Writes `value` to the slot that `id` addresses.
    pub fn set(&mut self, id: i64, value: i64)
        ensures
            *final(self) == old(self).written(id as int, value),
    {
        match Tag::from_id(id) {
            Some(Tag::Freq) => {
                self.freq = value;
            },
            Some(Tag::Modulation) => {
                self.modulation = value;
            },
            Some(Tag::NoteOn) => {
                self.note_on = value;
            },
            None => {},
        }
    }
}

} // verus!
