//! MIDI messages, as far as a monophonic voice listens to them.

use vstd::prelude::*;
use crate::encoding::{fixed_from_binary64, fixed_of_binary64};

verus! {

/// What a MIDI message means to the voice.
#[derive(Clone, Copy, Debug, PartialEq, Eq, Structural)]
pub enum MidiEvent {
    /// A key was pressed.
    NoteOn { key: u8, velocity: u8 },
    /// A key was released.
    NoteOff { key: u8 },
    /// Any other message, and any sequence of bytes that is no message.
    Ignored,
}

/// The meaning of the bytes of a message. A note message is a status byte
/// with the high nibble `0x9` (on) or `0x8` (off) and two data bytes below
/// `0x80`, the key and the velocity; the channel in the low nibble is not
/// looked at. A note-on of velocity zero releases the key.
pub open spec fn decoded(bytes: Seq<u8>) -> MidiEvent {
    if bytes.len() >= 3 && bytes[1] < 0x80 && bytes[2] < 0x80 {
        if bytes[0] & 0xf0 == 0x90 && bytes[2] != 0 {
            MidiEvent::NoteOn { key: bytes[1], velocity: bytes[2] }
        } else if bytes[0] & 0xf0 == 0x90 || bytes[0] & 0xf0 == 0x80 {
            MidiEvent::NoteOff { key: bytes[1] }
        } else {
            MidiEvent::Ignored
        }
    } else {
        MidiEvent::Ignored
    }
}

/// The binary64 encoding of the frequency of a key in Hz, in the standard
/// tuning that puts key 69 at 440 Hz.
pub uninterp spec fn note_frequency_bits(key: u8) -> u64;

/// Decodes a message with `wmidi::MidiMessage::try_from`. Trusted: that the
/// decoder reports a note-on exactly for a status `0x9n` followed by two data
/// bytes of which the second is not zero, a note-off exactly for a status
/// `0x8n` followed by two data bytes or a note-on of velocity zero, each with
/// the first data byte as its key, and anything else as another message or
/// an error.
#[verifier::external_body]
pub(crate) fn decode_message(bytes: &[u8]) -> (event: MidiEvent)
    ensures
        event == decoded(bytes@),
{
    match wmidi::MidiMessage::try_from(bytes) {
        Ok(wmidi::MidiMessage::NoteOn(_, note, velocity)) => MidiEvent::NoteOn {
            key: u8::from(note),
            velocity: u8::from(velocity),
        },
        Ok(wmidi::MidiMessage::NoteOff(_, note, _)) => MidiEvent::NoteOff { key: u8::from(note) },
        _ => MidiEvent::Ignored,
    }
}

/// Looks the frequency of a key up with `wmidi::Note::to_freq_f64`, on the
/// note that `wmidi::Note::from_u8_lossy` makes of the key. Trusted: that
/// the frequency depends on the key alone.
#[verifier::external_body]
pub(crate) fn frequency_bits(key: u8) -> (bits: u64)
    ensures
        bits == note_frequency_bits(key),
{
    wmidi::Note::from_u8_lossy(key).to_freq_f64().to_bits()
}

/// The frequency of a key in Hz, in 32.32 fixed point.
pub fn note_frequency(key: u8) -> (hz: i64)
    ensures
        hz == fixed_of_binary64(note_frequency_bits(key)),
{
    fixed_from_binary64(frequency_bits(key))
}

} // verus!
