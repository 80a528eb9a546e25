use synthy::midi::{note_frequency, MidiEvent};
use synthy::voice::{Note, VoiceState};

#[test]
fn a_new_voice_is_idle() {
    let voice = VoiceState::new();
    assert_eq!(voice, VoiceState { current_note: None, enabled: false, elapsed_time: 0 });
}

#[test]
fn note_on_starts_the_voice() {
    let mut voice = VoiceState::new();
    voice.note_on(69, 127);
    assert!(voice.enabled);
    assert_eq!(voice.current_note, Some(Note { pitch: 69, velocity: 127, trigger_time: 0 }));
}

#[test]
fn note_on_while_sounding_takes_over() {
    let mut voice = VoiceState::new();
    voice.note_on(69, 127);
    voice.advance(1000);
    voice.note_on(81, 64);
    assert!(voice.enabled);
    assert_eq!(voice.current_note, Some(Note { pitch: 81, velocity: 64, trigger_time: 1000 }));
    assert_eq!(voice.elapsed_time, 1000);
}

#[test]
fn note_on_of_the_same_key_triggers_again() {
    let mut voice = VoiceState::new();
    voice.note_on(69, 127);
    voice.advance(64);
    voice.note_on(69, 127);
    assert_eq!(voice.current_note, Some(Note { pitch: 69, velocity: 127, trigger_time: 64 }));
}

#[test]
fn note_off_of_another_key_changes_nothing() {
    let mut voice = VoiceState::new();
    voice.note_on(69, 127);
    voice.advance(10);
    let before = voice;
    voice.note_off(70);
    assert_eq!(voice, before);
    voice.note_off(70);
    voice.note_off(0);
    voice.note_off(255);
    assert_eq!(voice, before);
}

#[test]
fn note_off_of_the_sounding_key_silences() {
    let mut voice = VoiceState::new();
    voice.note_on(69, 127);
    voice.advance(10);
    voice.note_off(69);
    assert!(!voice.enabled);
    assert_eq!(voice.current_note, None);
    assert_eq!(voice.elapsed_time, 10);
}

#[test]
fn note_off_while_idle_is_ignored() {
    let mut voice = VoiceState::new();
    voice.note_off(69);
    assert_eq!(voice, VoiceState::new());
}

#[test]
fn note_off_of_a_replaced_key_is_ignored() {
    let mut voice = VoiceState::new();
    voice.note_on(69, 127);
    voice.note_on(81, 127);
    voice.note_off(69);
    assert!(voice.enabled);
    assert_eq!(voice.current_note.unwrap().pitch, 81);
}

#[test]
fn the_clock_runs_only_while_sounding() {
    let mut voice = VoiceState::new();
    voice.advance(64);
    assert_eq!(voice.elapsed_time, 0);
    voice.note_on(69, 127);
    voice.advance(64);
    voice.advance(64);
    assert_eq!(voice.elapsed_time, 128);
    voice.note_off(69);
    voice.advance(64);
    assert_eq!(voice.elapsed_time, 128);
}

#[test]
fn the_clock_stops_at_its_largest_count() {
    let mut voice = VoiceState::new();
    voice.note_on(69, 127);
    voice.advance(u64::MAX - 5);
    assert_eq!(voice.elapsed_time, u64::MAX - 5);
    voice.advance(5);
    assert_eq!(voice.elapsed_time, u64::MAX);
    voice.advance(64);
    assert_eq!(voice.elapsed_time, u64::MAX);
}

#[test]
fn events_are_applied() {
    let mut voice = VoiceState::new();
    voice.apply(MidiEvent::Ignored);
    assert_eq!(voice, VoiceState::new());
    voice.apply(MidiEvent::NoteOn { key: 60, velocity: 1 });
    assert_eq!(voice.current_note, Some(Note { pitch: 60, velocity: 1, trigger_time: 0 }));
    voice.apply(MidiEvent::Ignored);
    assert!(voice.enabled);
    voice.apply(MidiEvent::NoteOff { key: 61 });
    assert!(voice.enabled);
    voice.apply(MidiEvent::NoteOff { key: 60 });
    assert!(!voice.enabled);
}

#[test]
fn reset_silences_and_rewinds() {
    let mut voice = VoiceState::new();
    voice.note_on(69, 127);
    voice.advance(500);
    voice.reset();
    assert_eq!(voice, VoiceState::new());
}

#[test]
fn concert_pitch_and_its_octaves() {
    assert_eq!(note_frequency(69), 440 << 32);
    assert_eq!(note_frequency(81), 880 << 32);
    assert_eq!(note_frequency(9), (13 << 32) + (3 << 30));
    assert_eq!(note_frequency(69) as f64 / 4294967296.0, 440.0);
    assert_eq!(note_frequency(81) as f64 / 4294967296.0, 880.0);
    assert_eq!(note_frequency(9) as f64 / 4294967296.0, 13.75);
}

#[test]
fn every_key_has_the_frequency_of_its_note() {
    for key in 0..128u8 {
        let note = wmidi::Note::from_u8_lossy(key);
        let expected = (note.to_freq_f64() * 4294967296.0) as i64;
        assert_eq!(note_frequency(key), expected);
        let equal_tempered = 440.0 * 2f64.powf((key as f64 - 69.0) / 12.0);
        let got = note_frequency(key) as f64 / 4294967296.0;
        assert!((got - equal_tempered).abs() < 1e-6 * equal_tempered);
    }
}

#[test]
fn frequencies_rise_with_the_key() {
    for key in 1..128u8 {
        assert!(note_frequency(key) > note_frequency(key - 1));
    }
}

#[test]
fn a_key_beyond_the_keyboard_wraps() {
    assert_eq!(note_frequency(128 + 69), 440 << 32);
    assert_eq!(note_frequency(128), note_frequency(0));
}
