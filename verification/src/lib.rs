//! A monophonic synthesizer voice engine.
//!
//! The engine turns MIDI note events and a few continuous parameters into
//! blocks of stereo samples. Every real quantity is held in fixed point, so
//! that each rule of the engine is an exact statement about integers.

pub mod fixed;
pub mod encoding;
pub mod envelope;
pub mod params;
pub mod tags;
pub mod midi;
pub mod voice;
pub mod graph;
pub mod engine;
