//! A bridge from MIDI note events to microtonal note messages: note numbers
//! are mapped to pitches of an equal division of the octave, and each note
//! event becomes one message of an OSC-based note protocol.

pub mod config;
pub mod event;
pub mod tuning;
pub mod wire;
