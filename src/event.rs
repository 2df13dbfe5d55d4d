//! MIDI note events and their translation into tuned note events: the
//! decision that the bridge's polling loop makes on each poll.

use vstd::prelude::*;
use crate::tuning::{Pitch, Tuning, pitch_den, pitch_num};

verus! {

/// Status byte of a note-on message on the first MIDI channel.
pub const NOTE_ON_STATUS: u8 = 0x90;

/// Status byte of a note-off message on the first MIDI channel.
pub const NOTE_OFF_STATUS: u8 = 0x80;

/// The largest MIDI velocity: a velocity `v` is normalised as `v / 127`.
pub const MAX_VELOCITY: u8 = 127;

/// Milliseconds that the loop sleeps after each poll.
pub const POLL_INTERVAL_MS: u64 = 8;

/// A MIDI message as read from the input device.
#[derive(Clone, Copy, Debug, PartialEq, Eq)]
pub struct RawEvent {
    pub status: u8,
    /// The note number, for note messages.
    pub data1: u8,
    /// The velocity, for note messages.
    pub data2: u8,
}

/// What kind of message a status byte announces.
#[derive(Clone, Copy, Debug, PartialEq, Eq)]
pub enum Status {
    NoteOn,
    NoteOff,
    Other,
}

pub open spec fn status_spec(status: u8) -> Status {
    if status == NOTE_ON_STATUS {
        Status::NoteOn
    } else if status == NOTE_OFF_STATUS {
        Status::NoteOff
    } else {
        Status::Other
    }
}

/// Classifies a status byte.
pub fn classify(status: u8) -> (r: Status)
    ensures
        r == status_spec(status),
{
    if status == NOTE_ON_STATUS {
        Status::NoteOn
    } else if status == NOTE_OFF_STATUS {
        Status::NoteOff
    } else {
        Status::Other
    }
}

/// A note event in the tuned note protocol.
#[derive(Clone, Copy, Debug, PartialEq, Eq)]
pub enum NoteEvent {
    /// A note starts: its id, its pitch, and its velocity as the numerator of
    /// a fraction of `MAX_VELOCITY`.
    NoteOn { id: i32, pitch: Pitch, velocity: u8 },
    /// The note with this id ends.
    NoteOff { id: i32 },
}

/// The tuned event that a MIDI message becomes, if any.
pub open spec fn translate_spec(ev: RawEvent, tuning: Tuning) -> Option<NoteEvent> {
    match status_spec(ev.status) {
        Status::NoteOn => Some(
            NoteEvent::NoteOn {
                id: ev.data1 as i32,
                pitch: Pitch {
                    num: pitch_num(ev.data1 as int, tuning.edo, tuning.ref_key, tuning.ref_pitch)
                        as i128,
                    den: pitch_den(tuning.edo, tuning.ref_key, tuning.ref_pitch) as u128,
                },
                velocity: ev.data2,
            },
        ),
        Status::NoteOff => Some(NoteEvent::NoteOff { id: ev.data1 as i32 }),
        Status::Other => None,
    }
}

/// Translates one MIDI message: a note-on becomes a note-on with the note's
/// tuned pitch and its velocity, a note-off becomes a note-off of the same
/// note, and every other message becomes nothing.
pub fn translate(ev: &RawEvent, tuning: &Tuning) -> (r: Option<NoteEvent>)
    requires
        tuning.wf(),
    ensures
        r == translate_spec(*ev, *tuning),
        r matches Some(NoteEvent::NoteOn { pitch, .. }) ==> pitch.wf(),
{
    match classify(ev.status) {
        Status::NoteOn => {
            let pitch = tuning.pitch_of(ev.data1);
            Some(NoteEvent::NoteOn { id: ev.data1 as i32, pitch, velocity: ev.data2 })
        },
        Status::NoteOff => Some(NoteEvent::NoteOff { id: ev.data1 as i32 }),
        Status::Other => None,
    }
}

/// The decision of one iteration of the polling loop: what was polled (a
/// failed read counts as nothing) gives the event to send, if any. The loop
/// then sleeps `POLL_INTERVAL_MS`, whatever came of the send.
pub fn step(tuning: &Tuning, polled: Option<RawEvent>) -> (r: Option<NoteEvent>)
    requires
        tuning.wf(),
    ensures
        r == (match polled {
            Some(ev) => translate_spec(ev, *tuning),
            None => None,
        }),
{
    match polled {
        Some(ev) => translate(&ev, tuning),
        None => None,
    }
}

} // verus!
