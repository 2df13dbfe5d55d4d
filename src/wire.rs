//! The wire form of note events: OSC messages, encoded by `rosc`.
//!
//! A note-off is the message `NOTE_OFF_ADDRESS` with the note id as its one
//! `i` (32-bit integer) argument. A note-on is the message `NOTE_ON_ADDRESS`
//! with the id, the pitch and the normalised velocity as `i`, `f`, `f`
//! arguments; its two floating-point arguments are made where the library
//! hands its events to the transport.

use vstd::prelude::*;

verus! {

/// OSC address of note-on messages.
pub const NOTE_ON_ADDRESS: &'static str = "/note_on";

/// OSC address of note-off messages.
pub const NOTE_OFF_ADDRESS: &'static str = "/note_off";

/// The bytes of an ASCII string.
pub open spec fn ascii_bytes(s: Seq<char>) -> Seq<u8> {
    s.map_values(|c: char| c as u8)
}

pub open spec fn is_ascii(s: Seq<char>) -> bool {
    forall|i: int| 0 <= i < s.len() ==> (s[i] as u32) < 128
}

/// An OSC string: the bytes followed by one to four zero bytes, so that the
/// length is a multiple of four.
pub open spec fn osc_string(b: Seq<u8>) -> Seq<u8> {
    b + Seq::new((4 - b.len() % 4) as nat, |i: int| 0u8)
}

/// The four big-endian bytes of a 32-bit two's-complement integer.
pub open spec fn be_i32(x: i32) -> Seq<u8> {
    let u: int = if x < 0 { x + 0x1_0000_0000 } else { x as int };
    seq![
        (u / 0x100_0000) as u8,
        (u / 0x1_0000 % 0x100) as u8,
        (u / 0x100 % 0x100) as u8,
        (u % 0x100) as u8,
    ]
}

/// The OSC message at address `addr` with the one integer argument `arg`:
/// the address, the type tags `,i`, and the argument.
pub open spec fn osc_int_message(addr: Seq<char>, arg: i32) -> Seq<u8> {
    osc_string(ascii_bytes(addr)) + osc_string(seq![0x2cu8, 0x69u8]) + be_i32(arg)
}

/// Relies on rosc::encoder::encode, on a packet holding one message with one
/// `OscType::Int` argument: it writes the address as an OSC string, the type
/// tags `,i` as an OSC string, and the integer in big-endian order, and it
/// always returns `Ok` when writing into a `Vec`.
#[verifier::external_body]
fn osc_encode_int_message(addr: &str, arg: i32) -> (r: Vec<u8>)
    requires
        is_ascii(addr@),
    ensures
        r@ == osc_int_message(addr@, arg),
{
    let msg = rosc::OscMessage { addr: addr.to_string(), args: vec![rosc::OscType::Int(arg)] };
    rosc::encoder::encode(&rosc::OscPacket::Message(msg)).unwrap()
}

/// The wire message of a note-off of note `id`.
pub fn encode_note_off(id: i32) -> (r: Vec<u8>)
    ensures
        r@ == osc_int_message(NOTE_OFF_ADDRESS@, id),
{
    proof {
        reveal_strlit("/note_off");
    }
    osc_encode_int_message(NOTE_OFF_ADDRESS, id)
}

} // verus!
