//! The fixed binary wire protocol: each [`Command`] maps to a tag-prefixed
//! byte sequence with no length prefix or checksum — the firmware infers the
//! payload length from the tag byte.

use vstd::prelude::*;

use crate::state::Command;

verus! {

/// The unsigned byte that carries a signed hit offset on the wire: the
/// two's-complement reinterpretation of `o`.
pub open spec fn spec_offset_byte(o: i8) -> u8 {
    if o >= 0 {
        o as u8
    } else {
        (o + 256) as u8
    }
}

/// The signed offset a wire byte stands for: inverse of [`spec_offset_byte`].
pub open spec fn spec_byte_offset(b: u8) -> i8 {
    if b < 128 {
        b as i8
    } else {
        (b - 256) as i8
    }
}

/// The exact wire bytes of one command.
pub open spec fn spec_encode(c: Command) -> Seq<u8> {
    match c {
        Command::EnterMode(mode) => seq![0u8, mode],
        Command::KeyState(k1, k2) => seq![
            1u8,
            if k1 { 1u8 } else { 0u8 },
            if k2 { 1u8 } else { 0u8 },
        ],
        Command::HealthUpdate(hp) => seq![2u8, hp],
        Command::HitOffset(o) => seq![3u8, spec_offset_byte(o)],
        Command::End => seq![4u8],
    }
}

/// The command a byte sequence stands for, if it is exactly one well-formed
/// wire message: the tag byte decides the expected length and payload shape.
/// Key-state payload bytes must be literal `0` or `1`, as the encoder writes
/// them.
pub open spec fn spec_decode(bytes: Seq<u8>) -> Option<Command> {
    if bytes.len() == 2 && bytes[0] == 0 {
        Some(Command::EnterMode(bytes[1]))
    } else if bytes.len() == 3 && bytes[0] == 1 && bytes[1] <= 1 && bytes[2] <= 1 {
        Some(Command::KeyState(bytes[1] == 1, bytes[2] == 1))
    } else if bytes.len() == 2 && bytes[0] == 2 {
        Some(Command::HealthUpdate(bytes[1]))
    } else if bytes.len() == 2 && bytes[0] == 3 {
        Some(Command::HitOffset(spec_byte_offset(bytes[1])))
    } else if bytes.len() == 1 && bytes[0] == 4 {
        Some(Command::End)
    } else {
        None
    }
}

/// Two's-complement byte of a signed offset.
pub fn offset_byte(o: i8) -> (b: u8)
    ensures
        b == spec_offset_byte(o),
{
    if o >= 0 {
        o as u8
    } else {
        ((o as i16) + 256) as u8
    }
}

/// Encodes one command into its wire bytes, exactly as the protocol table
/// fixes them.
pub fn encode(c: &Command) -> (bytes: Vec<u8>)
    ensures
        bytes@ == spec_encode(*c),
{
    match *c {
        Command::EnterMode(mode) => vec![0u8, mode],
        Command::KeyState(k1, k2) => vec![
            1u8,
            if k1 { 1u8 } else { 0u8 },
            if k2 { 1u8 } else { 0u8 },
        ],
        Command::HealthUpdate(hp) => vec![2u8, hp],
        Command::HitOffset(o) => vec![3u8, offset_byte(o)],
        Command::End => vec![4u8],
    }
}

/// Decodes one full wire message back into its command: the firmware's view
/// of the bytes. Returns `None` on anything that is not exactly one
/// well-formed message.
pub fn decode_command(bytes: &[u8]) -> (r: Option<Command>)
    ensures
        r == spec_decode(bytes@),
{
    if bytes.len() == 2 && bytes[0] == 0 {
        Some(Command::EnterMode(bytes[1]))
    } else if bytes.len() == 3 && bytes[0] == 1 && bytes[1] <= 1 && bytes[2] <= 1 {
        Some(Command::KeyState(bytes[1] == 1, bytes[2] == 1))
    } else if bytes.len() == 2 && bytes[0] == 2 {
        Some(Command::HealthUpdate(bytes[1]))
    } else if bytes.len() == 2 && bytes[0] == 3 {
        let b = bytes[1];
        let o: i8 = if b < 128 {
            b as i8
        } else {
            ((b as i16) - 256) as i8
        };
        Some(Command::HitOffset(o))
    } else if bytes.len() == 1 && bytes[0] == 4 {
        Some(Command::End)
    } else {
        None
    }
}

/// Round trip: encoding any command and handing the bytes to the firmware's
/// decoder reproduces the command exactly, including the two's-complement
/// reinterpretation of negative hit offsets.
pub proof fn lemma_round_trip(c: Command)
    ensures
        spec_decode(spec_encode(c)) == Some(c),
{
}

} // verus!
