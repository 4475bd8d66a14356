//! The typed data model: one telemetry snapshot, one wire command, and the
//! ways a raw telemetry document can fail to decode.

use vstd::prelude::*;

verus! {

/// Health is carried as a fixed-point fraction in thousandths of full
/// (`1000` means full health). The raw feed reports it as a fraction in
/// `[0.0, 1.0]`; the model keeps it as a plain integer because no current
/// command reads it — it is tracked only as an extension point.
pub const HP_SCALE_DIGITS: u16 = 3;

/// One decoded telemetry snapshot. Constructed fresh from each inbound
/// message and never mutated; the translator tracks "the previous state"
/// itself.
#[derive(Clone, Copy, Debug, PartialEq, Eq, Structural)]
pub enum GameState {
    /// The game is in no recognized mode (menus, absent fields, any mode
    /// code other than gameplay).
    Unknown,
    /// Active gameplay: the two key-press flags and the smoothed health
    /// value in thousandths of full.
    Gameplay { k1: bool, k2: bool, hp: u64 },
}

/// One wire event for the device, consumed exactly once by the encoder.
#[derive(Clone, Copy, Debug, PartialEq, Eq, Structural)]
pub enum Command {
    /// The game entered the mode carried as the payload byte.
    EnterMode(u8),
    /// The pressed state of the two keys changed.
    KeyState(bool, bool),
    /// Health changed (wire vocabulary only: never emitted by the current
    /// decision table).
    HealthUpdate(u8),
    /// Hit-timing offset (wire vocabulary only, like `HealthUpdate`).
    HitOffset(i8),
    /// Gameplay ended.
    End,
}

/// Why one raw telemetry document could not produce a `GameState`. Any of
/// these is fatal for the message and drops the telemetry connection.
#[derive(Clone, Copy, Debug, PartialEq, Eq, Structural)]
pub enum DecodeError {
    /// The document is not well-formed and could not be parsed at all.
    Malformed,
    /// `menu.state` is present but is not a number.
    MenuStateType,
    /// `gameplay.keyOverlay.k1.isPressed` is missing or not a boolean.
    Key1,
    /// `gameplay.keyOverlay.k2.isPressed` is missing or not a boolean.
    Key2,
    /// `gameplay.hp.smooth` is missing or not a non-negative number.
    Health,
}

} // verus!
