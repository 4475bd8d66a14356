//! The telemetry decoder: turns one raw inbound document into a typed
//! [`GameState`]. The JSON parsing itself is the `json` crate's work,
//! reached through one trusted wrapper; what each extracted field reads as
//! is a pure function of the document text, so every read is given a name
//! over the text, and [`decode_game_state`]'s result is pinned, through
//! [`spec_interpret`], for every input the parser accepts.

use vstd::prelude::*;

use crate::state::DecodeError;
use crate::state::GameState;
use crate::state::HP_SCALE_DIGITS;

verus! {

/// Whether `json::parse` accepts a text as one well-formed document.
pub uninterp spec fn parses(raw: Seq<char>) -> bool;

/// Whether `menu.state` reads as JSON null in this text: the member, or a
/// whole level of its path, is missing, or is a literal null.
pub uninterp spec fn menu_absent_of(raw: Seq<char>) -> bool;

/// Whether `menu.state` reads as a JSON number in this text.
pub uninterp spec fn menu_numeric_of(raw: Seq<char>) -> bool;

/// What `menu.state` reads as when asked for an unsigned byte: `Some`
/// exactly for a number the crate can represent that way.
pub uninterp spec fn menu_state_of(raw: Seq<char>) -> Option<u8>;

/// What `gameplay.keyOverlay.k1.isPressed` reads as when asked for a
/// boolean: `Some` exactly for a JSON boolean.
pub uninterp spec fn key1_of(raw: Seq<char>) -> Option<bool>;

/// What `gameplay.keyOverlay.k2.isPressed` reads as when asked for a
/// boolean: `Some` exactly for a JSON boolean.
pub uninterp spec fn key2_of(raw: Seq<char>) -> Option<bool>;

/// What `gameplay.hp.smooth` reads as at a fixed decimal point: `Some`
/// exactly for a non-negative number, scaled by ten to the `point`.
pub uninterp spec fn health_of(raw: Seq<char>, point: u16) -> Option<u64>;

/// The plain values one parsed telemetry document yields at the paths the
/// decoder reads. Each field is a pure function of the document text.
pub struct TelemetryFields {
    /// `menu.state` reads as null (missing path or literal null).
    pub menu_absent: bool,
    /// `menu.state` reads as a number.
    pub menu_numeric: bool,
    /// `menu.state` as an unsigned byte, where representable.
    pub menu_state: Option<u8>,
    /// `gameplay.keyOverlay.k1.isPressed` as a boolean.
    pub key1: Option<bool>,
    /// `gameplay.keyOverlay.k2.isPressed` as a boolean.
    pub key2: Option<bool>,
    /// `gameplay.hp.smooth` as a non-negative fixed-point integer.
    pub health: Option<u64>,
}

/// Relies on `json::parse` and, on the parsed value, json's `Index<&str>`
/// (the member of an object, JSON null for a missing member or a
/// non-object) with `is_null`, `is_number`, `as_u8`, `as_bool` and
/// `as_fixed_point_u64`. The parser accepts or rejects on the text alone,
/// and each read depends on the text (and the scale `point`) alone, so
/// every result is tied to its name over the text.
#[verifier::external_body]
fn read_fields(raw: &str, point: u16) -> (r: Option<TelemetryFields>)
    ensures
        r is Some <==> parses(raw@),
        r matches Some(f) ==> f.menu_absent == menu_absent_of(raw@),
        r matches Some(f) ==> f.menu_numeric == menu_numeric_of(raw@),
        r matches Some(f) ==> f.menu_state == menu_state_of(raw@),
        r matches Some(f) ==> f.key1 == key1_of(raw@),
        r matches Some(f) ==> f.key2 == key2_of(raw@),
        r matches Some(f) ==> f.health == health_of(raw@, point),
{
    let doc = match json::parse(raw) { Ok(d) => d, Err(_) => return None };
    let state = &doc["menu"]["state"];
    let overlay = &doc["gameplay"]["keyOverlay"];
    Some(TelemetryFields {
        menu_absent: state.is_null(),
        menu_numeric: state.is_number(),
        menu_state: state.as_u8(),
        key1: overlay["k1"]["isPressed"].as_bool(),
        key2: overlay["k2"]["isPressed"].as_bool(),
        health: doc["gameplay"]["hp"]["smooth"].as_fixed_point_u64(point),
    })
}

/// The whole decoding decision over the plainly-read fields of one parsed
/// document: `menu.state` absent reads as no recognized mode; a present
/// non-number there is a type mismatch; the gameplay mode code `2` demands
/// the two key flags and the health value, each missing or mistyped field
/// being fatal; any other mode code is `Unknown`.
pub open spec fn spec_interpret(
    menu_absent: bool,
    menu_numeric: bool,
    state: Option<u8>,
    k1: Option<bool>,
    k2: Option<bool>,
    hp: Option<u64>,
) -> Result<GameState, DecodeError> {
    if menu_absent {
        Ok(GameState::Unknown)
    } else if !menu_numeric {
        Err(DecodeError::MenuStateType)
    } else if state != Some(2u8) {
        Ok(GameState::Unknown)
    } else if k1 is None {
        Err(DecodeError::Key1)
    } else if k2 is None {
        Err(DecodeError::Key2)
    } else if hp is None {
        Err(DecodeError::Health)
    } else {
        Ok(GameState::Gameplay { k1: k1->0, k2: k2->0, hp: hp->0 })
    }
}

/// Decides what one document's fields mean, exactly as
/// [`spec_interpret`] fixes it, for every combination of field reads.
pub fn interpret_fields(
    menu_absent: bool,
    menu_numeric: bool,
    state: Option<u8>,
    k1: Option<bool>,
    k2: Option<bool>,
    hp: Option<u64>,
) -> (r: Result<GameState, DecodeError>)
    ensures
        r == spec_interpret(menu_absent, menu_numeric, state, k1, k2, hp),
{
    if menu_absent {
        Ok(GameState::Unknown)
    } else if !menu_numeric {
        Err(DecodeError::MenuStateType)
    } else {
        match state {
            Some(2u8) => match (k1, k2, hp) {
                (None, _, _) => Err(DecodeError::Key1),
                (_, None, _) => Err(DecodeError::Key2),
                (_, _, None) => Err(DecodeError::Health),
                (Some(a), Some(b), Some(h)) => Ok(
                    GameState::Gameplay { k1: a, k2: b, hp: h },
                ),
            },
            _ => Ok(GameState::Unknown),
        }
    }
}

/// Decodes one raw telemetry message. A document the parser rejects is
/// `Err(Malformed)`, and nothing else is; a document it accepts decodes
/// exactly as [`spec_interpret`] fixes it over what the text reads at
/// `menu.state` and, for the gameplay mode, at the two key-overlay flags
/// and the smoothed health in thousandths.
pub fn decode_game_state(raw: &str) -> (r: Result<GameState, DecodeError>)
    ensures
        r == Err::<GameState, DecodeError>(DecodeError::Malformed) <==> !parses(raw@),
        parses(raw@) ==> r == spec_interpret(
            menu_absent_of(raw@),
            menu_numeric_of(raw@),
            menu_state_of(raw@),
            key1_of(raw@),
            key2_of(raw@),
            health_of(raw@, HP_SCALE_DIGITS),
        ),
{
    match read_fields(raw, HP_SCALE_DIGITS) {
        None => Err(DecodeError::Malformed),
        Some(f) => interpret_fields(
            f.menu_absent,
            f.menu_numeric,
            f.menu_state,
            f.key1,
            f.key2,
            f.health,
        ),
    }
}

} // verus!
