//! The state-diffing translator: the pipeline's brain. It consumes
//! snapshots in strict arrival order, compares each to the previously
//! observed one, and emits a wire command only for the transitions the
//! device cares about — it is a diffing filter, not a passthrough.

use vstd::prelude::*;

use crate::state::Command;
use crate::state::GameState;

verus! {

/// The decision table: the command (if any) that the transition from
/// `prev` to `cur` puts on the wire, most specific pattern first. Health
/// changes alone never produce a command — `hp` is tracked but not diffed,
/// an intentional extension point.
pub open spec fn spec_transition(prev: GameState, cur: GameState) -> Option<Command> {
    match (prev, cur) {
        (
            GameState::Gameplay { k1: pk1, k2: pk2, .. },
            GameState::Gameplay { k1, k2, .. },
        ) => if pk1 == k1 && pk2 == k2 {
            None
        } else {
            Some(Command::KeyState(k1, k2))
        },
        (_, GameState::Gameplay { .. }) => Some(Command::EnterMode(2)),
        (GameState::Unknown, GameState::Unknown) => None,
        (_, GameState::Unknown) => Some(Command::End),
    }
}

/// Owns the single piece of pipeline state: the last observed snapshot,
/// initialized to `Unknown`. Scoped to one pipeline instance, not ambient.
pub struct Translator {
    /// The previously observed snapshot that the next one is diffed against.
    pub last: GameState,
}

impl Translator {
    /// A fresh translator that has observed nothing yet.
    pub fn new() -> (t: Translator)
        ensures
            t.last == GameState::Unknown,
    {
        Translator { last: GameState::Unknown }
    }

    /// Consumes one snapshot: emits the command the decision table gives
    /// for the transition, then adopts the snapshot as last observed
    /// whether or not anything was emitted.
    pub fn feed(&mut self, s: GameState) -> (cmd: Option<Command>)
        ensures
            final(self).last == s,
            cmd == spec_transition(old(self).last, s),
    {
        let out: Option<Command> = match (self.last, s) {
            (
                GameState::Gameplay { k1: pk1, k2: pk2, .. },
                GameState::Gameplay { k1, k2, .. },
            ) => if pk1 == k1 && pk2 == k2 {
                None
            } else {
                Some(Command::KeyState(k1, k2))
            },
            (_, GameState::Gameplay { .. }) => Some(Command::EnterMode(2)),
            (GameState::Unknown, GameState::Unknown) => None,
            (_, GameState::Unknown) => Some(Command::End),
        };
        self.last = s;
        out
    }
}

/// Exact characterization of every emission of the decision table:
/// a `KeyState` comes exactly when both snapshots are gameplay and the key
/// pair changed, and it carries the current keys; `EnterMode(2)` exactly on
/// the first gameplay after a non-gameplay snapshot; `End` exactly on the
/// transition into `Unknown` from a non-`Unknown` snapshot; nothing at all
/// exactly when the snapshot is `Unknown` twice or gameplay with an
/// unchanged key pair.
pub proof fn lemma_transition_characterization(prev: GameState, cur: GameState)
    ensures
        (spec_transition(prev, cur) matches Some(c) && c matches Command::KeyState(..))
            <==> (prev matches GameState::Gameplay { k1: pk1, k2: pk2, .. }
                && cur matches GameState::Gameplay { k1, k2, .. }
                && !(pk1 == k1 && pk2 == k2)),
        prev is Gameplay && cur is Gameplay && spec_transition(prev, cur) is Some
            ==> spec_transition(prev, cur)
                == Some(Command::KeyState(cur->Gameplay_k1, cur->Gameplay_k2)),
        spec_transition(prev, cur) == Some(Command::EnterMode(2))
            <==> (prev !is Gameplay && cur is Gameplay),
        spec_transition(prev, cur) == Some(Command::End)
            <==> (prev !is Unknown && cur is Unknown),
        spec_transition(prev, cur) is None
            <==> ((prev is Unknown && cur is Unknown)
                || (prev matches GameState::Gameplay { k1: pk1, k2: pk2, .. }
                    && cur matches GameState::Gameplay { k1, k2, .. }
                    && pk1 == k1 && pk2 == k2)),
{
}

/// Idempotence: a snapshot identical to the last observed one produces no
/// command, so feeding the same snapshot twice in a row emits at most the
/// one command of the first feed and none on the second.
pub proof fn lemma_idempotent(s: GameState)
    ensures
        spec_transition(s, s) is None,
{
}

} // verus!
