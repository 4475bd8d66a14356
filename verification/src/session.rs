//! The resilient-session state machine shared by the two link-owning
//! loops (telemetry source and device sink): connect or back off, run
//! until an error, repeat forever. The loops themselves perform the I/O;
//! this module makes every decision about what to do next, so both loops
//! are the same machine run over different work.

use vstd::prelude::*;

verus! {

/// Fixed delay, in seconds, before a failed link is reopened. There is no
/// exponential backoff and no bounded retry count: the loops run for the
/// life of the process.
pub const BACKOFF_SECS: u64 = 5;

/// Per-write timeout, in milliseconds, on the device link.
pub const WRITE_TIMEOUT_MS: u64 = 50;

/// Baud rate of the device link.
pub const BAUD_RATE: u32 = 115200;

/// Where a link-owning loop stands with its connection.
#[derive(Clone, Copy, Debug, PartialEq, Eq, Structural)]
pub enum LinkState {
    /// No usable connection; the backoff delay must elapse before the next
    /// attempt.
    Disconnected,
    /// The backoff has elapsed and an open attempt is due.
    Connecting,
    /// A connection is open and units of work (reads or writes) run on it.
    Connected,
}

/// What a loop observed since it last asked the machine.
#[derive(Clone, Copy, Debug, PartialEq, Eq, Structural)]
pub enum LinkEvent {
    /// The backoff delay has elapsed.
    RetryElapsed,
    /// An open attempt succeeded.
    Opened,
    /// An open attempt failed.
    OpenFailed,
    /// One unit of work (a read plus decode, or an encoded write) succeeded.
    IoDone,
    /// One unit of work failed; the connection is unusable.
    IoFailed,
}

/// What a loop must do in a given state.
#[derive(Clone, Copy, Debug, PartialEq, Eq, Structural)]
pub enum LinkDuty {
    /// Sleep this many seconds, then report `RetryElapsed`.
    Wait(u64),
    /// Try to open the link, then report `Opened` or `OpenFailed`.
    AttemptOpen,
    /// Run one unit of work, then report `IoDone` or `IoFailed`.
    PerformWork,
}

/// The duty of each state: back off while disconnected, open while
/// connecting, work while connected.
pub open spec fn spec_duty(s: LinkState) -> LinkDuty {
    match s {
        LinkState::Disconnected => LinkDuty::Wait(BACKOFF_SECS),
        LinkState::Connecting => LinkDuty::AttemptOpen,
        LinkState::Connected => LinkDuty::PerformWork,
    }
}

/// The transition table. Every kind of failure — open failure, read or
/// write failure, decode failure — lands in `Disconnected`; success while
/// connected stays connected. An event that does not belong to the state
/// (a stale report) changes nothing.
pub open spec fn spec_advance(s: LinkState, e: LinkEvent) -> LinkState {
    match (s, e) {
        (LinkState::Disconnected, LinkEvent::RetryElapsed) => LinkState::Connecting,
        (LinkState::Connecting, LinkEvent::Opened) => LinkState::Connected,
        (LinkState::Connecting, LinkEvent::OpenFailed) => LinkState::Disconnected,
        (LinkState::Connected, LinkEvent::IoDone) => LinkState::Connected,
        (LinkState::Connected, LinkEvent::IoFailed) => LinkState::Disconnected,
        (_, _) => s,
    }
}

/// What the loop must do next in state `s`.
pub fn duty(s: LinkState) -> (d: LinkDuty)
    ensures
        d == spec_duty(s),
{
    match s {
        LinkState::Disconnected => LinkDuty::Wait(BACKOFF_SECS),
        LinkState::Connecting => LinkDuty::AttemptOpen,
        LinkState::Connected => LinkDuty::PerformWork,
    }
}

/// Where the loop lands after observing `e` in state `s`.
pub fn advance(s: LinkState, e: LinkEvent) -> (r: LinkState)
    ensures
        r == spec_advance(s, e),
{
    match (s, e) {
        (LinkState::Disconnected, LinkEvent::RetryElapsed) => LinkState::Connecting,
        (LinkState::Connecting, LinkEvent::Opened) => LinkState::Connected,
        (LinkState::Connecting, LinkEvent::OpenFailed) => LinkState::Disconnected,
        (LinkState::Connected, LinkEvent::IoDone) => LinkState::Connected,
        (LinkState::Connected, LinkEvent::IoFailed) => LinkState::Disconnected,
        (_, _) => s,
    }
}

/// Failures are recovered, never terminal: any failure event lands the
/// machine in `Disconnected` (or was stale and changed nothing), and from
/// `Disconnected` the duty is one fixed backoff, after which the machine is
/// attempting an open again — an error never ends the loop.
pub proof fn lemma_failure_recovers(s: LinkState, e: LinkEvent)
    requires
        e == LinkEvent::OpenFailed || e == LinkEvent::IoFailed,
    ensures
        spec_advance(s, e) is Disconnected || spec_advance(s, e) == s,
        spec_duty(LinkState::Disconnected) == LinkDuty::Wait(BACKOFF_SECS),
        spec_advance(LinkState::Disconnected, LinkEvent::RetryElapsed) is Connecting,
        spec_duty(LinkState::Connecting) is AttemptOpen,
{
}

} // verus!
