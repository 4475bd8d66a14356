//! The device sink's delivery policy, stated over a whole queue: commands
//! are consumed in arrival order, each exactly once; a command whose write
//! fails costs the connection — one backoff, one reopen — but is never
//! requeued or replayed, and the next connection resumes with the commands
//! queued after it. At-most-once delivery, order preserved.

use vstd::prelude::*;

use crate::codec::encode;
use crate::codec::spec_encode;
use crate::session::advance;
use crate::session::LinkEvent;
use crate::session::LinkState;
use crate::state::Command;

verus! {

/// The exact byte stream the device sees for a queue of commands whose
/// writes succeed or fail as `ok` says: the encodings of exactly the
/// successfully written commands, in queue order. A failed write
/// contributes nothing — its command is consumed, not replayed — and the
/// commands after it still appear.
pub open spec fn spec_sink_stream(cmds: Seq<Command>, ok: Seq<bool>) -> Seq<u8>
    decreases cmds.len(),
{
    if cmds.len() == 0 {
        Seq::<u8>::empty()
    } else {
        spec_sink_stream(cmds.drop_last(), ok.drop_last()) + (
            if ok[cmds.len() - 1] {
                spec_encode(cmds.last())
            } else {
                Seq::<u8>::empty()
            }
        )
    }
}

/// Runs one sink over a whole queue, with `write_ok[i]` the outcome of the
/// write of `cmds[i]`: encodes each command in order, writes it at most
/// once, and on a failure drops only the connection — backing off and
/// reopening by the session machine — before consuming the next command.
/// The result is the byte stream the device received across all the
/// connections of the run.
pub fn run_sink_session(cmds: &Vec<Command>, write_ok: &Vec<bool>) -> (stream: Vec<u8>)
    requires
        cmds@.len() == write_ok@.len(),
    ensures
        stream@ == spec_sink_stream(cmds@, write_ok@),
{
    let mut stream: Vec<u8> = Vec::new();
    let mut link = LinkState::Connected;
    let mut i: usize = 0;
    while i < cmds.len()
        invariant
            cmds@.len() == write_ok@.len(),
            i <= cmds@.len(),
            link == LinkState::Connected,
            stream@ == spec_sink_stream(cmds@.take(i as int), write_ok@.take(i as int)),
        decreases cmds@.len() - i,
    {
        // The command is taken from the queue here, before the write: its
        // fate no longer depends on the connection.
        let cmd = cmds[i];
        let mut bytes = encode(&cmd);
        if write_ok[i] {
            stream.append(&mut bytes);
            link = advance(link, LinkEvent::IoDone);
        } else {
            link = advance(link, LinkEvent::IoFailed);
            link = advance(link, LinkEvent::RetryElapsed);
            link = advance(link, LinkEvent::Opened);
        }
        i = i + 1;
        proof {
            assert(cmds@.take(i as int).drop_last() =~= cmds@.take(i as int - 1));
            assert(write_ok@.take(i as int).drop_last() =~= write_ok@.take(i as int - 1));
        }
    }
    proof {
        assert(cmds@.take(cmds@.len() as int) =~= cmds@);
        assert(write_ok@.take(write_ok@.len() as int) =~= write_ok@);
    }
    stream
}

} // verus!
