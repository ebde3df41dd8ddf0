//! A control socket that can be interrupted.
//!
//! A session talks to the other machine over TCP and spends most of its time
//! waiting for an answer. A plain read waits without end, and nobody looks at
//! the flag that asks the session to stop. So a read has a time limit and a loop
//! round it: the socket comes back every [`POLL`], and we either read on or give
//! up. A read that gave nothing has consumed nothing, so that repeating it loses
//! no byte.
//!
//! Writes are not limited in this way: one that breaks off in the middle may
//! leave part of its bytes in the socket, and the other side then reads the
//! length of one frame and the body of the next.
use vstd::prelude::*;

verus! {

/// How long we wait for data before we look up and check the flag, in
/// nanoseconds.
///
/// Shorter than the grace with which the window waits for a session at closing,
/// or it would always let go and not only where there is something to stand on.
pub const POLL: u64 = 100_000_000;

/// How long we wait for a connection to a receiver, in nanoseconds.
///
/// All of this happens in a local network. The limit of the system is counted in
/// tens of seconds; here so long a wait means only that there is nothing at that
/// address.
pub const CONNECT_TIMEOUT: u64 = 5_000_000_000;

/// What the reason of a read that was given up says.
pub const STOPPED: &'static str = "sesja zatrzymana";

/// What came of one attempt to read.
#[derive(Debug, Clone, Copy, PartialEq, Eq, Structural)]
pub enum Attempt {
    /// The time limit passed and nothing came.
    EmptyHanded,
    /// Data, the end of the stream, or another error.
    Settled,
}

/// What to do after an attempt to read.
#[derive(Debug, Clone, Copy, PartialEq, Eq, Structural)]
pub enum ReadStep {
    /// Try again.
    Again,
    /// Give up: the session was asked to stop.
    Abort,
    /// Hand on what came.
    HandOn,
}

/// What to do after an attempt to read. What came is handed on even if the
/// session was asked to stop meanwhile: no byte gets lost.
pub fn after_read(attempt: Attempt, running: bool) -> (r: ReadStep)
    ensures
        r == match attempt {
            Attempt::Settled => ReadStep::HandOn,
            Attempt::EmptyHanded => if running {
                ReadStep::Again
            } else {
                ReadStep::Abort
            },
        },
{
    match attempt {
        Attempt::Settled => ReadStep::HandOn,
        Attempt::EmptyHanded => if running {
            ReadStep::Again
        } else {
            ReadStep::Abort
        },
    }
}

/// A session that waits on its socket notices the request to stop within the
/// grace that the window gives it.
pub proof fn a_waiting_session_leaves_in_time()
    ensures
        POLL < crate::window::app::GRACE,
{
}

} // verus!
