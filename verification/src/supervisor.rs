//! What the daemon does when a run of it ends, and when it may start at all.

use vstd::prelude::*;

verus! {

/// For how many milliseconds the service loop serves the bus before it looks
/// for events of shortcuts again.
pub const TICK_MILLIS: u64 = 50;

/// For how many seconds the daemon waits after a failure before it starts anew.
pub const RESTART_DELAY_SECS: u64 = 15;

/// How a run of the daemon ended.
#[derive(Clone, Copy, Debug, Hash, PartialEq, Eq, Structural)]
pub enum RunEnd {
    /// The daemon could not start: no keyboard could be opened, or the name on
    /// the bus could not be had.
    StartupFailed,
    /// The daemon failed while it served: a keyboard went away, or the bus did.
    Crashed,
    /// A part of the daemon panicked.
    Panicked,
}

/// What the daemon does next.
#[derive(Clone, Copy, Debug, Hash, PartialEq, Eq, Structural)]
pub enum Next {
    /// It exits: serving with less than it needs is not wanted.
    Exit,
    /// It waits, and then starts anew with nothing kept of the run that ended.
    RestartAfter { secs: u64 },
}

/// What follows the end of a run: a daemon that could not start exits, and a
/// daemon that failed while it served starts anew after [`RESTART_DELAY_SECS`].
pub open spec fn next_after(end: RunEnd) -> Next {
    match end {
        RunEnd::StartupFailed => Next::Exit,
        RunEnd::Crashed | RunEnd::Panicked => Next::RestartAfter { secs: RESTART_DELAY_SECS },
    }
}

/// What the daemon does after a run of it has ended.
pub fn after_run(end: RunEnd) -> (next: Next)
    ensures
        next == next_after(end),
{
    match end {
        RunEnd::StartupFailed => Next::Exit,
        RunEnd::Crashed => Next::RestartAfter { secs: RESTART_DELAY_SECS },
        RunEnd::Panicked => Next::RestartAfter { secs: RESTART_DELAY_SECS },
    }
}

/// Whether the daemon may start with the keyboards it has: at least one was
/// found, and every one that was found could be opened.
pub fn keyboards_ready(found: usize, opened: usize) -> (ready: bool)
    ensures
        ready == (found > 0 && opened == found),
{
    found > 0 && opened == found
}

} // verus!
