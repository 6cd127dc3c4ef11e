//! What the shell does once the host has been built and run.
use vstd::prelude::*;

use crate::setup::{setup_trace, trace_succeeds};

verus! {

/// Message that accompanies termination when the host cannot be built or run.
pub const FATAL_MESSAGE: &'static str = "error while running tauri application";

/// What the process does after asking the host to build and run.
#[derive(PartialEq, Eq, Structural, Clone, Copy, Debug)]
pub enum Launch {
    /// The host ran its loop and returned control normally.
    Completed,
    /// The host could not be built or run: the process terminates.
    Terminate,
}

impl Launch {
    /// Whether this outcome ends the process abnormally.
    pub open spec fn spec_is_fatal(self) -> bool {
        self is Terminate
    }

    pub fn is_fatal(&self) -> (r: bool)
        ensures
            r == self.spec_is_fatal(),
    {
        matches!(*self, Launch::Terminate)
    }
}

/// The outcome of building and running the host, given whether that succeeded.
pub open spec fn spec_launch_outcome(host_ok: bool) -> Launch {
    if host_ok {
        Launch::Completed
    } else {
        Launch::Terminate
    }
}

/// Decides what follows from the host's build-and-run result: any failure
/// terminates the process; nothing is retried or ignored.
pub fn launch_outcome(host_ok: bool) -> (r: Launch)
    ensures
        r == spec_launch_outcome(host_ok),
        r.spec_is_fatal() <==> !host_ok,
{
    if host_ok {
        Launch::Completed
    } else {
        Launch::Terminate
    }
}

/// Exit status of the process for an outcome: zero only when the host
/// returned normally.
pub open spec fn spec_exit_status(l: Launch) -> i32 {
    match l {
        Launch::Completed => 0,
        Launch::Terminate => 101,
    }
}

pub fn exit_status(l: Launch) -> (r: i32)
    ensures
        r == spec_exit_status(l),
        r != 0 <==> l.spec_is_fatal(),
{
    match l {
        Launch::Completed => 0,
        Launch::Terminate => 101,
    }
}

/// The text printed when the process terminates.
pub fn fatal_message() -> (r: &'static str)
    ensures
        r@ == FATAL_MESSAGE@,
{
    FATAL_MESSAGE
}

/// Whether the host comes up: it must be built, and its setup hook must
/// return success (an error from the hook fails the build).
pub open spec fn host_starts(built: bool, debug: bool, plugin_ok: bool, window_found: bool) -> bool {
    built && trace_succeeds(setup_trace(debug, plugin_ok, window_found))
}

/// A failure to construct the application, whether the host itself cannot be
/// built or its setup hook returns an error, always terminates the process
/// with a non-zero status; it is never passed over.
pub proof fn construction_failure_terminates(
    built: bool,
    debug: bool,
    plugin_ok: bool,
    window_found: bool,
)
    requires
        !host_starts(built, debug, plugin_ok, window_found),
    ensures
        spec_launch_outcome(host_starts(built, debug, plugin_ok, window_found)) == Launch::Terminate,
        spec_exit_status(spec_launch_outcome(host_starts(built, debug, plugin_ok, window_found))) != 0,
{
}

} // verus!
