//! Event-loop and signal-bridge decisions.
//!
//! The event loop multiplexes two readiness interests — the listening
//! socket and the read end of the shutdown pipe — with edge-triggered
//! notification, and is a two-state machine: it keeps polling until the
//! shutdown pipe becomes readable, then tears down.  The surrounding
//! program owns the descriptors and the readiness wait; this module
//! decides, for each observed event, what the loop does next.  One
//! connection is accepted per readiness event, and the listening
//! interest is re-registered by edge-triggered re-arming on the next
//! wait; a burst of simultaneous connect attempts therefore needs one
//! readiness cycle per accepted connection, a known limitation.

use vstd::prelude::*;

verus! {

/// Value of the interrupted-call error on Linux, the one wait error that
/// is retried rather than reported.
pub const EINTR_CODE: i32 = 4;

/// Value of the terminal-interrupt signal on Linux, the interrupt that
/// requests shutdown.
pub const SIGINT_CODE: i32 = 2;

/// The readiness interests the event loop registers, identified on the
/// wire of the readiness facility by their tag.
#[derive(Clone, Copy, PartialEq, Eq, Structural, Debug)]
pub enum PollInterests {
    ListeningSocket,
    TerminalInput,
    SIGINT,
}

/// The tag under which an interest is registered with the readiness
/// facility.
pub open spec fn spec_interest_tag(i: PollInterests) -> u64 {
    match i {
        PollInterests::ListeningSocket => 0,
        PollInterests::TerminalInput => 1,
        PollInterests::SIGINT => 2,
    }
}

/// Executable counterpart of [`spec_interest_tag`].
pub fn interest_tag(i: PollInterests) -> (r: u64)
    ensures
        r == spec_interest_tag(i),
{
    match i {
        PollInterests::ListeningSocket => 0,
        PollInterests::TerminalInput => 1,
        PollInterests::SIGINT => 2,
    }
}

/// The interest a readiness tag stands for, if any.
pub open spec fn spec_interest_of_tag(tag: u64) -> Option<PollInterests> {
    if tag == 0 {
        Some(PollInterests::ListeningSocket)
    } else if tag == 1 {
        Some(PollInterests::TerminalInput)
    } else if tag == 2 {
        Some(PollInterests::SIGINT)
    } else {
        None
    }
}

/// Executable counterpart of [`spec_interest_of_tag`].
pub fn interest_of_tag(tag: u64) -> (r: Option<PollInterests>)
    ensures
        r == spec_interest_of_tag(tag),
{
    if tag == 0 {
        Some(PollInterests::ListeningSocket)
    } else if tag == 1 {
        Some(PollInterests::TerminalInput)
    } else if tag == 2 {
        Some(PollInterests::SIGINT)
    } else {
        None
    }
}

/// The two states of the event loop.
#[derive(Clone, Copy, PartialEq, Eq, Structural, Debug)]
pub enum LoopState {
    Polling,
    ShuttingDown,
}

/// What the event loop does in response to one readiness event.
#[derive(Clone, Copy, PartialEq, Eq, Structural, Debug)]
pub enum LoopAction {
    AcceptClient,
    Shutdown,
    Ignore,
}

/// One step of the event loop's state machine on a readiness event
/// carrying `event_tag`.  Readiness of the listening socket accepts a
/// client and keeps polling; readiness of the shutdown pipe leaves the
/// wait within that one readiness cycle; anything else is ignored.
pub fn next_loop_step(state: LoopState, event_tag: u64) -> (r: (LoopState, LoopAction))
    requires
        state is Polling,
    ensures
        event_tag == spec_interest_tag(PollInterests::ListeningSocket) ==> (r.0 is Polling
            && r.1 is AcceptClient),
        event_tag == spec_interest_tag(PollInterests::SIGINT) ==> (r.0 is ShuttingDown
            && r.1 is Shutdown),
        spec_interest_of_tag(event_tag) is None || event_tag == spec_interest_tag(
            PollInterests::TerminalInput,
        ) ==> (r.0 is Polling && r.1 is Ignore),
{
    match interest_of_tag(event_tag) {
        Some(PollInterests::ListeningSocket) => (LoopState::Polling, LoopAction::AcceptClient),
        Some(PollInterests::SIGINT) => (LoopState::ShuttingDown, LoopAction::Shutdown),
        _ => (LoopState::Polling, LoopAction::Ignore),
    }
}

/// Whether a failed readiness wait is simply retried: only an
/// interrupted call is, every other failure is reported.
pub fn wait_should_retry(err: i32) -> (r: bool)
    ensures
        r == (err == EINTR_CODE),
{
    err == EINTR_CODE
}

/// Whether an OS signal makes the bridge write its one byte to the
/// shutdown pipe: only the terminal interrupt does.
pub fn signal_requests_shutdown(sig: i32) -> (r: bool)
    ensures
        r == (sig == SIGINT_CODE),
{
    sig == SIGINT_CODE
}

} // verus!
