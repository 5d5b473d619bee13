//! Process-level decisions: connecting to the control socket, and the exit
//! status.
use vstd::prelude::*;

verus! {

/// How many times a failed connect is retried.
pub open spec fn connect_retries() -> u32 {
    10
}

/// What to do after a connect attempt failed.
#[derive(Debug, Clone, Copy, PartialEq, Eq, Structural)]
pub enum ConnectDecision {
    /// Wait this many seconds, then try again.
    RetryAfter(u64),
    /// Stop trying: the control socket is unreachable.
    GiveUp,
}

/// After a failed connect, with `retries_done` retries already made: retry
/// after one second while fewer than ten were made, else give up.
pub fn after_failed_connect(retries_done: u32) -> (r: ConnectDecision)
    ensures
        retries_done >= connect_retries() ==> r == ConnectDecision::GiveUp,
        retries_done < connect_retries() ==> r == ConnectDecision::RetryAfter(1),
{
    if retries_done >= 10 {
        ConnectDecision::GiveUp
    } else {
        ConnectDecision::RetryAfter(1)
    }
}

/// How the worker ended.
#[derive(Debug, Clone, Copy, PartialEq, Eq, Structural)]
pub enum Outcome {
    /// Quit was delivered and every task drained.
    Clean,
    /// A fatal protocol error, or the control socket stayed unreachable.
    Fatal,
    /// A task panicked.
    Panicked,
}

/// The process exit status: 0 clean, 1 fatal protocol error, 2 panic.
pub fn exit_status(outcome: Outcome) -> (r: i32)
    ensures
        r == match outcome {
            Outcome::Clean => 0i32,
            Outcome::Fatal => 1i32,
            Outcome::Panicked => 2i32,
        },
{
    match outcome {
        Outcome::Clean => 0,
        Outcome::Fatal => 1,
        Outcome::Panicked => 2,
    }
}

} // verus!
