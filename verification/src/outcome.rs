//! What a command reports: the state of an instance, and why a start or a
//! stop was refused.

use vstd::prelude::*;

verus! {

/// Whether an instance has a live process.
#[derive(Clone, Copy, Debug, PartialEq, Eq, Structural)]
pub enum State {
    Running,
    Stopped,
}

/// Why an instance was not started.
#[derive(Debug, PartialEq, Eq)]
pub enum StartError {
    /// As many instances run as may run at once.
    CapacityExceeded,
    /// The instance has a live process already.
    AlreadyRunning,
    /// The operating system did not create the process. The text is the
    /// operating system's account of why.
    SpawnFailed(String),
}

/// Why an instance was not asked to stop.
#[derive(Debug, PartialEq, Eq)]
pub enum StopError {
    /// The instance has no live process.
    AlreadyStopped,
    /// The termination signal could not be delivered. The text is the
    /// operating system's account of why.
    SignalFailed(String),
}

/// The kind of answer that a caller of the control interface gets.
#[derive(Clone, Copy, Debug, PartialEq, Eq, Structural)]
pub enum Reply {
    /// The command was carried out.
    Done,
    /// The command does not fit the present state; the caller may retry
    /// once the state has changed.
    Conflict,
    /// The command fits the state and the operating system refused it.
    Failure,
}

/// The kind of answer for the outcome of a start.
pub open spec fn start_reply(outcome: Result<(), StartError>) -> Reply {
    match outcome {
        Ok(()) => Reply::Done,
        Err(StartError::CapacityExceeded) => Reply::Conflict,
        Err(StartError::AlreadyRunning) => Reply::Conflict,
        Err(StartError::SpawnFailed(_)) => Reply::Failure,
    }
}

/// The kind of answer for the outcome of a stop.
pub open spec fn stop_reply(outcome: Result<(), StopError>) -> Reply {
    match outcome {
        Ok(()) => Reply::Done,
        Err(StopError::AlreadyStopped) => Reply::Conflict,
        Err(StopError::SignalFailed(_)) => Reply::Failure,
    }
}

impl Reply {
    /// The kind of answer for the outcome of a start: a refusal for
    /// capacity or for an instance that runs already is a conflict, a
    /// failure to spawn is a failure.
    pub fn for_start(outcome: &Result<(), StartError>) -> (reply: Reply)
        ensures
            reply == start_reply(*outcome),
    {
        match outcome {
            Ok(()) => Reply::Done,
            Err(StartError::CapacityExceeded) => Reply::Conflict,
            Err(StartError::AlreadyRunning) => Reply::Conflict,
            Err(StartError::SpawnFailed(_)) => Reply::Failure,
        }
    }

    /// The kind of answer for the outcome of a stop: a refusal for an
    /// instance that is stopped already is a conflict, a failure to signal
    /// is a failure.
    pub fn for_stop(outcome: &Result<(), StopError>) -> (reply: Reply)
        ensures
            reply == stop_reply(*outcome),
    {
        match outcome {
            Ok(()) => Reply::Done,
            Err(StopError::AlreadyStopped) => Reply::Conflict,
            Err(StopError::SignalFailed(_)) => Reply::Failure,
        }
    }
}

} // verus!
