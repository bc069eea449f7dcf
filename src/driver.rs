use vstd::prelude::*;
use crate::event::{Action, FsEventKind, RawFsEvent, classify, is_write_close};

verus! {

/// Whether the watch loop still runs.
#[derive(Debug, Clone, Copy, PartialEq, Eq, Structural)]
pub enum DriverState {
    Watching,
    Terminated,
}

/// What the watcher handed to the loop.
#[derive(Debug, Clone, PartialEq, Eq)]
pub enum WatchInput {
    Event(RawFsEvent),
    /// One poll failed; the stream goes on.
    WatchError,
    /// The stream is exhausted.
    StreamEnded,
    /// The watcher could not be built or started.
    WatcherFailed,
}

/// What the loop does next.
#[derive(Debug, Clone, PartialEq, Eq)]
pub enum DriverStep {
    /// Upload and complete each path in order before taking the next input.
    Upload(Vec<String>),
    /// Log the ignored event's kind.
    LogIgnored(FsEventKind),
    LogWatchError,
    /// Stop watching.
    Stop,
    /// Nothing to do.
    Idle,
}

/// What `step` promises for a state and an input.
pub open spec fn step_outcome(state: DriverState, input: WatchInput, r: (DriverState, DriverStep)) -> bool {
    match state {
        DriverState::Terminated => r.0 == DriverState::Terminated && r.1 is Idle,
        DriverState::Watching => match input {
            WatchInput::Event(e) => r.0 == DriverState::Watching && if is_write_close(e.kind) {
                r.1 == DriverStep::Upload(e.paths)
            } else {
                r.1 == DriverStep::LogIgnored(e.kind)
            },
            WatchInput::WatchError => r.0 == DriverState::Watching && r.1 is LogWatchError,
            _ => r.0 == DriverState::Terminated && r.1 is Stop,
        },
    }
}

/// One transition of the watch loop: events go through the filter, a failed
/// poll is logged and watching goes on, and the end of the stream or a
/// watcher failure terminates the loop for good.
pub fn step(state: DriverState, input: WatchInput) -> (r: (DriverState, DriverStep))
    ensures
        step_outcome(state, input, r),
{
    match state {
        DriverState::Terminated => (DriverState::Terminated, DriverStep::Idle),
        DriverState::Watching => match input {
            WatchInput::Event(e) => {
                let kind = e.kind;
                match classify(e) {
                    Action::Upload(paths) => (DriverState::Watching, DriverStep::Upload(paths)),
                    Action::Ignore => (DriverState::Watching, DriverStep::LogIgnored(kind)),
                }
            },
            WatchInput::WatchError => (DriverState::Watching, DriverStep::LogWatchError),
            WatchInput::StreamEnded => (DriverState::Terminated, DriverStep::Stop),
            WatchInput::WatcherFailed => (DriverState::Terminated, DriverStep::Stop),
        },
    }
}

/// Once terminated, the loop stays terminated and does nothing.
pub proof fn lemma_terminated_is_final(input: WatchInput, r: (DriverState, DriverStep))
    requires
        step_outcome(DriverState::Terminated, input, r),
    ensures
        r.0 == DriverState::Terminated,
        r.1 is Idle,
{
}

/// An event that is not a close after writing never leads to an upload step,
/// so no request is sent for it.
pub proof fn lemma_ignored_event_sends_nothing(
    state: DriverState,
    event: RawFsEvent,
    r: (DriverState, DriverStep),
)
    requires
        !is_write_close(event.kind),
        step_outcome(state, WatchInput::Event(event), r),
    ensures
        !(r.1 is Upload),
{
}

} // verus!
