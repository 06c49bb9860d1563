//! The decisions of the worker that records inbound deliveries in the inbox.
//!
//! The worker polls a transport, records each delivery, then acknowledges it when the
//! recording succeeded or rejects it for redelivery when it failed. The waiting, the
//! polling and the acknowledgements are done by the caller; this module decides, from the
//! worker's state and what just happened, what to do next.

use vstd::prelude::*;

use crate::inbox::application::InboxError;
use crate::support::owned;

verus! {

/// Seconds the worker waits after a failed recording or a transport failure.
pub const BACKOFF_SECONDS: u64 = 10;

/// Where the worker stands.
#[derive(Debug)]
pub enum WorkerState {
    /// Waiting for the next delivery.
    Polling,
    /// Acknowledging a recorded delivery.
    Acking,
    /// Rejecting a delivery that could not be recorded.
    Nacking,
    /// Waiting out the backoff; a pending failure ends the run once the wait is over.
    BackingOff { failure: Option<InboxError> },
}

/// What the caller observed.
#[derive(Debug)]
pub enum WorkerEvent {
    /// The cancellation token fired.
    Cancelled,
    /// A delivery arrived and recording it gave `recorded`.
    Delivered { recorded: Result<(), InboxError> },
    /// The recording task could not be run to its end.
    RecordingAborted(InboxError),
    /// The transport's stream ended.
    StreamClosed,
    /// The transport reported a failure.
    TransportFailed(InboxError),
    /// An acknowledgement or rejection was sent, with this outcome.
    Acknowledged(Result<(), InboxError>),
    /// The backoff wait is over.
    BackoffElapsed,
}

/// What the caller does next.
#[derive(Debug)]
pub enum WorkerAction {
    /// Poll the transport for the next delivery.
    Poll,
    /// Acknowledge the current delivery.
    Ack,
    /// Reject the current delivery and ask for its redelivery.
    Nack,
    /// Wait this many seconds, unless cancelled first.
    Sleep(u64),
    /// End the run with this result.
    Finish(Result<(), InboxError>),
}

/// The events the caller can observe in a state.
pub open spec fn expects(state: WorkerState, event: WorkerEvent) -> bool {
    match state {
        WorkerState::Polling => match event {
            WorkerEvent::Acknowledged(_) | WorkerEvent::BackoffElapsed => false,
            _ => true,
        },
        WorkerState::Acking | WorkerState::Nacking => event is Acknowledged,
        WorkerState::BackingOff { .. } => event is Cancelled || event is BackoffElapsed,
    }
}

/// The error for a transport whose stream ended.
pub open spec fn stream_closed(e: InboxError) -> bool {
    e matches InboxError::Transport(m) && m@ == "consumer stream closed"@
}

impl WorkerState {
    /// Whether `event` can be observed in this state.
    pub fn expects(&self, event: &WorkerEvent) -> (b: bool)
        ensures
            b == expects(*self, *event),
    {
        match self {
            WorkerState::Polling => match event {
                WorkerEvent::Acknowledged(_) | WorkerEvent::BackoffElapsed => false,
                _ => true,
            },
            WorkerState::Acking | WorkerState::Nacking => match event {
                WorkerEvent::Acknowledged(_) => true,
                _ => false,
            },
            WorkerState::BackingOff { .. } => match event {
                WorkerEvent::Cancelled | WorkerEvent::BackoffElapsed => true,
                _ => false,
            },
        }
    }
}

/// The next state and action of the worker after `event` in `state`.
///
/// Cancellation ends the run cleanly, whether polling or backing off. A recorded delivery
/// is acknowledged; one that failed to record is rejected, then the worker backs off and
/// polls again. A transport failure is reported after the backoff; a closed stream is
/// reported at once; so is a failed acknowledgement and an aborted recording.
pub fn step(state: WorkerState, event: WorkerEvent) -> (r: (WorkerState, WorkerAction))
    requires
        expects(state, event),
    ensures
        event is Cancelled ==> r.1 matches WorkerAction::Finish(Ok(())),
        state is Polling ==> match event {
            WorkerEvent::Delivered { recorded: Ok(()) } => r.0 is Acking && r.1 is Ack,
            WorkerEvent::Delivered { recorded: Err(_) } => r.0 is Nacking && r.1 is Nack,
            WorkerEvent::RecordingAborted(e) => r.1 == WorkerAction::Finish(Err(e)),
            WorkerEvent::StreamClosed => r.1 matches WorkerAction::Finish(Err(e)) && stream_closed(e),
            WorkerEvent::TransportFailed(e) => r.0 == (WorkerState::BackingOff { failure: Some(e) })
                && r.1 == WorkerAction::Sleep(BACKOFF_SECONDS),
            _ => true,
        },
        state is Acking ==> match event {
            WorkerEvent::Acknowledged(Ok(())) => r.0 is Polling && r.1 is Poll,
            WorkerEvent::Acknowledged(Err(e)) => r.1 == WorkerAction::Finish(Err(e)),
            _ => true,
        },
        state is Nacking ==> match event {
            WorkerEvent::Acknowledged(Ok(())) => r.0 == (WorkerState::BackingOff { failure: None })
                && r.1 == WorkerAction::Sleep(BACKOFF_SECONDS),
            WorkerEvent::Acknowledged(Err(e)) => r.1 == WorkerAction::Finish(Err(e)),
            _ => true,
        },
        state matches WorkerState::BackingOff { failure } ==> (event is BackoffElapsed ==> match failure {
            None => r.0 is Polling && r.1 is Poll,
            Some(e) => r.1 == WorkerAction::Finish(Err(e)),
        }),
{
    match event {
        WorkerEvent::Cancelled => (WorkerState::Polling, WorkerAction::Finish(Ok(()))),
        WorkerEvent::Delivered { recorded: Ok(()) } => (WorkerState::Acking, WorkerAction::Ack),
        WorkerEvent::Delivered { recorded: Err(_) } => (WorkerState::Nacking, WorkerAction::Nack),
        WorkerEvent::RecordingAborted(e) => (WorkerState::Polling, WorkerAction::Finish(Err(e))),
        WorkerEvent::StreamClosed => (
            WorkerState::Polling,
            WorkerAction::Finish(Err(InboxError::Transport(owned("consumer stream closed")))),
        ),
        WorkerEvent::TransportFailed(e) => (
            WorkerState::BackingOff { failure: Some(e) },
            WorkerAction::Sleep(BACKOFF_SECONDS),
        ),
        WorkerEvent::Acknowledged(Err(e)) => (WorkerState::Polling, WorkerAction::Finish(Err(e))),
        WorkerEvent::Acknowledged(Ok(())) => match state {
            WorkerState::Nacking => (WorkerState::BackingOff { failure: None }, WorkerAction::Sleep(BACKOFF_SECONDS)),
            _ => (WorkerState::Polling, WorkerAction::Poll),
        },
        WorkerEvent::BackoffElapsed => match state {
            WorkerState::BackingOff { failure: Some(e) } => (WorkerState::Polling, WorkerAction::Finish(Err(e))),
            _ => (WorkerState::Polling, WorkerAction::Poll),
        },
    }
}

} // verus!
