//! Running a command handler and handing the events it produces on to eventing.

use std::sync::Arc;
use vstd::prelude::*;

use crate::commanding::application::{CommandError, NewCommandEnvelope, NewCommandMetadata};
use crate::eventing::application::{EventDispatchPort, EventError, NewEventEnvelope, NewEventMetadata};
use crate::support::{new_uuid_v7, uuid_version};

verus! {

/// An event type of the application.
pub trait ApplicationEvent: Send + Sync {
    fn event_type(&self) -> &'static str;
}

/// Handles commands of one type and returns the events they produce.
pub trait CommandHandlerPort<C, E>: Send + Sync {
    fn execute(&self, command: C) -> Result<Vec<E>, CommandError>;
}

/// A command handler seen through the serialised command it accepts and the serialised
/// events it produces.
pub trait ErasedCommandHandler: Send + Sync {
    /// `r` is an answer this handler may give to `execute(envelope)`. The handler decides its answers
    /// ; unless an implementation says more, any answer may come.
    closed spec fn execute_returns(&self, envelope: NewCommandEnvelope, r: Result<Vec<NewEventEnvelope>, CommandError>) -> bool {
        true
    }

    fn execute(&self, envelope: &NewCommandEnvelope) -> (r: Result<Vec<NewEventEnvelope>, CommandError>)
        ensures
            self.execute_returns(*envelope, r),
    ;
}

/// The causation id of events caused by a command: the command's id.
pub open spec fn causation_of(command: Option<NewCommandMetadata>) -> Option<u128> {
    match command {
        Some(m) => Some(m.command_id),
        None => None,
    }
}

/// The correlation id of events caused by a command: the command's correlation id, else its
/// causation id.
pub open spec fn correlation_of(command: Option<NewCommandMetadata>) -> Option<u128> {
    match command {
        Some(m) => match m.correlation_id {
            Some(c) => Some(c),
            None => Some(m.command_id),
        },
        None => None,
    }
}

/// The metadata of an event with id `event_id` produced while handling a command.
pub open spec fn caused_metadata(command: Option<NewCommandMetadata>, event_id: u128) -> NewEventMetadata {
    NewEventMetadata {
        event_id,
        correlation_id: correlation_of(command),
        causation_id: causation_of(command),
        source: None,
    }
}

/// The metadata of an event with id `event_id` produced while handling a command with
/// metadata `command`.
pub fn event_metadata(command: &Option<NewCommandMetadata>, event_id: u128) -> (m: NewEventMetadata)
    ensures
        m == caused_metadata(*command, event_id),
{
    let causation_id = match command {
        Some(m) => Some(m.command_id),
        None => None,
    };
    let correlation_id = match command {
        Some(m) => match m.correlation_id {
            Some(c) => Some(c),
            None => causation_id,
        },
        None => causation_id,
    };
    NewEventMetadata { event_id, correlation_id, causation_id, source: None }
}

/// The envelopes of the serialised events `(event type, payload)` produced while handling a
/// command with metadata `command`: each event gets a fresh time-ordered id, the command's
/// id as causation and its correlation.
pub fn caused_events(command: &Option<NewCommandMetadata>, events: Vec<(String, String)>) -> (r: Vec<NewEventEnvelope>)
    ensures
        r.len() == events.len(),
        forall|i: int| 0 <= i < r.len() ==> {
            &&& #[trigger] r@[i].event_type == events@[i].0
            &&& r@[i].payload == events@[i].1
            &&& r@[i].metadata matches Some(m) && m == caused_metadata(*command, m.event_id)
                && uuid_version(m.event_id) == 7
        },
{
    let mut out: Vec<NewEventEnvelope> = Vec::new();
    let ghost input = events@;
    for pair in it: events.into_iter()
        invariant
            it.seq() == input,
            out.len() == it.index(),
            forall|k: int| 0 <= k < out.len() ==> {
                &&& #[trigger] out@[k].event_type == input[k].0
                &&& out@[k].payload == input[k].1
                &&& out@[k].metadata matches Some(m) && m == caused_metadata(*command, m.event_id)
                    && uuid_version(m.event_id) == 7
            },
    {
        let (event_type, payload) = pair;
        let event_id = new_uuid_v7();
        out.push(NewEventEnvelope { event_type, payload, metadata: Some(event_metadata(command, event_id)) });
    }
    out
}

/// Dispatching `events` in order through `port`, stopping at the first failure, may end in
/// `r`: every event was accepted and `r` is `Ok`, or the events before one were accepted and
/// that one failed, its failure coming back as an eventing error.
pub open spec fn events_dispatch_returns<D: EventDispatchPort + ?Sized>(
    port: Arc<D>,
    events: Seq<NewEventEnvelope>,
    r: Result<(), CommandError>,
) -> bool {
    ||| r is Ok && forall|j: int| 0 <= j < events.len() ==> #[trigger] port.dispatch_returns(events[j], Ok(()))
    ||| exists|k: int, e: EventError|
        0 <= k < events.len() && #[trigger] port.dispatch_returns(events[k], Err(e))
            && r == Err::<(), CommandError>(CommandError::Eventing(e))
            && forall|j: int| 0 <= j < k ==> #[trigger] port.dispatch_returns(events[j], Ok(()))
}

/// Runs a command handler and dispatches the events it produced, in order.
pub struct CommandDispatcher<
    H: ErasedCommandHandler + ?Sized = dyn ErasedCommandHandler,
    D: EventDispatchPort + ?Sized = dyn EventDispatchPort,
> {
    handler: Arc<H>,
    event_dispatcher: Arc<D>,
}

impl<H: ErasedCommandHandler + ?Sized, D: EventDispatchPort + ?Sized> CommandDispatcher<H, D> {
    pub closed spec fn spec_handler(&self) -> Arc<H> {
        self.handler
    }

    pub closed spec fn spec_event_dispatcher(&self) -> Arc<D> {
        self.event_dispatcher
    }

    pub fn new(handler: Arc<H>, event_dispatcher: Arc<D>) -> (r: Self)
        ensures
            r.spec_handler() == handler,
            r.spec_event_dispatcher() == event_dispatcher,
    {
        Self { handler, event_dispatcher }
    }

    /// What handling `envelope` may end in: the handler's failure, or the outcome of
    /// dispatching the events it produced.
    pub open spec fn dispatch_returns(&self, envelope: NewCommandEnvelope, r: Result<(), CommandError>) -> bool {
        exists|handled: Result<Vec<NewEventEnvelope>, CommandError>|
            #[trigger] self.spec_handler().execute_returns(envelope, handled) && match handled {
                Err(e) => r == Err::<(), CommandError>(e),
                Ok(events) => events_dispatch_returns(self.spec_event_dispatcher(), events@, r),
            }
    }

    /// Handles `envelope` and dispatches the produced events one after another; the first
    /// failure stops the dispatch, and a dispatch failure comes back as an eventing error.
    pub fn dispatch(&self, envelope: &NewCommandEnvelope) -> (r: Result<(), CommandError>)
        ensures
            self.dispatch_returns(*envelope, r),
    {
        let handled = self.handler.execute(envelope);
        assert(self.spec_handler().execute_returns(*envelope, handled));
        let mut rest = match handled {
            Ok(events) => events,
            Err(e) => return Err(e),
        };
        let ghost all = rest@;
        let count = rest.len();
        let mut i: usize = 0;
        while i < count
            invariant
                count == all.len(),
                i <= count,
                rest@ == all.subrange(i as int, count as int),
                handled matches Ok(v) && v@ == all,
                self.spec_handler().execute_returns(*envelope, handled),
                forall|j: int| 0 <= j < i ==> #[trigger] self.spec_event_dispatcher().dispatch_returns(all[j], Ok(())),
            decreases count - i,
        {
            let event = rest.remove(0);
            assert(event == all[i as int]);
            let answer = self.event_dispatcher.dispatch(event);
            assert(self.spec_event_dispatcher().dispatch_returns(all[i as int], answer));
            match answer {
                Ok(u) => {
                    assert(u == ());
                    assert(answer == Ok::<(), EventError>(()));
                },
                Err(e) => {
                    let failure = CommandError::from(e);
                    assert(events_dispatch_returns(self.spec_event_dispatcher(), all, Err::<(), CommandError>(failure)));
                    return Err(failure);
                },
            }
            assert(rest@ =~= all.subrange(i + 1, count as int));
            i = i + 1;
        }
        Ok(())
    }
}

} // verus!
