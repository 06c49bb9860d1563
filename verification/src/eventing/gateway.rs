//! Entry point for events produced by command handlers.

use std::sync::Arc;
use vstd::prelude::*;

use crate::eventing::application::{missing_event_id, EventDispatchPort, EventError, EventStorePort, NewEventEnvelope};
use crate::eventing::dispatcher::{EventDispatcher, EventSubscriberPort};
use crate::eventing::recorder::EventRecorder;

verus! {

/// Delivers events at once (`Direct`) or stores them for later delivery (`TwoPhased`).
pub enum EventGateway<
    S: EventSubscriberPort + ?Sized = dyn EventSubscriberPort,
    T: EventStorePort + ?Sized = dyn EventStorePort,
> {
    Direct { dispatcher: Arc<EventDispatcher<S>> },
    TwoPhased { recorder: Arc<EventRecorder<T>> },
}

impl<S: EventSubscriberPort + ?Sized, T: EventStorePort + ?Sized> EventGateway<S, T> {
    pub fn direct(dispatcher: Arc<EventDispatcher<S>>) -> (g: Self)
        ensures
            g == (Self::Direct { dispatcher }),
    {
        EventGateway::Direct { dispatcher }
    }

    pub fn two_phased(recorder: Arc<EventRecorder<T>>) -> (g: Self)
        ensures
            g == (Self::TwoPhased { recorder }),
    {
        EventGateway::TwoPhased { recorder }
    }

    /// `r` may be the answer of the place this gateway hands `envelope` to: the subscriber
    /// (`Direct`) or the store (`TwoPhased`).
    pub open spec fn forward_returns(&self, envelope: NewEventEnvelope, r: Result<(), EventError>) -> bool {
        match self {
            EventGateway::Direct { dispatcher } => dispatcher.spec_subscriber().handle_returns(envelope, r),
            EventGateway::TwoPhased { recorder } => recorder.spec_repo().spec_store().record_returns(envelope, r),
        }
    }

    /// Delivers or stores `envelope`; an event without metadata carries no event id and is
    /// refused before anything else happens.
    pub fn dispatch(&self, envelope: NewEventEnvelope) -> (r: Result<(), EventError>)
        ensures
            envelope.metadata is None ==> (r matches Err(EventError::Conversion(m))
                && m@ == "event_id is required: metadata is missing"@),
            envelope.metadata is Some ==> self.forward_returns(envelope, r),
    {
        if envelope.metadata.is_none() {
            return Err(missing_event_id(false));
        }
        match self {
            EventGateway::Direct { dispatcher } => dispatcher.dispatch(&envelope),
            EventGateway::TwoPhased { recorder } => recorder.record(&envelope),
        }
    }
}

/// `out` is `inner` seen through a dispatch port: a failure keeps its text and becomes an
/// event dispatch error.
pub open spec fn seen_as_dispatch(inner: Result<(), EventError>, out: Result<(), EventError>) -> bool {
    &&& inner is Ok <==> out is Ok
    &&& inner matches Err(e) ==> (out matches Err(EventError::EventDispatch(m)) && m@ == e.text())
}

/// The error a dispatch port reports for a failure of the gateway: its text, as an event
/// dispatch error.
fn as_dispatch_error(r: Result<(), EventError>) -> (out: Result<(), EventError>)
    ensures
        seen_as_dispatch(r, out),
{
    match r {
        Ok(()) => Ok(()),
        Err(e) => Err(EventError::EventDispatch(e.message())),
    }
}

impl<S: EventSubscriberPort + ?Sized, T: EventStorePort + ?Sized> EventDispatchPort for EventGateway<S, T> {
    /// An event without metadata is refused; any other is handed on, and the answer comes
    /// back with every failure as an event dispatch error.
    open spec fn dispatch_returns(&self, event: NewEventEnvelope, r: Result<(), EventError>) -> bool {
        if event.metadata is None {
            r matches Err(EventError::EventDispatch(m)) && m@ == "event_id is required: metadata is missing"@
        } else {
            exists|inner: Result<(), EventError>| #[trigger] self.forward_returns(event, inner) && seen_as_dispatch(inner, r)
        }
    }

    /// Every failure reaches the caller as an event dispatch error.
    fn dispatch(&self, event: NewEventEnvelope) -> (r: Result<(), EventError>)
        ensures
            r matches Err(e) ==> e is EventDispatch,
            event.metadata is None ==> (r matches Err(EventError::EventDispatch(m))
                && m@ == "event_id is required: metadata is missing"@),
    {
        if event.metadata.is_none() {
            return Err(missing_event_id(true));
        }
        let inner = match self {
            EventGateway::Direct { dispatcher } => dispatcher.dispatch(&event),
            EventGateway::TwoPhased { recorder } => recorder.record(&event),
        };
        assert(self.forward_returns(event, inner));
        as_dispatch_error(inner)
    }
}

} // verus!
