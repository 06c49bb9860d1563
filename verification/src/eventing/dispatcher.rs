//! Delivering events to a subscriber.

use std::sync::Arc;
use vstd::prelude::*;

use crate::eventing::application::{EventError, NewEventEnvelope};

verus! {

/// Handles delivered events.
pub trait EventSubscriberPort: Send + Sync {
    /// `r` is an answer this subscriber may give to `handle(envelope)`. The subscriber decides its answers
    /// ; unless an implementation says more, any answer may come.
    closed spec fn handle_returns(&self, envelope: NewEventEnvelope, r: Result<(), EventError>) -> bool {
        true
    }

    fn handle(&self, envelope: &NewEventEnvelope) -> (r: Result<(), EventError>)
        ensures
            self.handle_returns(*envelope, r),
    ;
}

/// Delivers events to one subscriber.
pub struct EventDispatcher<S: EventSubscriberPort + ?Sized = dyn EventSubscriberPort> {
    subscriber: Arc<S>,
}

impl<S: EventSubscriberPort + ?Sized> EventDispatcher<S> {
    pub closed spec fn spec_subscriber(&self) -> Arc<S> {
        self.subscriber
    }

    pub fn new(subscriber: Arc<S>) -> (r: Self)
        ensures
            r.spec_subscriber() == subscriber,
    {
        Self { subscriber }
    }

    /// Hands `envelope` to the subscriber and returns its answer.
    pub fn dispatch(&self, envelope: &NewEventEnvelope) -> (r: Result<(), EventError>)
        ensures
            self.spec_subscriber().handle_returns(*envelope, r),
    {
        self.subscriber.handle(envelope)
    }
}

} // verus!
