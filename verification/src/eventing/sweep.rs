//! Releasing event reservations that were held too long.

use std::sync::Arc;
use vstd::prelude::*;

use crate::eventing::application::EventError;
use crate::eventing::domain::Criterion;
use crate::support::{cutoff_before, now_millis, CLOCK_LIMIT};

verus! {

/// How long a reservation may be held, and the attempt limit for swept events.
#[derive(Debug, Clone, PartialEq, Eq)]
pub struct StaleEventSpec {
    /// Milliseconds a reservation may be held before it counts as abandoned.
    pub timeout_ms: i64,
    pub max_attempts: i32,
}

impl StaleEventSpec {
    /// Attempt limit used unless another is given.
    pub const DEFAULT_MAX_ATTEMPTS: i32 = 6;

    /// A spec with the given timeout and the default attempt limit.
    pub fn new(timeout_ms: i64) -> (r: Self)
        ensures
            r.timeout_ms == timeout_ms,
            r.max_attempts == Self::DEFAULT_MAX_ATTEMPTS,
    {
        Self { timeout_ms, max_attempts: Self::DEFAULT_MAX_ATTEMPTS }
    }

    /// The same spec with another attempt limit.
    pub fn with_max_attempts(self, max_attempts: i32) -> (r: Self)
        ensures
            r.timeout_ms == self.timeout_ms,
            r.max_attempts == max_attempts,
    {
        Self { max_attempts, ..self }
    }

    /// The storage query of a sweep at time `now`: reservations taken before `now - timeout`.
    pub fn criteria_at(&self, now: i64) -> (c: Vec<Criterion>)
        requires
            -CLOCK_LIMIT < now < CLOCK_LIMIT,
            -0x4000_0000_0000_0000 <= self.timeout_ms <= 0x4000_0000_0000_0000,
        ensures
            c@ == seq![Criterion::ReservedBefore((now - self.timeout_ms) as i64)],
    {
        let mut c = Vec::new();
        c.push(Criterion::ReservedBefore(cutoff_before(now, self.timeout_ms)));
        assert(c@ =~= seq![Criterion::ReservedBefore((now - self.timeout_ms) as i64)]);
        c
    }

    /// The storage query of a sweep now.
    pub fn criteria(&self) -> (c: Vec<Criterion>)
        requires
            -0x4000_0000_0000_0000 <= self.timeout_ms <= 0x4000_0000_0000_0000,
        ensures
            c@.len() == 1,
            c@[0] matches Criterion::ReservedBefore(cutoff) && cutoff + self.timeout_ms < CLOCK_LIMIT,
    {
        let now = now_millis();
        self.criteria_at(now)
    }
}

/// Releases event reservations that were held too long.
pub trait EventSweepPort: Send + Sync {
    /// `r` is an answer this port may give to `sweep(spec)`. The port decides its answers
    /// (mostly through storage); unless an implementation says more, any answer may come.
    closed spec fn sweep_returns(&self, spec: StaleEventSpec, r: Result<u64, EventError>) -> bool {
        true
    }

    fn sweep(&self, spec: &StaleEventSpec) -> (r: Result<u64, EventError>)
        ensures
            self.sweep_returns(*spec, r),
    ;
}

/// Releases stale reservations through a sweep port.
pub struct EventSweeper<S: EventSweepPort + ?Sized = dyn EventSweepPort> {
    port: Arc<S>,
}

impl<S: EventSweepPort + ?Sized> Clone for EventSweeper<S> {
    fn clone(&self) -> (r: Self)
        ensures
            r == *self,
    {
        Self { port: Arc::clone(&self.port) }
    }
}

impl<S: EventSweepPort + ?Sized> EventSweeper<S> {
    pub closed spec fn spec_port(&self) -> Arc<S> {
        self.port
    }

    pub fn new(port: Arc<S>) -> (r: Self)
        ensures
            r.spec_port() == port,
    {
        Self { port }
    }

    /// Hands `spec` to the port and returns its answer: the number of released events.
    pub fn sweep(&self, spec: &StaleEventSpec) -> (r: Result<u64, EventError>)
        ensures
            self.spec_port().sweep_returns(*spec, r),
    {
        self.port.sweep(spec)
    }
}

} // verus!
