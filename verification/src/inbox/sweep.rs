//! Releasing inbox reservations that were held too long.

use std::sync::Arc;
use vstd::prelude::*;

use crate::inbox::application::InboxError;
use crate::support::{cutoff_before, now_millis, CLOCK_LIMIT};

verus! {

/// A condition of the sweep query.
#[derive(Debug, Clone, Copy, PartialEq, Eq)]
pub enum SweepCriterion {
    /// Reserved before this time (milliseconds since the Unix epoch).
    ReservedBefore(i64),
    /// Swept messages with at least this many attempts are given up.
    MaxAttempts(i32),
}

/// How long a reservation may be held before it counts as abandoned, and the attempt limit
/// for swept messages.
#[derive(Debug, Clone, PartialEq, Eq)]
pub struct StaleReservationSpec {
    /// Milliseconds a reservation may be held before it is stale.
    pub timeout_ms: i64,
    /// Swept messages with `attempts >= max_attempts` become dead rather than failed.
    pub max_attempts: i32,
}

impl StaleReservationSpec {
    /// Attempt limit used unless another is given.
    pub const DEFAULT_MAX_ATTEMPTS: i32 = 6;

    /// A spec with the given timeout and the default attempt limit.
    pub fn new(timeout_ms: i64) -> (r: Self)
        ensures
            r.timeout_ms == timeout_ms,
            r.max_attempts == Self::DEFAULT_MAX_ATTEMPTS,
    {
        Self { timeout_ms, max_attempts: Self::DEFAULT_MAX_ATTEMPTS }
    }

    /// The same spec with another attempt limit.
    pub fn with_max_attempts(self, max_attempts: i32) -> (r: Self)
        ensures
            r.timeout_ms == self.timeout_ms,
            r.max_attempts == max_attempts,
    {
        Self { max_attempts, ..self }
    }

    /// The query of a sweep at time `now`, in order: reservations taken before
    /// `now - timeout`, and the attempt limit past which swept messages are given up.
    pub fn criteria_at(&self, now: i64) -> (c: Vec<SweepCriterion>)
        requires
            -CLOCK_LIMIT < now < CLOCK_LIMIT,
            -0x4000_0000_0000_0000 <= self.timeout_ms <= 0x4000_0000_0000_0000,
        ensures
            c@ == seq![
                SweepCriterion::ReservedBefore((now - self.timeout_ms) as i64),
                SweepCriterion::MaxAttempts(self.max_attempts),
            ],
    {
        let mut c = Vec::new();
        c.push(SweepCriterion::ReservedBefore(cutoff_before(now, self.timeout_ms)));
        c.push(SweepCriterion::MaxAttempts(self.max_attempts));
        assert(c@ =~= seq![
            SweepCriterion::ReservedBefore((now - self.timeout_ms) as i64),
            SweepCriterion::MaxAttempts(self.max_attempts),
        ]);
        c
    }

    /// The query of a sweep now.
    pub fn criteria(&self) -> (c: Vec<SweepCriterion>)
        requires
            -0x4000_0000_0000_0000 <= self.timeout_ms <= 0x4000_0000_0000_0000,
        ensures
            c@.len() == 2,
            c@[0] matches SweepCriterion::ReservedBefore(cutoff) && cutoff + self.timeout_ms < CLOCK_LIMIT,
            c@[1] == SweepCriterion::MaxAttempts(self.max_attempts),
    {
        let now = now_millis();
        self.criteria_at(now)
    }
}

/// Releases stale reservations back into the processable pool: every reserved message held
/// longer than the timeout becomes failed (or dead once its attempts reach the limit), loses
/// its reservation and is rescheduled by the standard backoff. Returns the number of released
/// messages.
pub trait InboxSweepPort: Send + Sync {
    /// `r` is an answer this port may give to `sweep(spec)`. The port decides its answers
    /// (mostly through storage); unless an implementation says more, any answer may come.
    closed spec fn sweep_returns(&self, spec: StaleReservationSpec, r: Result<usize, InboxError>) -> bool {
        true
    }

    fn sweep(&self, spec: &StaleReservationSpec) -> (r: Result<usize, InboxError>)
        ensures
            self.sweep_returns(*spec, r),
    ;
}

/// Releases messages stuck in `Reserved` longer than a timeout, so that they can be
/// reserved again.
pub struct ReservationSweeper<S: InboxSweepPort + ?Sized = dyn InboxSweepPort> {
    port: Arc<S>,
}

impl<S: InboxSweepPort + ?Sized> Clone for ReservationSweeper<S> {
    fn clone(&self) -> (r: Self)
        ensures
            r == *self,
    {
        Self { port: Arc::clone(&self.port) }
    }
}

impl<S: InboxSweepPort + ?Sized> ReservationSweeper<S> {
    pub closed spec fn spec_port(&self) -> Arc<S> {
        self.port
    }

    pub fn new(port: Arc<S>) -> (r: Self)
        ensures
            r.spec_port() == port,
    {
        Self { port }
    }

    /// Hands `spec` to the port and returns its answer: the number of released messages.
    pub fn sweep(&self, spec: &StaleReservationSpec) -> (r: Result<usize, InboxError>)
        ensures
            self.spec_port().sweep_returns(*spec, r),
    {
        self.port.sweep(spec)
    }
}

} // verus!
