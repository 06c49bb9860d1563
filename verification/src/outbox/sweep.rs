//! Releasing outbox reservations that were held too long.

use std::sync::Arc;
use vstd::prelude::*;

use crate::outbox::application::{OutboxError, OutboxSweepPort};

verus! {

/// How long a reservation may be held, and the attempt limit past which a swept entry is
/// given up.
#[derive(Clone, Debug, Eq, PartialEq)]
pub struct StaleReservationSpec {
    /// Milliseconds a reservation may be held before it counts as abandoned.
    pub timeout_ms: i64,
    /// Swept entries with `attempts >= max_attempts` become `Dead` rather than `Failed`.
    pub max_attempts: i32,
}

impl StaleReservationSpec {
    /// Attempt limit used unless another is given.
    pub const DEFAULT_MAX_ATTEMPTS: i32 = 6;

    /// A spec with the given timeout and the default attempt limit.
    pub fn new(timeout_ms: i64) -> (r: Self)
        ensures
            r.timeout_ms == timeout_ms,
            r.max_attempts == Self::DEFAULT_MAX_ATTEMPTS,
    {
        Self { timeout_ms, max_attempts: Self::DEFAULT_MAX_ATTEMPTS }
    }

    /// The same spec with another attempt limit.
    pub fn with_max_attempts(self, max_attempts: i32) -> (r: Self)
        ensures
            r.timeout_ms == self.timeout_ms,
            r.max_attempts == max_attempts,
    {
        Self { max_attempts, ..self }
    }
}

/// Releases stale reservations through a sweep port.
pub struct ReservationSweeper<S: OutboxSweepPort + ?Sized = dyn OutboxSweepPort> {
    sweep: Arc<S>,
}

impl<S: OutboxSweepPort + ?Sized> ReservationSweeper<S> {
    pub closed spec fn spec_sweep(&self) -> Arc<S> {
        self.sweep
    }

    pub fn new(sweep: Arc<S>) -> (r: Self)
        ensures
            r.spec_sweep() == sweep,
    {
        Self { sweep }
    }

    /// Hands `spec` to the port and returns its answer: the number of released entries.
    pub fn sweep(&self, spec: &StaleReservationSpec) -> (r: Result<u64, OutboxError>)
        ensures
            self.spec_sweep().sweep_returns(*spec, r),
    {
        self.sweep.sweep(spec)
    }
}

} // verus!
