//! The storage lifecycle shared by inbox, outbox, command and event entries.
//!
//! Every stored entry moves through the same stages: it is received, claimed by a
//! consumer (reserved), then completed, failed (and retried later) or given up (dead).
//! `LifecycleTable` is an in-memory model of a store: it holds the lifecycle state of a
//! set of entries and applies the storage operations to it, and its laws hold of that
//! model. The database adapters outside this library write their own SQL, which nothing
//! here checks against the model; they share with it only the decisions of the per-store
//! `storage` modules (status, schedule and attempt updates, query parameters).
//! Times are milliseconds since the Unix epoch; delays are seconds.

use vstd::prelude::*;

verus! {

/// Lifecycle stage of a stored entry.
#[derive(Debug, Clone, Copy, PartialEq, Eq, Structural)]
pub enum Stage {
    Received,
    Reserved,
    Failed,
    Completed,
    Dead,
    Archive,
}

/// The lifecycle fields of one stored entry.
#[derive(Debug, Clone, Copy, PartialEq, Eq)]
pub struct EntryState {
    pub stage: Stage,
    /// Number of attempts so far: one per reservation, and one per failure report where the
    /// store's policy counts failures.
    pub attempts: i32,
    /// Earliest time at which the entry may be reserved.
    pub scheduled_at: i64,
    /// The current holder of the entry, while it is reserved.
    pub reservation_id: Option<u128>,
    pub reserved_at: Option<i64>,
    pub updated_at: i64,
    pub processed_at: Option<i64>,
}

/// One stored entry: its identifier and lifecycle state.
#[derive(Debug, Clone, Copy, PartialEq, Eq)]
pub struct TrackedEntry {
    pub id: u128,
    pub state: EntryState,
}

/// How a store reschedules entries after a failure and what its stale-reservation sweep does.
#[derive(Debug, Clone, Copy, PartialEq, Eq)]
pub struct RetryPolicy {
    /// Whether the failure backoff stops growing at `RETRY_BACKOFF_CAP_SECONDS`.
    pub capped_backoff: bool,
    /// Whether an entry given up after its last attempt is rescheduled all the same.
    pub reschedule_dead: bool,
    /// Whether the sweep treats a stale entry as a failure report: given up once its
    /// attempts are used up, else failed, and scheduled like a failure report. Otherwise the
    /// sweep releases every stale entry as failed, with a delay of `attempts` times the base
    /// backoff.
    pub sweep_gives_up: bool,
    /// Whether a failure report counts as one more attempt.
    pub failure_counts_attempt: bool,
}

/// The attempt count after a failure report: one more when the policy counts failures
/// (held at the largest `i32`), else unchanged.
pub open spec fn counted_attempts(attempts: i32, policy: RetryPolicy) -> i32 {
    if policy.failure_counts_attempt && attempts < i32::MAX {
        (attempts + 1) as i32
    } else {
        attempts
    }
}

/// The attempt count after a failure report.
pub fn count_attempt(attempts: i32, policy: RetryPolicy) -> (n: i32)
    ensures
        n == counted_attempts(attempts, policy),
{
    if policy.failure_counts_attempt && attempts < i32::MAX {
        attempts + 1
    } else {
        attempts
    }
}

/// Base retry delay, in seconds, per attempt.
pub const RETRY_BACKOFF_SECONDS: i64 = 30;

/// Longest retry delay, in seconds, of a capped backoff.
pub const RETRY_BACKOFF_CAP_SECONDS: i64 = 120;

/// Latest time the stores accept: later ones leave no room for the longest retry delay.
pub const LATEST_TIME: i64 = 9223307612345365807;

/// The failure backoff in seconds: `max(attempts, 1)` times the base delay, capped when asked.
pub open spec fn backoff_seconds(attempts: int, capped: bool) -> int {
    let d = (if attempts < 1 { 1 } else { attempts }) * RETRY_BACKOFF_SECONDS;
    if capped && d > RETRY_BACKOFF_CAP_SECONDS {
        RETRY_BACKOFF_CAP_SECONDS as int
    } else {
        d
    }
}

/// The failure backoff in seconds for an entry reserved `attempts` times.
pub fn retry_delay_seconds(attempts: i32, capped: bool) -> (d: i64)
    ensures
        d == backoff_seconds(attempts as int, capped),
{
    let base: i64 = if attempts < 1 { 1 } else { attempts as i64 };
    let d = base * RETRY_BACKOFF_SECONDS;
    if capped && d > RETRY_BACKOFF_CAP_SECONDS {
        RETRY_BACKOFF_CAP_SECONDS
    } else {
        d
    }
}

/// Whether an entry is held by the reservation `reservation_id`.
pub open spec fn held_by(s: EntryState, reservation_id: u128) -> bool {
    s.stage == Stage::Reserved && s.reservation_id == Some(reservation_id)
}

/// Whether an entry may be reserved at `now` under the attempt limit `max_attempts`.
pub open spec fn eligible(s: EntryState, now: i64, max_attempts: i32) -> bool {
    (s.stage == Stage::Received || s.stage == Stage::Failed) && s.scheduled_at <= now && s.attempts
        < max_attempts
}

/// A freshly received entry.
pub open spec fn received_state(scheduled_at: i64, received_at: i64) -> EntryState {
    EntryState {
        stage: Stage::Received,
        attempts: 0,
        scheduled_at,
        reservation_id: None,
        reserved_at: None,
        updated_at: received_at,
        processed_at: None,
    }
}

/// The state of an entry once `reservation_id` claims it at `now`.
pub open spec fn reserved_state(s: EntryState, reservation_id: u128, now: i64) -> EntryState {
    EntryState {
        stage: Stage::Reserved,
        attempts: (s.attempts + 1) as i32,
        reservation_id: Some(reservation_id),
        reserved_at: Some(now),
        updated_at: now,
        ..s
    }
}

/// The state of an entry whose holder reports success at `now`.
pub open spec fn completed_state(s: EntryState, now: i64) -> EntryState {
    EntryState {
        stage: Stage::Completed,
        reservation_id: None,
        reserved_at: None,
        updated_at: now,
        processed_at: Some(now),
        ..s
    }
}

/// The state of an entry whose holder reports failure at `now`: given up once its
/// attempts reach `max_attempts`, else failed and rescheduled after the backoff.
pub open spec fn failed_state(s: EntryState, max_attempts: i32, now: i64, policy: RetryPolicy) -> EntryState {
    let attempts = counted_attempts(s.attempts, policy);
    let exhausted = attempts >= max_attempts;
    EntryState {
        attempts,
        stage: if exhausted {
            Stage::Dead
        } else {
            Stage::Failed
        },
        scheduled_at: if exhausted && !policy.reschedule_dead {
            s.scheduled_at
        } else {
            (now + 1000 * backoff_seconds(attempts as int, policy.capped_backoff)) as i64
        },
        reservation_id: None,
        reserved_at: None,
        updated_at: now,
        ..s
    }
}

/// The state of an entry its holder gives up at `now`.
pub open spec fn dead_state(s: EntryState, now: i64) -> EntryState {
    EntryState { stage: Stage::Dead, reservation_id: None, reserved_at: None, updated_at: now, ..s }
}

/// Whether a reservation was taken before `cutoff` and is still held.
pub open spec fn stale(s: EntryState, cutoff: i64) -> bool {
    &&& s.stage == Stage::Reserved
    &&& s.reserved_at matches Some(t) && t < cutoff
}

/// The state of a stale entry once the sweep at `now` releases it.
pub open spec fn swept_state(s: EntryState, max_attempts: i32, now: i64, policy: RetryPolicy) -> EntryState {
    let gives_up = policy.sweep_gives_up && s.attempts >= max_attempts;
    EntryState {
        stage: if gives_up {
            Stage::Dead
        } else {
            Stage::Failed
        },
        scheduled_at: if gives_up && !policy.reschedule_dead {
            s.scheduled_at
        } else if policy.sweep_gives_up {
            (now + 1000 * backoff_seconds(s.attempts as int, policy.capped_backoff)) as i64
        } else {
            (now + 1000 * RETRY_BACKOFF_SECONDS * s.attempts) as i64
        },
        reservation_id: None,
        reserved_at: None,
        updated_at: now,
        ..s
    }
}

/// The longest delay, in milliseconds, that an update may add to `now`.
pub open spec fn clock_ok(now: i64) -> bool {
    now <= LATEST_TIME
}

/// Applies a failure report to one entry state.
pub fn fail_entry(s: EntryState, max_attempts: i32, now: i64, policy: RetryPolicy) -> (r: EntryState)
    requires
        clock_ok(now),
        0 <= s.attempts,
    ensures
        r == failed_state(s, max_attempts, now, policy),
{
    let attempts = count_attempt(s.attempts, policy);
    let exhausted = attempts >= max_attempts;
    let scheduled_at = if exhausted && !policy.reschedule_dead {
        s.scheduled_at
    } else {
        now + 1000 * retry_delay_seconds(attempts, policy.capped_backoff)
    };
    EntryState {
        attempts,
        stage: if exhausted {
            Stage::Dead
        } else {
            Stage::Failed
        },
        scheduled_at,
        reservation_id: None,
        reserved_at: None,
        updated_at: now,
        ..s
    }
}

/// Releases one stale entry.
pub fn sweep_entry(s: EntryState, max_attempts: i32, now: i64, policy: RetryPolicy) -> (r: EntryState)
    requires
        clock_ok(now),
        0 <= s.attempts,
    ensures
        r == swept_state(s, max_attempts, now, policy),
{
    let gives_up = policy.sweep_gives_up && s.attempts >= max_attempts;
    let scheduled_at = if gives_up && !policy.reschedule_dead {
        s.scheduled_at
    } else if policy.sweep_gives_up {
        now + 1000 * retry_delay_seconds(s.attempts, policy.capped_backoff)
    } else {
        now + 1000 * RETRY_BACKOFF_SECONDS * (s.attempts as i64)
    };
    EntryState {
        stage: if gives_up {
            Stage::Dead
        } else {
            Stage::Failed
        },
        scheduled_at,
        reservation_id: None,
        reserved_at: None,
        updated_at: now,
        ..s
    }
}

/// A reservation update asked of an entry that the given reservation does not hold.
#[derive(Debug, Clone, Copy, PartialEq, Eq)]
pub struct NotReserved {
    pub id: u128,
    pub reservation_id: u128,
}

/// The lifecycle state of every entry of a store.
pub struct LifecycleTable {
    rows: Vec<TrackedEntry>,
}

/// No two rows share an identifier, and no attempt count is negative.
pub open spec fn rows_wf(rows: Seq<TrackedEntry>) -> bool {
    &&& forall|i: int, j: int| 0 <= i < j < rows.len() ==> rows[i].id != rows[j].id
    &&& forall|i: int| 0 <= i < rows.len() ==> 0 <= #[trigger] rows[i].state.attempts
}

/// Whether some row has identifier `id`.
pub open spec fn has_id(rows: Seq<TrackedEntry>, id: u128) -> bool {
    exists|k: int| 0 <= k < rows.len() && #[trigger] rows[k].id == id
}

/// Whether the row with identifier `id` is held by `reservation_id`.
pub open spec fn holds(rows: Seq<TrackedEntry>, id: u128, reservation_id: u128) -> bool {
    exists|k: int| 0 <= k < rows.len() && #[trigger] rows[k].id == id && held_by(rows[k].state, reservation_id)
}

/// `new` is `old` with the row `id`, if `reservation_id` holds it, replaced by `f` of its state.
pub open spec fn update_held(
    old: Seq<TrackedEntry>,
    new: Seq<TrackedEntry>,
    id: u128,
    reservation_id: u128,
    f: spec_fn(EntryState) -> EntryState,
) -> bool {
    &&& new.len() == old.len()
    &&& forall|k: int|
        0 <= k < old.len() ==> #[trigger] new[k] == if old[k].id == id && held_by(
            old[k].state,
            reservation_id,
        ) {
            TrackedEntry { id, state: f(old[k].state) }
        } else {
            old[k]
        }
}

/// `new` and `claimed` are what a reservation of up to `limit` entries by `reservation_id`
/// at `now` makes of the rows `old`:
/// - only eligible rows change, each into its reserved state;
/// - the claimed entries are exactly the changed rows, each once, in ascending
///   `scheduled_at` order, and no more than `limit` of them;
/// - fewer than `limit` are claimed only when no eligible row is left;
/// - no eligible row left behind is scheduled before a claimed one.
pub open spec fn reservation_step(
    old: Seq<TrackedEntry>,
    new: Seq<TrackedEntry>,
    claimed: Seq<TrackedEntry>,
    limit: usize,
    max_attempts: i32,
    now: i64,
    reservation_id: u128,
) -> bool {
    &&& new.len() == old.len()
    &&& forall|k: int| 0 <= k < old.len() ==> (#[trigger] new[k] == old[k] || (eligible(old[k].state, now, max_attempts)
        && new[k] == (TrackedEntry { id: old[k].id, state: reserved_state(old[k].state, reservation_id, now) })))
    &&& claimed.len() <= limit
    &&& forall|p: int| 0 <= p < claimed.len() ==> newly_reserved(old, new, #[trigger] claimed[p])
    &&& forall|k: int| 0 <= k < old.len() && #[trigger] new[k] != old[k] ==> claimed.contains(new[k])
    &&& forall|a: int, b: int| 0 <= a < b < claimed.len() ==> claimed[a].id != claimed[b].id
    &&& claimed.len() < limit ==> forall|k: int| 0 <= k < old.len() && eligible(#[trigger] old[k].state, now, max_attempts)
        ==> new[k] != old[k]
    &&& forall|a: int, b: int| 0 <= a < b < claimed.len() ==> claimed[a].state.scheduled_at <= claimed[b].state.scheduled_at
    &&& forall|k: int, p: int| 0 <= k < old.len() && 0 <= p < claimed.len() && eligible(old[k].state, now, max_attempts)
        && #[trigger] new[k] == old[k] ==> #[trigger] claimed[p].state.scheduled_at <= old[k].state.scheduled_at
}

/// `entry` is a row of `new` that differs from the row at the same place in `old`.
pub open spec fn newly_reserved(old: Seq<TrackedEntry>, new: Seq<TrackedEntry>, entry: TrackedEntry) -> bool {
    exists|k: int| 0 <= k < old.len() && k < new.len() && #[trigger] new[k] == entry && new[k] != old[k]
}

/// `new` is what the sweep at `now` with `cutoff` makes of `old`: stale rows are released,
/// every other row is left as it is.
pub open spec fn sweep_step(
    old: Seq<TrackedEntry>,
    new: Seq<TrackedEntry>,
    cutoff: i64,
    max_attempts: i32,
    now: i64,
    policy: RetryPolicy,
) -> bool {
    &&& new.len() == old.len()
    &&& forall|k: int| 0 <= k < old.len() ==> #[trigger] new[k] == if stale(old[k].state, cutoff) {
        TrackedEntry { id: old[k].id, state: swept_state(old[k].state, max_attempts, now, policy) }
    } else {
        old[k]
    }
}

/// `new` is what storing the entry `id` makes of `old`: nothing changes when `id` is
/// already stored, else a received row is appended.
pub open spec fn insert_step(old: Seq<TrackedEntry>, new: Seq<TrackedEntry>, id: u128, scheduled_at: i64, received_at: i64) -> bool {
    &&& has_id(old, id) ==> new == old
    &&& !has_id(old, id) ==> new == old.push(TrackedEntry { id, state: received_state(scheduled_at, received_at) })
}

/// Number of rows a sweep with `cutoff` releases.
pub open spec fn stale_count(rows: Seq<TrackedEntry>, cutoff: i64) -> nat
    decreases rows.len(),
{
    if rows.len() == 0 {
        0
    } else {
        stale_count(rows.drop_last(), cutoff) + if stale(rows.last().state, cutoff) {
            1nat
        } else {
            0nat
        }
    }
}


/// The rows' identifiers are those of `old`, place by place.
pub open spec fn same_ids(old: Seq<TrackedEntry>, new: Seq<TrackedEntry>) -> bool {
    new.len() == old.len() && forall|k: int| 0 <= k < old.len() ==> #[trigger] new[k].id == old[k].id
}

proof fn lemma_reservation_keeps_ids(old: Seq<TrackedEntry>, new: Seq<TrackedEntry>, claimed: Seq<TrackedEntry>, limit: usize, max_attempts: i32, now: i64, reservation_id: u128)
    requires
        rows_wf(old),
        reservation_step(old, new, claimed, limit, max_attempts, now, reservation_id),
    ensures
        same_ids(old, new),
        rows_wf(new),
{
    assert forall|k: int| 0 <= k < old.len() implies #[trigger] new[k].id == old[k].id by {
        assert(new[k] == old[k] || new[k].id == old[k].id);
    }
    assert forall|i: int, j: int| 0 <= i < j < new.len() implies new[i].id != new[j].id by {
        assert(new[i].id == old[i].id);
        assert(new[j].id == old[j].id);
    }
    assert forall|i: int| 0 <= i < new.len() implies 0 <= #[trigger] new[i].state.attempts by {
        assert(new[i] == old[i] || new[i].state.attempts == old[i].state.attempts + 1);
        assert(0 <= old[i].state.attempts);
    }
}

/// Every entry a reservation claims is held by that reservation afterwards, so the
/// consumer that received it can report its outcome.
pub proof fn law_claimed_entries_are_held(
    old: Seq<TrackedEntry>,
    new: Seq<TrackedEntry>,
    claimed: Seq<TrackedEntry>,
    limit: usize,
    max_attempts: i32,
    now: i64,
    reservation_id: u128,
)
    requires
        rows_wf(old),
        reservation_step(old, new, claimed, limit, max_attempts, now, reservation_id),
    ensures
        forall|p: int| 0 <= p < claimed.len() ==> holds(new, #[trigger] claimed[p].id, reservation_id),
        forall|p: int| 0 <= p < claimed.len() ==> (#[trigger] claimed[p]).state.attempts <= max_attempts,
{
    assert forall|p: int| 0 <= p < claimed.len() implies holds(new, #[trigger] claimed[p].id, reservation_id)
        && claimed[p].state.attempts <= max_attempts by {
        assert(newly_reserved(old, new, claimed[p]));
        let k = choose|k: int| 0 <= k < old.len() && k < new.len() && #[trigger] new[k] == claimed[p] && new[k] != old[k];
        assert(new[k].id == claimed[p].id);
    }
}

/// Two reservations one after the other never claim the same entry.
pub proof fn law_reservations_are_disjoint(
    r0: Seq<TrackedEntry>,
    r1: Seq<TrackedEntry>,
    r2: Seq<TrackedEntry>,
    first: Seq<TrackedEntry>,
    second: Seq<TrackedEntry>,
    limits: (usize, usize),
    max_attempts: (i32, i32),
    times: (i64, i64),
    reservations: (u128, u128),
)
    requires
        rows_wf(r0),
        reservation_step(r0, r1, first, limits.0, max_attempts.0, times.0, reservations.0),
        reservation_step(r1, r2, second, limits.1, max_attempts.1, times.1, reservations.1),
    ensures
        forall|a: int, b: int| 0 <= a < first.len() && 0 <= b < second.len() ==> #[trigger] first[a].id != #[trigger] second[b].id,
{
    lemma_reservation_keeps_ids(r0, r1, first, limits.0, max_attempts.0, times.0, reservations.0);
    lemma_reservation_keeps_ids(r1, r2, second, limits.1, max_attempts.1, times.1, reservations.1);
    assert forall|a: int, b: int| 0 <= a < first.len() && 0 <= b < second.len() implies #[trigger] first[a].id != #[trigger] second[b].id by {
        assert(newly_reserved(r0, r1, first[a]));
        assert(newly_reserved(r1, r2, second[b]));
        let i = choose|k: int| 0 <= k < r0.len() && k < r1.len() && #[trigger] r1[k] == first[a] && r1[k] != r0[k];
        let j = choose|k: int| 0 <= k < r1.len() && k < r2.len() && #[trigger] r2[k] == second[b] && r2[k] != r1[k];
        assert(r1[i].state.stage == Stage::Reserved);
        assert(eligible(r1[j].state, times.1, max_attempts.1));
        if first[a].id == second[b].id {
            assert(r1[i].id == r1[j].id);
            assert(i == j);
        }
    }
}

/// Once its holder has reported an outcome, an entry is held by no reservation: a second
/// report for it is refused.
pub proof fn law_reports_release_the_entry(
    r0: Seq<TrackedEntry>,
    r1: Seq<TrackedEntry>,
    id: u128,
    reservation_id: u128,
    other: u128,
    outcome: spec_fn(EntryState) -> EntryState,
    max_attempts: i32,
    now: i64,
    policy: RetryPolicy,
)
    requires
        rows_wf(r0),
        holds(r0, id, reservation_id),
        outcome == (|s: EntryState| completed_state(s, now)) || outcome == (|s: EntryState|
            failed_state(s, max_attempts, now, policy)) || outcome == (|s: EntryState| dead_state(s, now)),
        update_held(r0, r1, id, reservation_id, outcome),
    ensures
        !holds(r1, id, other),
{
    if holds(r1, id, other) {
        let k = choose|k: int| 0 <= k < r1.len() && #[trigger] r1[k].id == id && held_by(r1[k].state, other);
        let j = choose|k: int| 0 <= k < r0.len() && #[trigger] r0[k].id == id && held_by(r0[k].state, reservation_id);
        if r0[k].id == id && held_by(r0[k].state, reservation_id) {
            assert(r1[k] == TrackedEntry { id, state: outcome(r0[k].state) });
        } else {
            assert(r1[k] == r0[k]);
            assert(k != j);
        }
    }
}

/// A failure report first counts the attempt when the policy says so (attempts go up by
/// one, else they stay as they are). It gives the entry up exactly when the counted attempts
/// are used up. Otherwise the entry is scheduled again, no sooner than the base backoff
/// after the report (and, with a capped backoff, no later than the cap).
pub proof fn law_failure_outcome(s: EntryState, max_attempts: i32, now: i64, policy: RetryPolicy)
    requires
        clock_ok(now),
        0 <= s.attempts,
    ensures
        failed_state(s, max_attempts, now, policy).attempts == (if policy.failure_counts_attempt && s.attempts < i32::MAX {
            s.attempts + 1
        } else {
            s.attempts as int
        }),
        (failed_state(s, max_attempts, now, policy).stage == Stage::Dead) == (failed_state(s, max_attempts, now, policy).attempts >= max_attempts),
        (failed_state(s, max_attempts, now, policy).stage == Stage::Failed) == (failed_state(s, max_attempts, now, policy).attempts < max_attempts),
        failed_state(s, max_attempts, now, policy).reservation_id is None,
        failed_state(s, max_attempts, now, policy).stage == Stage::Failed ==> failed_state(s, max_attempts, now, policy).scheduled_at
            >= now + 1000 * RETRY_BACKOFF_SECONDS,
        failed_state(s, max_attempts, now, policy).stage == Stage::Failed && policy.capped_backoff ==> failed_state(
            s,
            max_attempts,
            now,
            policy,
        ).scheduled_at <= now + 1000 * RETRY_BACKOFF_CAP_SECONDS,
{
    let n = counted_attempts(s.attempts, policy);
    law_backoff_bounds(n as int, n as int, policy.capped_backoff);
    assert(backoff_seconds(n as int, policy.capped_backoff) <= 30 * 2147483647);
}

/// A failed entry may be reserved again exactly once its new schedule has come, as long as
/// it has attempts left; an entry given up, completed or given up by its holder is never
/// reserved again.
pub proof fn law_settled_entries_stay_settled(s: EntryState, max_attempts: i32, now: i64, policy: RetryPolicy, t: i64, m: i32)
    requires
        clock_ok(now),
        0 <= s.attempts,
    ensures
        counted_attempts(s.attempts, policy) < max_attempts ==> (eligible(failed_state(s, max_attempts, now, policy), t, m) <==> (
            failed_state(s, max_attempts, now, policy).scheduled_at <= t && counted_attempts(s.attempts, policy) < m)),
        counted_attempts(s.attempts, policy) >= max_attempts ==> !eligible(failed_state(s, max_attempts, now, policy), t, m),
        !eligible(completed_state(s, now), t, m),
        !eligible(dead_state(s, now), t, m),
{
}

/// The backoff never falls below the base delay, grows with the attempts, and a capped
/// backoff never exceeds the cap.
pub proof fn law_backoff_bounds(a: int, b: int, capped: bool)
    requires
        a <= b,
    ensures
        RETRY_BACKOFF_SECONDS <= backoff_seconds(a, capped) <= backoff_seconds(b, capped),
        capped ==> backoff_seconds(b, capped) <= RETRY_BACKOFF_CAP_SECONDS,
        !capped ==> backoff_seconds(a, capped) == (if a < 1 { 1 } else { a }) * RETRY_BACKOFF_SECONDS,
{
}

/// The sweep leaves no stale reservation behind, keeps every entry's identifier and
/// attempt count, and touches no entry that is not stale.
pub proof fn law_sweep_releases_stale(
    r0: Seq<TrackedEntry>,
    r1: Seq<TrackedEntry>,
    cutoff: i64,
    max_attempts: i32,
    now: i64,
    policy: RetryPolicy,
)
    requires
        sweep_step(r0, r1, cutoff, max_attempts, now, policy),
    ensures
        same_ids(r0, r1),
        forall|k: int| 0 <= k < r1.len() ==> !stale((#[trigger] r1[k]).state, cutoff),
        forall|k: int| 0 <= k < r1.len() ==> (#[trigger] r1[k]).state.attempts == r0[k].state.attempts,
        forall|k: int| 0 <= k < r1.len() && !stale(r0[k].state, cutoff) ==> #[trigger] r1[k] == r0[k],
{
    assert forall|k: int| 0 <= k < r0.len() implies #[trigger] r1[k].id == r0[k].id by {
        assert(r1[k] == r0[k] || r1[k].id == r0[k].id);
    }
}

/// Storing an entry a second time changes nothing: each identifier has one row.
pub proof fn law_insert_is_idempotent(
    r0: Seq<TrackedEntry>,
    r1: Seq<TrackedEntry>,
    r2: Seq<TrackedEntry>,
    id: u128,
    first: (i64, i64),
    second: (i64, i64),
)
    requires
        insert_step(r0, r1, id, first.0, first.1),
        insert_step(r1, r2, id, second.0, second.1),
    ensures
        r2 == r1,
        has_id(r1, id),
{
    if !has_id(r0, id) {
        assert(r1[r0.len() as int].id == id);
    }
}

impl LifecycleTable {
    /// The rows of the table.
    pub closed spec fn rows(&self) -> Seq<TrackedEntry> {
        self.rows@
    }

    /// The table's invariant.
    pub closed spec fn wf(&self) -> bool {
        rows_wf(self.rows@)
    }

    /// An empty table.
    pub fn new() -> (t: Self)
        ensures
            t.wf(),
            t.rows() == Seq::<TrackedEntry>::empty(),
    {
        LifecycleTable { rows: Vec::new() }
    }

    /// The state of the row `id`, if there is one.
    pub fn get(&self, id: u128) -> (r: Option<EntryState>)
        requires
            self.wf(),
        ensures
            r is Some <==> has_id(self.rows(), id),
            r matches Some(s) ==> exists|k: int|
                0 <= k < self.rows().len() && #[trigger] self.rows()[k].id == id && self.rows()[k].state == s,
    {
        let mut i: usize = 0;
        while i < self.rows.len()
            invariant
                i <= self.rows@.len(),
                forall|k: int| 0 <= k < i ==> #[trigger] self.rows@[k].id != id,
            decreases self.rows@.len() - i,
        {
            if self.rows[i].id == id {
                return Some(self.rows[i].state);
            }
            i = i + 1;
        }
        None
    }

    /// Stores a new entry, unless one with the same identifier is already stored.
    pub fn insert(&mut self, id: u128, scheduled_at: i64, received_at: i64)
        requires
            old(self).wf(),
        ensures
            final(self).wf(),
            insert_step(old(self).rows(), final(self).rows(), id, scheduled_at, received_at),
    {
        let existing = self.get(id);
        if existing.is_some() {
            return;
        }
        let entry = TrackedEntry {
            id,
            state: EntryState {
                stage: Stage::Received,
                attempts: 0,
                scheduled_at,
                reservation_id: None,
                reserved_at: None,
                updated_at: received_at,
                processed_at: None,
            },
        };
        let ghost before = self.rows@;
        self.rows.push(entry);
        proof {
            assert forall|i: int, j: int| 0 <= i < j < self.rows@.len() implies self.rows@[i].id
                != self.rows@[j].id by {
                if j == before.len() {
                    assert(before[i].id == self.rows@[i].id);
                    assert(!has_id(before, id));
                }
            }
            assert forall|a: int| 0 <= a < self.rows@.len() implies 0 <= #[trigger] self.rows@[a].state.attempts by {
                if a < before.len() {
                    assert(self.rows@[a] == before[a]);
                }
            }
        }
    }

    /// Claims for `reservation_id`, at `now`, up to `limit` entries that are due: received or
    /// failed, scheduled no later than `now`, and reserved fewer than `max_attempts` times.
    ///
    /// The entries scheduled earliest are claimed first. Each claimed entry becomes
    /// `Reserved` by this reservation, with one more attempt; it is returned as it is now
    /// stored, in the order of claiming.
    pub fn reserve(&mut self, limit: usize, max_attempts: i32, now: i64, reservation_id: u128) -> (claimed: Vec<TrackedEntry>)
        requires
            old(self).wf(),
        ensures
            final(self).wf(),
            reservation_step(old(self).rows(), final(self).rows(), claimed@, limit, max_attempts, now, reservation_id),
    {
        let ghost before = self.rows@;
        let n = self.rows.len();
        let mut claimed: Vec<TrackedEntry> = Vec::new();
        let ghost mut at: Seq<int> = Seq::empty();
        let mut exhausted = false;
        while claimed.len() < limit && !exhausted
            invariant
                before == old(self).rows@,
                rows_wf(before),
                n == before.len(),
                self.rows@.len() == n,
                claimed.len() <= limit,
                at.len() == claimed.len(),
                forall|k: int| 0 <= k < n ==> (#[trigger] self.rows@[k] == before[k] || (eligible(before[k].state, now, max_attempts)
                    && self.rows@[k] == (TrackedEntry { id: before[k].id, state: reserved_state(before[k].state, reservation_id, now) }))),
                forall|p: int| 0 <= p < at.len() ==> 0 <= #[trigger] at[p] < n && self.rows@[at[p]] == claimed@[p]
                    && self.rows@[at[p]] != before[at[p]],
                forall|k: int| 0 <= k < n && #[trigger] self.rows@[k] != before[k] ==> exists|p: int| 0 <= p < at.len() && at[p] == k,
                forall|a: int, b: int| 0 <= a < b < at.len() ==> at[a] != at[b],
                exhausted ==> forall|k: int| 0 <= k < n && eligible(#[trigger] before[k].state, now, max_attempts) ==> self.rows@[k] != before[k],
                forall|a: int, b: int| 0 <= a < b < claimed.len() ==> claimed@[a].state.scheduled_at <= claimed@[b].state.scheduled_at,
                forall|k: int, p: int| 0 <= k < n && 0 <= p < claimed.len() && eligible(before[k].state, now, max_attempts)
                    && #[trigger] self.rows@[k] == before[k] ==> #[trigger] claimed@[p].state.scheduled_at <= before[k].state.scheduled_at,
            decreases limit - claimed.len(), if exhausted { 0int } else { 1int },
        {
            let mut best: Option<usize> = None;
            let mut j: usize = 0;
            while j < n
                invariant
                    n == self.rows@.len(),
                    j <= n,
                    best matches Some(b) ==> b < j && eligible(self.rows@[b as int].state, now, max_attempts)
                        && forall|m: int| 0 <= m < j && eligible(#[trigger] self.rows@[m].state, now, max_attempts)
                            ==> self.rows@[b as int].state.scheduled_at <= self.rows@[m].state.scheduled_at,
                    best is None ==> forall|m: int| 0 <= m < j ==> !eligible(#[trigger] self.rows@[m].state, now, max_attempts),
                decreases n - j,
            {
                let s = self.rows[j].state;
                let due = (s.stage == Stage::Received || s.stage == Stage::Failed) && s.scheduled_at <= now && s.attempts < max_attempts;
                if due {
                    match best {
                        None => { best = Some(j); },
                        Some(b) => {
                            if s.scheduled_at < self.rows[b].state.scheduled_at {
                                best = Some(j);
                            }
                        },
                    }
                }
                j = j + 1;
            }
            match best {
                None => {
                    proof {
                        assert forall|k: int| 0 <= k < n && eligible(#[trigger] before[k].state, now, max_attempts) implies self.rows@[k] != before[k] by {
                            if self.rows@[k] == before[k] {
                                assert(!eligible(self.rows@[k].state, now, max_attempts));
                            }
                        }
                    }
                    exhausted = true;
                },
                Some(b) => {
                    let old_row = self.rows[b];
                    proof {
                        // A row still eligible has not been claimed yet.
                        if self.rows@[b as int] != before[b as int] {
                            assert(self.rows@[b as int].state.stage == Stage::Reserved);
                        }
                        assert(self.rows@[b as int] == before[b as int]);
                    }
                    let state = EntryState {
                        stage: Stage::Reserved,
                        attempts: old_row.state.attempts + 1,
                        reservation_id: Some(reservation_id),
                        reserved_at: Some(now),
                        updated_at: now,
                        ..old_row.state
                    };
                    let row = TrackedEntry { id: old_row.id, state };
                    let ghost prev_rows = self.rows@;
                    let ghost prev_claimed = claimed@;
                    let ghost prev_at = at;
                    self.rows.set(b, row);
                    claimed.push(row);
                    proof {
                        at = at.push(b as int);
                        assert(row != before[b as int]);
                        assert forall|k: int| 0 <= k < n && #[trigger] self.rows@[k] != before[k] implies exists|p: int| 0 <= p < at.len() && at[p] == k by {
                            if k == b {
                                assert(at[at.len() - 1] == k);
                            } else {
                                assert(prev_rows[k] == self.rows@[k]);
                                let p = choose|p: int| 0 <= p < prev_at.len() && prev_at[p] == k;
                                assert(at[p] == prev_at[p]);
                            }
                        }
                        assert forall|p: int| 0 <= p < at.len() implies 0 <= #[trigger] at[p] < n && self.rows@[at[p]] == claimed@[p]
                            && self.rows@[at[p]] != before[at[p]] by {
                            if p < at.len() - 1 {
                                assert(at[p] != b) by {
                                    assert(prev_rows[at[p]] != before[at[p]]);
                                }
                                assert(claimed@[p] == prev_claimed[p]);
                            }
                        }
                        assert forall|a: int, c: int| 0 <= a < c < at.len() implies at[a] != at[c] by {
                            if c == at.len() - 1 {
                                assert(prev_rows[at[a]] != before[at[a]]);
                            }
                        }
                        assert forall|a: int, c: int| 0 <= a < c < claimed.len() implies claimed@[a].state.scheduled_at <= claimed@[c].state.scheduled_at by {
                            if c == claimed.len() - 1 {
                                assert(claimed@[a] == prev_claimed[a]);
                                assert(prev_rows[b as int] == before[b as int]);
                                assert(eligible(before[b as int].state, now, max_attempts));
                                assert(prev_claimed[a].state.scheduled_at <= before[b as int].state.scheduled_at);
                            } else {
                                assert(claimed@[a] == prev_claimed[a]);
                                assert(claimed@[c] == prev_claimed[c]);
                            }
                        }
                        assert forall|k: int, p: int| 0 <= k < n && 0 <= p < claimed.len() && eligible(before[k].state, now, max_attempts)
                            && #[trigger] self.rows@[k] == before[k] implies #[trigger] claimed@[p].state.scheduled_at <= before[k].state.scheduled_at by {
                            assert(k != b);
                            assert(prev_rows[k] == self.rows@[k]);
                            if p == claimed.len() - 1 {
                                assert(eligible(prev_rows[k].state, now, max_attempts));
                            } else {
                                assert(claimed@[p] == prev_claimed[p]);
                            }
                        }
                        assert forall|k: int| 0 <= k < n implies (#[trigger] self.rows@[k] == before[k] || (eligible(before[k].state, now, max_attempts)
                            && self.rows@[k] == (TrackedEntry { id: before[k].id, state: reserved_state(before[k].state, reservation_id, now) }))) by {
                            if k != b {
                                assert(prev_rows[k] == self.rows@[k]);
                            }
                        }
                    }
                },
            }
        }
        proof {
            assert forall|i: int, j: int| 0 <= i < j < self.rows@.len() implies self.rows@[i].id != self.rows@[j].id by {
                assert(self.rows@[i].id == before[i].id);
                assert(self.rows@[j].id == before[j].id);
            }
            assert forall|a: int| 0 <= a < self.rows@.len() implies 0 <= #[trigger] self.rows@[a].state.attempts by {
                assert(before[a].state.attempts >= 0);
            }
            assert forall|p: int| 0 <= p < claimed.len() implies newly_reserved(before, self.rows@, #[trigger] claimed@[p]) by {
                let k = at[p];
                assert(self.rows@[k] == claimed@[p]);
                assert(self.rows@[k] != before[k]);
            }
            assert forall|k: int| 0 <= k < before.len() && #[trigger] self.rows@[k] != before[k] implies claimed@.contains(self.rows@[k]) by {
                let p = choose|p: int| 0 <= p < at.len() && at[p] == k;
                assert(claimed@[p] == self.rows@[k]);
            }
            assert forall|a: int, c: int| 0 <= a < c < claimed.len() implies claimed@[a].id != claimed@[c].id by {
                assert(self.rows@[at[a]].id == before[at[a]].id);
                assert(self.rows@[at[c]].id == before[at[c]].id);
            }
        }
        claimed
    }

    /// Records that `reservation_id` completed the entry `id` at `now`.
    ///
    /// Fails, changing nothing, unless that reservation holds the entry.
    pub fn completed(&mut self, id: u128, reservation_id: u128, now: i64) -> (r: Result<(), NotReserved>)
        requires
            old(self).wf(),
        ensures
            final(self).wf(),
            r is Ok <==> holds(old(self).rows(), id, reservation_id),
            r is Err ==> final(self).rows() == old(self).rows(),
            r matches Err(e) ==> e == (NotReserved { id, reservation_id }),
            update_held(old(self).rows(), final(self).rows(), id, reservation_id, |s: EntryState| completed_state(s, now)),
    {
        self.apply_held(id, reservation_id, Transition::Complete, now)
    }

    /// Records that `reservation_id` failed to process the entry `id` at `now`.
    ///
    /// Fails, changing nothing, unless that reservation holds the entry.
    pub fn failed(
        &mut self,
        id: u128,
        reservation_id: u128,
        max_attempts: i32,
        now: i64,
        policy: RetryPolicy,
    ) -> (r: Result<(), NotReserved>)
        requires
            old(self).wf(),
            clock_ok(now),
        ensures
            final(self).wf(),
            r is Ok <==> holds(old(self).rows(), id, reservation_id),
            r is Err ==> final(self).rows() == old(self).rows(),
            r matches Err(e) ==> e == (NotReserved { id, reservation_id }),
            update_held(old(self).rows(), final(self).rows(), id, reservation_id, |s: EntryState| failed_state(s, max_attempts, now, policy)),
    {
        self.apply_held(id, reservation_id, Transition::Fail { max_attempts, policy }, now)
    }

    /// Records that `reservation_id` gave up the entry `id` at `now`.
    ///
    /// Fails, changing nothing, unless that reservation holds the entry.
    pub fn dead(&mut self, id: u128, reservation_id: u128, now: i64) -> (r: Result<(), NotReserved>)
        requires
            old(self).wf(),
        ensures
            final(self).wf(),
            r is Ok <==> holds(old(self).rows(), id, reservation_id),
            r is Err ==> final(self).rows() == old(self).rows(),
            r matches Err(e) ==> e == (NotReserved { id, reservation_id }),
            update_held(old(self).rows(), final(self).rows(), id, reservation_id, |s: EntryState| dead_state(s, now)),
    {
        self.apply_held(id, reservation_id, Transition::GiveUp, now)
    }

    fn apply_held(&mut self, id: u128, reservation_id: u128, t: Transition, now: i64) -> (r: Result<(), NotReserved>)
        requires
            old(self).wf(),
            t is Fail ==> clock_ok(now),
        ensures
            final(self).wf(),
            r is Ok <==> holds(old(self).rows(), id, reservation_id),
            r is Err ==> final(self).rows() == old(self).rows(),
            r matches Err(e) ==> e == (NotReserved { id, reservation_id }),
            update_held(old(self).rows(), final(self).rows(), id, reservation_id, |s: EntryState| t.apply_spec(s, now)),
    {
        let ghost before = self.rows@;
        let mut i: usize = 0;
        while i < self.rows.len()
            invariant
                self.rows@ == before,
                before == old(self).rows@,
                rows_wf(before),
                i <= before.len(),
                forall|k: int| 0 <= k < i ==> !(#[trigger] before[k].id == id && held_by(before[k].state, reservation_id)),
                t is Fail ==> clock_ok(now),
            decreases before.len() - i,
        {
            let row = self.rows[i];
            let holder_matches = match row.state.reservation_id {
                Some(holder) => holder == reservation_id,
                None => false,
            };
            if row.id == id && row.state.stage == Stage::Reserved && holder_matches {
                let state = t.apply(row.state, now);
                self.rows.set(i, TrackedEntry { id, state });
                proof {
                    assert forall|k: int| 0 <= k < before.len() implies #[trigger] self.rows@[k] == if before[k].id == id && held_by(before[k].state, reservation_id) {
                        TrackedEntry { id, state: t.apply_spec(before[k].state, now) }
                    } else {
                        before[k]
                    } by {
                        if k != i {
                            assert(before[k].id != before[i as int].id);
                        }
                    }
                    assert(holds(before, id, reservation_id)) by {
                        assert(before[i as int].id == id);
                    }
                    assert forall|a: int| 0 <= a < self.rows@.len() implies 0 <= #[trigger] self.rows@[a].state.attempts by {
                        assert(before[a].state.attempts >= 0);
                    }
                }
                return Ok(());
            }
            i = i + 1;
        }
        proof {
            assert forall|k: int| 0 <= k < before.len() implies #[trigger] self.rows@[k] == if before[k].id == id && held_by(before[k].state, reservation_id) {
                TrackedEntry { id, state: t.apply_spec(before[k].state, now) }
            } else {
                before[k]
            } by {}
        }
        Err(NotReserved { id, reservation_id })
    }

    /// Releases every reservation taken before `cutoff` (the sweep at `now`).
    ///
    /// Returns the number of released entries; attempt counts are left as they are.
    pub fn sweep(&mut self, cutoff: i64, max_attempts: i32, now: i64, policy: RetryPolicy) -> (n: u64)
        requires
            old(self).wf(),
            clock_ok(now),
            old(self).rows().len() <= u64::MAX,
        ensures
            final(self).wf(),
            n == stale_count(old(self).rows(), cutoff),
            sweep_step(old(self).rows(), final(self).rows(), cutoff, max_attempts, now, policy),
    {
        let ghost before = self.rows@;
        let mut n: u64 = 0;
        let mut i: usize = 0;
        while i < self.rows.len()
            invariant
                self.rows@.len() == before.len(),
                rows_wf(before),
                i <= before.len(),
                before.len() <= u64::MAX,
                clock_ok(now),
                n == stale_count(before.subrange(0, i as int), cutoff),
                n <= i,
                forall|k: int| 0 <= k < i ==> #[trigger] self.rows@[k] == if stale(before[k].state, cutoff) {
                    TrackedEntry { id: before[k].id, state: swept_state(before[k].state, max_attempts, now, policy) }
                } else {
                    before[k]
                },
                forall|k: int| i <= k < before.len() ==> #[trigger] self.rows@[k] == before[k],
            decreases before.len() - i,
        {
            let row = self.rows[i];
            proof {
                assert(before.subrange(0, i + 1).drop_last() =~= before.subrange(0, i as int));
                assert(0 <= before[i as int].state.attempts);
            }
            let is_stale = match row.state.reserved_at {
                Some(t) => row.state.stage == Stage::Reserved && t < cutoff,
                None => false,
            };
            if is_stale {
                let state = sweep_entry(row.state, max_attempts, now, policy);
                self.rows.set(i, TrackedEntry { id: row.id, state });
                n = n + 1;
            }
            i = i + 1;
        }
        proof {
            assert(before.subrange(0, before.len() as int) =~= before);
            assert forall|i: int, j: int| 0 <= i < j < self.rows@.len() implies self.rows@[i].id != self.rows@[j].id by {
                assert(before[i].id != before[j].id);
            }
            assert forall|a: int| 0 <= a < self.rows@.len() implies 0 <= #[trigger] self.rows@[a].state.attempts by {
                assert(before[a].state.attempts >= 0);
            }
        }
        n
    }
}

/// A reservation-guarded update.
enum Transition {
    Complete,
    Fail { max_attempts: i32, policy: RetryPolicy },
    GiveUp,
}

impl Transition {
    spec fn apply_spec(self, s: EntryState, now: i64) -> EntryState {
        match self {
            Transition::Complete => completed_state(s, now),
            Transition::Fail { max_attempts, policy } => failed_state(s, max_attempts, now, policy),
            Transition::GiveUp => dead_state(s, now),
        }
    }

    fn apply(&self, s: EntryState, now: i64) -> (r: EntryState)
        requires
            self is Fail ==> clock_ok(now),
            0 <= s.attempts,
        ensures
            r == self.apply_spec(s, now),
    {
        match self {
            Transition::Complete => EntryState {
                stage: Stage::Completed,
                reservation_id: None,
                reserved_at: None,
                updated_at: now,
                processed_at: Some(now),
                ..s
            },
            Transition::Fail { max_attempts, policy } => fail_entry(s, *max_attempts, now, *policy),
            Transition::GiveUp => EntryState {
                stage: Stage::Dead,
                reservation_id: None,
                reserved_at: None,
                updated_at: now,
                ..s
            },
        }
    }
}

} // verus!
