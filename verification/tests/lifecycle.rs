use mulac::lifecycle::{LifecycleTable, NotReserved, Stage};
use mulac::outbox::storage::outbox_retry_policy;
use uuid::Uuid;

fn new_id() -> u128 {
    Uuid::now_v7().as_u128()
}

const MINUTE: i64 = 60_000;

#[test]
fn idempotent_recording_keeps_one_row() {
    let mut table = LifecycleTable::new();
    let id = new_id();
    table.insert(id, 0, 0);
    table.insert(id, 5, 5);
    let claimed = table.reserve(10, 6, 10, new_id());
    assert_eq!(claimed.len(), 1);
    assert_eq!(table.get(id).unwrap().scheduled_at, 0);
}

#[test]
fn concurrent_reservations_do_not_claim_the_same_row() {
    let mut table = LifecycleTable::new();
    let first_id = new_id();
    let second_id = new_id();
    table.insert(first_id, 0, 0);
    table.insert(second_id, 0, 0);

    let left = table.reserve(1, 6, 1, new_id());
    let right = table.reserve(1, 6, 1, new_id());
    let mut ids: Vec<u128> = left.iter().chain(right.iter()).map(|entry| entry.id).collect();
    ids.sort();
    ids.dedup();

    assert_eq!(ids.len(), 2);
    assert!(ids.contains(&first_id));
    assert!(ids.contains(&second_id));
}

#[test]
fn lifecycle_transitions_update_status_and_metadata() {
    let policy = outbox_retry_policy();
    let mut table = LifecycleTable::new();

    let completed_id = new_id();
    table.insert(completed_id, 0, 0);
    let completed = table.reserve(1, 6, 1, new_id()).pop().expect("reserved row");
    let completed_reservation_id = completed.state.reservation_id.expect("reservation id");
    table.completed(completed_id, completed_reservation_id, 2).expect("complete row");
    let row = table.get(completed_id).unwrap();
    assert_eq!(row.stage, Stage::Completed);
    assert_eq!(row.processed_at, Some(2));
    assert!(row.reservation_id.is_none());

    let failed_id = new_id();
    table.insert(failed_id, 3, 3);
    let failed = table.reserve(1, 6, 4, new_id()).pop().expect("reserved row");
    let failed_reservation_id = failed.state.reservation_id.expect("reservation id");
    table.failed(failed_id, failed_reservation_id, 6, 5, policy).expect("fail row");
    let row = table.get(failed_id).unwrap();
    assert_eq!(row.stage, Stage::Failed);
    assert_eq!(row.scheduled_at, 5 + 30_000);

    let dead_id = new_id();
    table.insert(dead_id, 6, 6);
    let dead = table.reserve(1, 6, 7, new_id()).pop().expect("reserved row");
    let dead_reservation_id = dead.state.reservation_id.expect("reservation id");
    table.dead(dead_id, dead_reservation_id, 8).expect("dead row");
    let row = table.get(dead_id).unwrap();
    assert_eq!(row.stage, Stage::Dead);
    assert!(row.reservation_id.is_none());
}

#[test]
fn stale_sweep_releases_old_reservations_without_incrementing_attempts() {
    let policy = outbox_retry_policy();
    let mut table = LifecycleTable::new();
    let id = new_id();
    let now = 100 * MINUTE;
    table.insert(id, now - 10 * MINUTE, now - 10 * MINUTE);
    table.reserve(10, 6, now - 10 * MINUTE, new_id());

    let swept = table.sweep(now - 5 * MINUTE, 6, now, policy);

    assert_eq!(swept, 1);
    let row = table.get(id).unwrap();
    assert_eq!(row.stage, Stage::Failed);
    assert_eq!(row.attempts, 1);
    assert!(row.reservation_id.is_none());
    assert!(row.reserved_at.is_none());
    assert!(row.scheduled_at > now);
}

#[test]
fn record_reserve_publish_complete_updates_row() {
    let mut table = LifecycleTable::new();
    let id = new_id();
    table.insert(id, 0, 0);
    let reservation_id = new_id();
    let claimed = table.reserve(10, 6, 1, reservation_id);
    assert_eq!(claimed.len(), 1);
    assert_eq!(claimed[0].state.attempts, 1);
    table.completed(id, reservation_id, 2).expect("completed");
    assert_eq!(table.get(id).unwrap().stage, Stage::Completed);
    assert!(table.reserve(10, 6, 3, new_id()).is_empty());
}

#[test]
fn transport_failure_moves_entry_to_failed() {
    let mut table = LifecycleTable::new();
    let id = new_id();
    table.insert(id, 0, 0);
    let reservation_id = new_id();
    table.reserve(10, 6, 1, reservation_id);
    table.failed(id, reservation_id, 6, 2, outbox_retry_policy()).expect("failed");
    let row = table.get(id).unwrap();
    assert_eq!(row.stage, Stage::Failed);
    assert_eq!(row.attempts, 1);
}

#[test]
fn failed_entries_become_reservable_after_scheduled_at() {
    let mut table = LifecycleTable::new();
    let id = new_id();
    table.insert(id, 0, 0);
    let reservation_id = new_id();
    table.reserve(10, 6, 1, reservation_id);
    table.failed(id, reservation_id, 6, 2, outbox_retry_policy()).expect("failed");
    let scheduled_at = table.get(id).unwrap().scheduled_at;

    assert!(table.reserve(10, 6, scheduled_at - 1, new_id()).is_empty());
    let again = table.reserve(10, 6, scheduled_at, new_id());
    assert_eq!(again.len(), 1);
    assert_eq!(again[0].state.attempts, 2);
}

#[test]
fn conversion_failure_moves_entry_to_dead() {
    let mut table = LifecycleTable::new();
    let id = new_id();
    table.insert(id, 0, 0);
    let reservation_id = new_id();
    table.reserve(10, 6, 1, reservation_id);
    table.dead(id, reservation_id, 2).expect("dead");
    assert_eq!(table.get(id).unwrap().stage, Stage::Dead);
    assert!(table.reserve(10, 6, i64::MAX / 2, new_id()).is_empty());
}

#[test]
fn reports_need_the_holding_reservation() {
    let mut table = LifecycleTable::new();
    let id = new_id();
    table.insert(id, 0, 0);
    let reservation_id = new_id();
    table.reserve(10, 6, 1, reservation_id);
    let other = new_id();
    assert_eq!(table.completed(id, other, 2), Err(NotReserved { id, reservation_id: other }));
    table.completed(id, reservation_id, 2).expect("holder completes");
    assert_eq!(
        table.completed(id, reservation_id, 3),
        Err(NotReserved { id, reservation_id })
    );
}

#[test]
fn reservation_claims_the_oldest_entries_first() {
    let mut table = LifecycleTable::new();
    let late = new_id();
    let early = new_id();
    table.insert(late, 20, 0);
    table.insert(early, 10, 0);
    let claimed = table.reserve(1, 6, 30, new_id());
    assert_eq!(claimed.len(), 1);
    assert_eq!(claimed[0].id, early);
}

#[test]
fn entries_out_of_attempts_are_not_reserved() {
    let mut table = LifecycleTable::new();
    let id = new_id();
    table.insert(id, 0, 0);
    let reservation_id = new_id();
    table.reserve(10, 6, 1, reservation_id);
    table.failed(id, reservation_id, 6, 2, outbox_retry_policy()).expect("failed");
    assert!(table.reserve(10, 1, i64::MAX / 2, new_id()).is_empty());
}

#[test]
fn inbox_sweep_gives_up_messages_out_of_attempts() {
    let policy = mulac::inbox::storage::inbox_retry_policy();
    let mut table = LifecycleTable::new();
    let tired = new_id();
    let fresh = new_id();
    table.insert(tired, 0, 0);
    table.insert(fresh, 0, 0);
    table.reserve(1, 6, 1, new_id());
    let now = 100 * MINUTE;

    assert_eq!(table.sweep(now, 1, now, policy), 1);
    let swept = if table.get(tired).unwrap().stage == Stage::Dead { tired } else { fresh };
    let row = table.get(swept).unwrap();
    assert_eq!(row.stage, Stage::Dead);
    assert_eq!(row.attempts, 1);
    assert_eq!(row.scheduled_at, now + 30_000);
}

#[test]
fn event_sweep_releases_every_stale_entry_as_failed() {
    let policy = mulac::eventing::storage::event_retry_policy();
    let mut table = LifecycleTable::new();
    let id = new_id();
    table.insert(id, 0, 0);
    table.reserve(1, 6, 1, new_id());
    let now = 100 * MINUTE;

    assert_eq!(table.sweep(now, 1, now, policy), 1);
    let row = table.get(id).unwrap();
    assert_eq!(row.stage, Stage::Failed);
    assert_eq!(row.scheduled_at, now + 30_000);
}

#[test]
fn inbox_failure_report_counts_an_attempt() {
    let policy = mulac::inbox::storage::inbox_retry_policy();
    let mut table = LifecycleTable::new();
    let id = new_id();
    table.insert(id, 0, 0);
    let reservation_id = new_id();
    table.reserve(10, 3, 1, reservation_id);
    assert_eq!(table.get(id).unwrap().attempts, 1);
    table.failed(id, reservation_id, 3, 2, policy).expect("failed");
    let state = table.get(id).unwrap();
    assert_eq!(state.attempts, 2);
    assert_eq!(state.stage, Stage::Failed);
    assert_eq!(state.scheduled_at, 2 + 60_000);

    let second = new_id();
    table.reserve(10, 3, i64::MAX / 4, second);
    table.failed(id, second, 3, 3, policy).expect("failed");
    let state = table.get(id).unwrap();
    assert_eq!(state.attempts, 4);
    assert_eq!(state.stage, Stage::Dead);
}

#[test]
fn outbox_failure_report_keeps_the_attempts() {
    let mut table = LifecycleTable::new();
    let id = new_id();
    table.insert(id, 0, 0);
    let reservation_id = new_id();
    table.reserve(10, 6, 1, reservation_id);
    table.failed(id, reservation_id, 6, 2, outbox_retry_policy()).expect("failed");
    assert_eq!(table.get(id).unwrap().attempts, 1);
}

#[test]
fn clock_reads_milliseconds_since_1970() {
    let before = std::time::SystemTime::now()
        .duration_since(std::time::UNIX_EPOCH)
        .unwrap()
        .as_millis() as i64;
    let now = mulac::support::now_millis();
    assert!(now >= before);
    assert!(now - before < 60_000);
}

#[test]
fn fresh_identifiers_are_version_7_and_time_stamped() {
    let before = mulac::support::now_millis() as u128;
    let first = mulac::support::new_uuid_v7();
    let second = mulac::support::new_uuid_v7();
    assert_eq!((first >> 76) & 0xf, 7);
    assert_eq!((second >> 76) & 0xf, 7);
    assert_ne!(first, second);
    let stamped = first >> 80;
    assert!(stamped >= before && stamped < before + 60_000);
}
