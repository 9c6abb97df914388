use batch_clock::batch::BatchId;
use batch_clock::batch::ClockError;
use batch_clock::batch::BATCH_DURATION;
use batch_clock::batch::SOLVING_WINDOW;
use batch_clock::instant::Instant;

#[test]
fn from_timestamp_floors_to_slot_ordinal() {
    assert_eq!(BatchId::from_timestamp(0).0, 0);
    assert_eq!(BatchId::from_timestamp(299).0, 0);
    assert_eq!(BatchId::from_timestamp(300).0, 1);
    assert_eq!(BatchId::from_timestamp(650).0, 2);
    assert_eq!(BatchId::from_timestamp(7 * 300).0, 7);
    assert_eq!(BatchId::from_timestamp(7 * 300 + 299).0, 7);
}

#[test]
fn current_before_epoch_is_clock_error() {
    let before = Instant::preceding_epoch_by(1);
    assert_eq!(BatchId::current(before), Err(ClockError::BeforeEpoch));
}

#[test]
fn currently_being_solved_before_epoch_is_clock_error() {
    let before = Instant::preceding_epoch_by(5);
    assert_eq!(
        BatchId::currently_being_solved(before),
        Err(ClockError::BeforeEpoch)
    );
}

#[test]
fn currently_being_solved_in_first_slot_has_no_preceding_batch() {
    let inside = Instant::epoch().plus_secs(299);
    assert_eq!(
        BatchId::currently_being_solved(inside),
        Err(ClockError::NoPrecedingBatch)
    );
}

#[test]
fn prev_of_batch_zero_is_none() {
    assert!(BatchId(0).prev().is_none());
}

#[test]
fn as_timestamp_is_slot_start() {
    assert_eq!(BatchId(0).as_timestamp(), 0);
    assert_eq!(BatchId(7).as_timestamp(), 2100);
}

#[test]
fn order_collection_start_time_is_slot_start_instant() {
    assert_eq!(
        BatchId(3).order_collection_start_time(),
        Instant::epoch().plus_secs(900)
    );
}

#[test]
fn solve_window_boundaries_are_exact() {
    let batch = BatchId(1);
    assert_eq!(batch.solve_start_time(), Instant::epoch().plus_secs(600));
    assert_eq!(batch.solve_end_time(), Instant::epoch().plus_secs(840));
    assert_eq!(
        batch.solve_end_time(),
        batch.solve_start_time().plus_secs(SOLVING_WINDOW)
    );
    assert!(SOLVING_WINDOW <= BATCH_DURATION);
}

#[test]
fn current_is_monotone_in_time() {
    let earlier = BatchId::current(Instant::epoch().plus_secs(500)).unwrap();
    let later = BatchId::current(Instant::epoch().plus_secs(1234)).unwrap();
    assert!(earlier.0 <= later.0);
}

#[test]
fn u32_round_trip_preserves_small_ordinals() {
    assert_eq!(BatchId::from(42u32), BatchId(42));
    assert_eq!(BatchId(42).to_u32(), 42u32);
    let batch = BatchId(0xFFFF_FFFF);
    assert_eq!(BatchId::from(batch.to_u32()), batch);
}

#[test]
fn to_u32_truncates_large_ordinals() {
    assert_eq!(BatchId(0x1_0000_002A).to_u32(), 42u32);
}

#[test]
fn eq_u32_compares_truncated_ordinal() {
    assert!(BatchId(42).eq_u32(42));
    assert!(!BatchId(42).eq_u32(43));
    assert!(BatchId(0x1_0000_002A).eq_u32(42));
}

#[test]
fn plus_secs_crosses_the_epoch() {
    let before = Instant::preceding_epoch_by(100);
    assert_eq!(before.plus_secs(250), Instant::from_secs_since_epoch(150));
    assert_eq!(before.plus_secs(40), Instant::preceding_epoch_by(60));
    assert_eq!(before.plus_secs(100), Instant::epoch());
}
