use std::collections::HashSet;

use snowflake_generator::Snowflake;
use snowflake_generator::WorkerError;
use snowflake_generator::WorkerManager;
use snowflake_generator::EPOCH;

#[test]
fn test_snowflake_creation() {
    let sf = Snowflake::new(1, 1);
    assert_eq!(sf.get_worker_id(), 1);
    assert_eq!(sf.get_datacenter_id(), 1);
}

#[test]
fn test_id_generation() {
    let mut sf = Snowflake::new(1, 1);
    let id1 = sf.next_id().unwrap();
    let id2 = sf.next_id().unwrap();
    assert_ne!(id1, id2);
}

#[test]
fn test_monotonic_ids() {
    let mut sf = Snowflake::new(1, 1);
    let mut prev = sf.next_id().unwrap();
    for _ in 0..9999 {
        let id = sf.next_id().unwrap();
        assert!(id > prev);
        prev = id;
    }
}

#[test]
fn test_uniqueness_under_load() {
    let mut sf = Snowflake::new(1, 1);
    let mut seen = HashSet::new();
    for _ in 0..100000 {
        assert!(seen.insert(sf.next_id().unwrap()));
    }
    assert_eq!(seen.len(), 100000);
}

#[test]
fn test_sequence_rollover() {
    let mut sf = Snowflake::new(1, 1);
    let t = EPOCH + 1000;
    let first = sf.next_id_at(t).unwrap();
    for _ in 0..4095 {
        sf.next_id_at(t).unwrap();
    }
    match sf.next_id_at(t) {
        Err(WorkerError::SequenceExhausted(millisecond)) => assert_eq!(millisecond, t),
        other => panic!("exhausted millisecond gave {:?}", other),
    }
    let next = sf.next_id_at(t + 1).unwrap();
    let first_info = Snowflake::parse_id(first);
    let next_info = Snowflake::parse_id(next);
    assert_eq!(first_info.timestamp, t);
    assert_eq!(first_info.sequence, 0);
    assert!(next_info.timestamp > first_info.timestamp);
    assert_eq!(next_info.sequence, 0);
}

#[test]
fn test_clock_regression_detection() {
    let mut sf = Snowflake::new(2, 3);
    let t = EPOCH + 5000;
    let id1 = sf.next_id_at(t).unwrap();
    match sf.next_id_at(t - 1) {
        Err(WorkerError::ClockBackwardsError(last, observed)) => {
            assert_eq!(last, t);
            assert_eq!(observed, t - 1);
        },
        other => panic!("regressed reading gave {:?}", other),
    }
    assert_eq!(sf.get_last_timestamp(), t);
    let id2 = sf.next_id_at(t).unwrap();
    let info = Snowflake::parse_id(id2);
    assert_eq!(info.sequence, 1);
    assert!(id2 > id1);
}

#[test]
fn test_timestamp_out_of_range() {
    let mut sf = Snowflake::new(1, 1);
    match sf.next_id_at(5) {
        Err(WorkerError::TimestampOutOfRange(reading)) => assert_eq!(reading, 5),
        other => panic!("pre-epoch reading gave {:?}", other),
    }
    match sf.next_id_at(EPOCH + 2199023255551 + 1) {
        Err(WorkerError::TimestampOutOfRange(reading)) => {
            assert_eq!(reading, EPOCH + 2199023255552)
        },
        other => panic!("oversized reading gave {:?}", other),
    }
    assert_eq!(sf.get_last_timestamp(), 0);
    sf.next_id_at(EPOCH + 2199023255551).unwrap();
}

#[test]
fn test_generated_fields_match_configuration() {
    let mut sf = Snowflake::new(9, 17);
    let id = sf.next_id().unwrap();
    let info = Snowflake::parse_id(id);
    assert_eq!(info.worker_id, 9);
    assert_eq!(info.datacenter_id, 17);
    assert_eq!(info.timestamp, sf.get_last_timestamp());
}

#[test]
fn test_ephemeral_generator_has_no_identity() {
    let sf = Snowflake::new(1, 1);
    assert!(sf.identity_record().is_none());
}

#[test]
fn test_generator_with_identity() {
    let manager = WorkerManager::create(3, 4).unwrap();
    let creation = manager.get_worker_info().creation_time;
    let mut sf = Snowflake::new_with_config(manager).unwrap();
    assert_eq!(sf.get_worker_id(), 3);
    assert_eq!(sf.get_datacenter_id(), 4);

    sf.next_id().unwrap();
    let record = sf.identity_record().unwrap();
    let persisted = snowflake_generator::WorkerInfo::from_file_content(&record).unwrap();
    assert_eq!(persisted.worker_id, 3);
    assert_eq!(persisted.datacenter_id, 4);
    assert_eq!(persisted.creation_time, creation);
    assert_eq!(persisted.last_timestamp, sf.get_last_timestamp());
}
