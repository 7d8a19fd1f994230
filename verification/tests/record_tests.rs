use snowflake_generator::WorkerError;
use snowflake_generator::WorkerInfo;
use snowflake_generator::WorkerManager;

fn now_millis() -> u64 {
    std::time::SystemTime::now()
        .duration_since(std::time::SystemTime::UNIX_EPOCH)
        .unwrap()
        .as_millis() as u64
}

#[test]
fn test_worker_info_serialization() {
    let info = WorkerInfo::new(1, 2);
    let content = info.to_file_content();
    let parsed_info = WorkerInfo::from_file_content(&content).unwrap();

    assert_eq!(info.worker_id, parsed_info.worker_id);
    assert_eq!(info.datacenter_id, parsed_info.datacenter_id);
}

#[test]
fn test_clock_backwards_detection() {
    let mut info = WorkerInfo::new(1, 2);
    info.last_timestamp = now_millis() + 10000;

    assert!(info.check_clock_backwards().is_err());
}

#[test]
fn test_record_round_trip_exact() {
    let info = WorkerInfo { worker_id: 1, datacenter_id: 2, last_timestamp: 1000, creation_time: 1000 };
    let content = info.to_file_content();
    assert_eq!(content, "1\n2\n1000\n1000\n");
    let parsed = WorkerInfo::from_file_content(&content).unwrap();
    assert_eq!(parsed.worker_id, 1);
    assert_eq!(parsed.datacenter_id, 2);
    assert_eq!(parsed.last_timestamp, 1000);
    assert_eq!(parsed.creation_time, 1000);
}

#[test]
fn test_parse_accepts_padding_and_extra_lines() {
    let parsed = WorkerInfo::from_file_content("\n +7 \n2\r\n3\n4\nleftover\n").unwrap();
    assert_eq!(parsed.worker_id, 7);
    assert_eq!(parsed.datacenter_id, 2);
    assert_eq!(parsed.last_timestamp, 3);
    assert_eq!(parsed.creation_time, 4);
}

#[test]
fn test_parse_error_messages() {
    let cases = [
        ("", "Invalid file format: missing required fields"),
        ("1\n2\n3", "Invalid file format: missing required fields"),
        ("a\n2\n3\n4\n", "Invalid worker_id"),
        ("1\nb\n3\n4\n", "Invalid datacenter_id"),
        ("1\n2\n-3\n4\n", "Invalid last_timestamp"),
        ("1\n2\n3\nx\n", "Invalid creation_time"),
        ("1\n2\n3\n\n", "Invalid file format: missing required fields"),
        ("99999999999999999999999\n2\n3\n4\n", "Invalid worker_id"),
        ("18446744073709551616\n2\n3\n4\n", "Invalid worker_id"),
    ];
    for (content, message) in cases {
        match WorkerInfo::from_file_content(content) {
            Err(WorkerError::ParseError(m)) => assert_eq!(m, message),
            other => panic!("content {:?} gave {:?}", content, other),
        }
    }
    let max = WorkerInfo::from_file_content("18446744073709551615\n2\n3\n4\n").unwrap();
    assert_eq!(max.worker_id, u64::MAX);
}

#[test]
fn test_check_clock_backwards_at() {
    let info = WorkerInfo { worker_id: 1, datacenter_id: 2, last_timestamp: 5000, creation_time: 100 };
    assert!(info.check_clock_backwards_at(5000).is_ok());
    assert!(info.check_clock_backwards_at(6000).is_ok());
    match info.check_clock_backwards_at(4999) {
        Err(WorkerError::ClockBackwardsError(last, observed)) => {
            assert_eq!(last, 5000);
            assert_eq!(observed, 4999);
        },
        other => panic!("regressed reading gave {:?}", other),
    }
}

#[test]
fn test_from_record_rejects_out_of_range_ids() {
    match WorkerManager::from_record("99\n1\n0\n0\n") {
        Err(WorkerError::ConfigError(worker_id, datacenter_id)) => {
            assert_eq!(worker_id, 99);
            assert_eq!(datacenter_id, 1);
        },
        other => panic!("oversized worker_id gave {:?}", other),
    }
}

#[test]
fn test_from_record_detects_clock_backwards() {
    let future = now_millis() + 60000;
    let content = format!("1\n2\n{}\n1000\n", future);
    match WorkerManager::from_record(&content) {
        Err(WorkerError::ClockBackwardsError(last, observed)) => {
            assert_eq!(last, future);
            assert!(observed < future);
        },
        other => panic!("future record gave {:?}", other),
    }
}

#[test]
fn test_from_record_loads_valid_record() {
    let manager = WorkerManager::from_record("3\n4\n1000\n900\n").unwrap();
    assert_eq!(manager.get_worker_id(), 3);
    assert_eq!(manager.get_datacenter_id(), 4);
    assert_eq!(manager.get_worker_info().last_timestamp, 1000);
    assert_eq!(manager.get_worker_info().creation_time, 900);
}

#[test]
fn test_create_reduces_seed() {
    let manager = WorkerManager::create(70, 3).unwrap();
    assert_eq!(manager.get_worker_id(), 6);
    assert_eq!(manager.get_datacenter_id(), 3);

    match WorkerManager::create(5, 32) {
        Err(WorkerError::ConfigError(worker_id, datacenter_id)) => {
            assert_eq!(worker_id, 5);
            assert_eq!(datacenter_id, 32);
        },
        other => panic!("oversized datacenter gave {:?}", other),
    }
}

#[test]
fn test_update_and_save_renders_current_record() {
    let mut manager = WorkerManager::create(1, 2).unwrap();
    let before = manager.get_worker_info().last_timestamp;
    let content = manager.update_and_save().unwrap();
    let after = manager.get_worker_info();
    assert!(after.last_timestamp >= before);
    assert_eq!(content, after.to_file_content());
    assert_eq!(manager.get_worker_id(), 1);
    assert_eq!(manager.get_datacenter_id(), 2);
}

#[test]
fn test_io_error_carries_message() {
    let e = WorkerError::IoError(String::from("disk unplugged"));
    match e {
        WorkerError::IoError(m) => assert_eq!(m, "disk unplugged"),
        other => panic!("{:?}", other),
    }
}
