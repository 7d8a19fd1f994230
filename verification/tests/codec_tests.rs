use snowflake_generator::Snowflake;
use snowflake_generator::build_snowflake_id;
use snowflake_generator::extract_datacenter_id;
use snowflake_generator::extract_sequence;
use snowflake_generator::extract_timestamp;
use snowflake_generator::extract_worker_id;
use snowflake_generator::validate_ids;

#[test]
fn test_id_extraction() {
    let timestamp = 1640995200000;
    let datacenter_id = 3;
    let worker_id = 5;
    let sequence = 100;

    let id = build_snowflake_id(timestamp, datacenter_id, worker_id, sequence);

    assert_eq!(extract_timestamp(id), timestamp);
    assert_eq!(extract_datacenter_id(id), datacenter_id);
    assert_eq!(extract_worker_id(id), worker_id);
    assert_eq!(extract_sequence(id), sequence);
}

#[test]
fn test_validation() {
    assert!(validate_ids(31, 31).is_ok());
    assert!(validate_ids(32, 31).is_err());
    assert!(validate_ids(31, 32).is_err());
}

#[test]
fn test_validation_messages() {
    match validate_ids(32, 31) {
        Err(m) => assert_eq!(m, "worker_id 32 exceeds maximum 31"),
        Ok(()) => panic!("out-of-range worker_id accepted"),
    }
    match validate_ids(31, 32) {
        Err(m) => assert_eq!(m, "datacenter_id 32 exceeds maximum 31"),
        Ok(()) => panic!("out-of-range datacenter_id accepted"),
    }
    match validate_ids(40, 40) {
        Err(m) => assert_eq!(m, "worker_id 40 exceeds maximum 31"),
        Ok(()) => panic!("out-of-range pair accepted"),
    }
}

#[test]
fn test_concrete_encode_decode() {
    let id = build_snowflake_id(1640995200000, 3, 5, 100);
    assert_eq!(id, 132271570944413796);
    assert_eq!(extract_timestamp(id), 1640995200000);
    assert_eq!(extract_datacenter_id(id), 3);
    assert_eq!(extract_worker_id(id), 5);
    assert_eq!(extract_sequence(id), 100);

    let info = Snowflake::parse_id(id);
    assert_eq!(info.id, id);
    assert_eq!(info.timestamp, 1640995200000);
    assert_eq!(info.datacenter_id, 3);
    assert_eq!(info.worker_id, 5);
    assert_eq!(info.sequence, 100);
}

#[test]
fn test_extreme_field_values() {
    let timestamp = 1609459200000 + 2199023255551;
    let id = build_snowflake_id(timestamp, 31, 31, 4095);
    assert_eq!(extract_timestamp(id), timestamp);
    assert_eq!(extract_datacenter_id(id), 31);
    assert_eq!(extract_worker_id(id), 31);
    assert_eq!(extract_sequence(id), 4095);

    let low = build_snowflake_id(1609459200000, 0, 0, 0);
    assert_eq!(low, 0);
    assert_eq!(extract_timestamp(low), 1609459200000);
}

#[test]
fn test_hex_and_binary_rendering() {
    let info = Snowflake::parse_id(255);
    assert_eq!(info.id_as_hex(), "0x00000000000000ff");
    let expected_binary = format!("{}{}", "0".repeat(56), "1".repeat(8));
    assert_eq!(info.id_as_binary(), expected_binary);

    let zero = Snowflake::parse_id(0);
    assert_eq!(zero.id_as_hex(), "0x0000000000000000");
    assert_eq!(zero.id_as_binary(), "0".repeat(64));
}

#[test]
fn test_timestamp_rendering() {
    let mut info = Snowflake::parse_id(0);
    info.timestamp = 1640995200123;
    assert_eq!(info.timestamp_as_string(), "1640995200.123");
    info.timestamp = 1609459200007;
    assert_eq!(info.timestamp_as_string(), "1609459200.007");
}

#[test]
fn test_format_details() {
    let info = Snowflake::parse_id(255);
    let expected = format!(
        "Snowflake ID: 255\nHex: 0x00000000000000ff\nBinary: {}{}\nTimestamp: 1609459200000 (1609459200.000)\nDatacenter ID: 0\nWorker ID: 0\nSequence: 255",
        "0".repeat(56),
        "1".repeat(8)
    );
    assert_eq!(info.format_details(), expected);
}
