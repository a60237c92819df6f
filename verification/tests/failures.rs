//! What each failure says of itself.

use mvdb::errors::IoFailure;
use mvdb::errors::StoreError;

fn decode_cause() -> serde_json::Error {
    serde_json::from_str::<u8>("x").unwrap_err()
}

#[test]
fn io_failures_name_their_step() {
    assert_eq!(StoreError::Io(IoFailure::Open).message(), "Failed to open file");
    assert_eq!(StoreError::Io(IoFailure::Read).message(), "Failed to read file");
    assert_eq!(StoreError::Io(IoFailure::Create).message(), "Failed to create file");
    assert_eq!(StoreError::Io(IoFailure::Write).message(), "Failed to write to file");
}

#[test]
fn codec_failures_name_their_direction() {
    assert_eq!(StoreError::Decode(decode_cause()).message(), "Deserialize error");
    assert_eq!(StoreError::Encode(decode_cause()).message(), "Failed to serialize");
}

#[test]
fn lock_failure_message() {
    assert_eq!(StoreError::Lock.message(), "failed to lock");
}

#[test]
fn io_failures_compare_by_step() {
    assert_eq!(IoFailure::Open, IoFailure::Open);
    assert_ne!(IoFailure::Create, IoFailure::Write);
    let copy = IoFailure::Write;
    assert_eq!(copy, IoFailure::Write.clone());
}
