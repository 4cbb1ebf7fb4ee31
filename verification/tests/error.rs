use libarchive::archive::{ARCHIVE_EOF, ARCHIVE_FAILED, ARCHIVE_FATAL, ARCHIVE_OK, ARCHIVE_WARN};
use libarchive::error::{check_status, ArchiveError, ErrorSlot};

fn slot(code: i32, message: &str) -> ErrorSlot {
    ErrorSlot { code, message: message.to_string() }
}

#[test]
fn ok_status_is_success_whatever_the_slot_holds() {
    assert_eq!(check_status(ARCHIVE_OK, slot(0, "")), Ok(()));
    assert_eq!(check_status(ARCHIVE_OK, slot(22, "stale")), Ok(()));
}

#[test]
fn every_other_status_carries_the_slot() {
    for status in [ARCHIVE_EOF, ARCHIVE_WARN, ARCHIVE_FAILED, ARCHIVE_FATAL, -1, 2, i32::MIN, i32::MAX] {
        assert_eq!(
            check_status(status, slot(84, "Unrecognized archive format")),
            Err(ArchiveError::SystemError(84, "Unrecognized archive format".to_string()))
        );
    }
}

#[test]
fn a_failure_with_an_empty_slot_is_still_a_failure() {
    assert_eq!(
        check_status(ARCHIVE_FATAL, slot(0, "")),
        Err(ArchiveError::SystemError(0, String::new()))
    );
}

#[test]
fn from_slot_keeps_code_and_message() {
    assert_eq!(
        ArchiveError::from_slot(slot(-1, "Truncated input")),
        ArchiveError::SystemError(-1, "Truncated input".to_string())
    );
}

#[test]
fn only_system_errors_have_a_code() {
    assert_eq!(ArchiveError::SystemError(5, "io".to_string()).code(), Some(5));
    assert_eq!(ArchiveError::AllocationError.code(), None);
    assert_eq!(ArchiveError::EncodingError.code(), None);
}
