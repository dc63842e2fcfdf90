use ospl::error::ImageFailure;
use ospl::library::require_name;
use ospl::naming::thumbnail_size;
use ospl::{Error, IoKind, OsplError, Timestamp};

#[test]
fn parse_reads_back_a_formatted_timestamp() {
    let t = Timestamp { year: 2019, month: 3, day: 7, hour: 8, minute: 5, second: 9, micro: 42 };
    assert_eq!(Timestamp::parse(&t.format()), Some(t));
    assert_eq!(
        Timestamp::parse("2024-02-29_23-59-59-999999"),
        Some(Timestamp { year: 2024, month: 2, day: 29, hour: 23, minute: 59, second: 59, micro: 999999 })
    );
}

#[test]
fn parse_refuses_what_no_timestamp_writes() {
    assert_eq!(Timestamp::parse(""), None);
    assert_eq!(Timestamp::parse("2019-03-07 08:05:09.000042"), None);
    assert_eq!(Timestamp::parse("2019-13-07_08-05-09-000042"), None);
    assert_eq!(Timestamp::parse("2023-02-29_08-05-09-000042"), None);
    assert_eq!(Timestamp::parse("2019-03-07_24-05-09-000042"), None);
    assert_eq!(Timestamp::parse("2019-03-07_08-05-09-00004x"), None);
}

#[test]
fn thumbnail_keeps_proportions_at_fixed_height() {
    assert_eq!(thumbnail_size(4000, 3000), Some((433, 325)));
    assert_eq!(thumbnail_size(650, 325), Some((650, 325)));
    assert_eq!(thumbnail_size(1, 1000), Some((0, 325)));
}

#[test]
fn thumbnail_of_degenerate_images() {
    assert_eq!(thumbnail_size(100, 0), None);
    assert_eq!(thumbnail_size(u32::MAX, 1), None);
}

#[test]
fn image_failures_map_to_distinct_errors() {
    assert_eq!(OsplError::from_image_failure(ImageFailure::Decoding), OsplError::InternalError(Error::NotAnImage));
    assert_eq!(OsplError::from_image_failure(ImageFailure::Unsupported), OsplError::IoError(IoKind::Unsupported));
    assert_eq!(
        OsplError::from_image_failure(ImageFailure::Io(IoKind::PermissionDenied)),
        OsplError::IoError(IoKind::PermissionDenied)
    );
    assert_eq!(OsplError::from_image_failure(ImageFailure::Limits), OsplError::IoError(IoKind::OutOfMemory));
    assert_eq!(OsplError::from_image_failure(ImageFailure::Other), OsplError::InternalError(Error::Other));
}

#[test]
fn error_messages() {
    assert_eq!(OsplError::IoError(IoKind::NotFound).message(), "IO error: NotFound");
    assert_eq!(OsplError::InternalError(Error::EmptyName).message(), "Internal error: EmptyName");
    assert_eq!(OsplError::DatabaseError("disk full".to_string()).message(), "Database error: disk full");
    assert_eq!(OsplError::not_found(), OsplError::IoError(IoKind::NotFound));
}

#[test]
fn blank_names_are_refused() {
    assert_eq!(require_name("").err().unwrap(), OsplError::InternalError(Error::EmptyName));
    assert!(require_name("2019").is_ok());
}

#[test]
fn directory_keeps_its_path() {
    let d = ospl::Directory::from("/tmp/photos").unwrap();
    assert_eq!(d.path(), "/tmp/photos");
}
