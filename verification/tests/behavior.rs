use std::io;

use os_error::{NoOsError, OsError};

#[test]
fn code_round_trip() {
    assert_eq!(OsError::new(0).code(), 0);
    assert_eq!(OsError::new(98).code(), 98);
    assert_eq!(OsError::new(-207).code(), -207);
    assert_eq!(OsError::new(i32::MIN).code(), i32::MIN);
    assert_eq!(OsError::new(i32::MAX).code(), i32::MAX);
}

#[test]
fn equality_follows_code() {
    assert_eq!(OsError::new(5), OsError::new(5));
    assert_ne!(OsError::new(5), OsError::new(6));
}

#[test]
fn ordering_follows_code() {
    assert!(OsError::new(1) < OsError::new(2));
    assert!(OsError::new(2) > OsError::new(1));
    assert!(OsError::new(-3) < OsError::new(0));
    assert!(OsError::new(7) <= OsError::new(7));
    assert_eq!(
        OsError::new(1).partial_cmp(&OsError::new(2)),
        Some(std::cmp::Ordering::Less)
    );
    assert_eq!(
        OsError::new(2).partial_cmp(&OsError::new(2)),
        Some(std::cmp::Ordering::Equal)
    );
}

#[test]
fn classification_is_deterministic() {
    let err = OsError::new(98);
    assert_eq!(err.kind(), err.kind());
    assert_eq!(OsError::new(98).kind(), OsError::new(98).kind());
}

#[test]
fn classification_matches_host() {
    // On a POSIX host, code 98 is "address in use".
    assert_eq!(OsError::new(98).kind(), io::ErrorKind::AddrInUse);
    assert_eq!(
        OsError::new(1).kind(),
        io::Error::from_raw_os_error(1).kind()
    );
    assert_eq!(
        OsError::new(-207).kind(),
        io::Error::from_raw_os_error(-207).kind()
    );
}

#[test]
fn display_matches_host_message() {
    for code in [0, 1, 2, 98, -207, i32::MIN, i32::MAX] {
        assert_eq!(
            OsError::new(code).format_display(),
            io::Error::from_raw_os_error(code).to_string()
        );
    }
}

#[test]
fn debug_rendering_positive_code() {
    let expected = format!(
        "OsError {{ code: 98, kind: {:?} }}",
        io::Error::from_raw_os_error(98).kind()
    );
    assert_eq!(OsError::new(98).format_debug(), expected);
}

#[test]
fn debug_rendering_negative_code() {
    let expected = format!(
        "OsError {{ code: -207, kind: {:?} }}",
        io::Error::from_raw_os_error(-207).kind()
    );
    assert_eq!(OsError::new(-207).format_debug(), expected);
}

#[test]
fn from_raw_code_both_arms() {
    assert_eq!(OsError::from_raw_code(Some(5)), Ok(OsError::new(5)));
    assert_eq!(OsError::from_raw_code(None), Err(NoOsError));
}

#[test]
fn to_error_keeps_the_code() {
    let condition = OsError::new(13).to_error();
    assert_eq!(condition.raw_os_error(), Some(13));
    assert_eq!(OsError::try_from(condition), Ok(OsError::new(13)));
}

#[test]
fn last_os_error_matches_host() {
    let ours = OsError::last_os_error();
    let host = io::Error::last_os_error().raw_os_error().unwrap();
    assert_eq!(ours.code(), host);
}
