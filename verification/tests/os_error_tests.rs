use std::io;

use os_error::{NoOsError, OsError};

const CODE: i32 = 6;

#[test]
fn test_fmt_display() {
    let err = OsError::new(CODE);
    let io_error = io::Error::from_raw_os_error(CODE);

    assert_eq!(err.format_display(), format!("{}", io_error));
}

#[test]
fn test_fmt_debug() {
    // The exact category name is the host's own: code 6 has no specific
    // mapping, so it falls into the host's catch-all category.
    let kind = io::Error::from_raw_os_error(CODE).kind();
    let err = OsError::new(CODE);

    let expected = format!("OsError {{ code: {:?}, kind: {:?} }}", CODE, kind);
    assert_eq!(err.format_debug(), expected);
}

#[test]
fn from_io_error() {
    let os_error = OsError::try_from(io::Error::from_raw_os_error(CODE));
    assert_eq!(os_error, Ok(OsError::new(CODE)));

    let os_error = OsError::try_from(io::Error::new(io::ErrorKind::AddrInUse, "NoOsError"));
    assert_eq!(os_error, Err(NoOsError));
}

#[test]
fn into_os_error() {
    let os_error = OsError::try_from(io::Error::from_raw_os_error(CODE));
    assert_eq!(os_error, Ok(OsError::new(CODE)));

    let os_error = OsError::try_from(io::Error::new(io::ErrorKind::AddrInUse, "NoOsError"));
    assert_eq!(os_error, Err(NoOsError));
}
