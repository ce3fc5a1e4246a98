#![allow(deprecated)]

use std::error::Error;
use std::fmt;
use std::io;

use arc_io_error::{IoError, IoErrorKind, SharedCause};

#[derive(Debug)]
struct Underlying(u8);

impl fmt::Display for Underlying {
    fn fmt(&self, f: &mut fmt::Formatter) -> Result<(), fmt::Error> {
        f.write_str(&format!("{}: {}", self.description(), self.0))
    }
}

impl Error for Underlying {
    fn description(&self) -> &str {
        "my error"
    }

    fn cause(&self) -> Option<&dyn Error> {
        None
    }
}

fn shared_cause(value: u8) -> SharedCause {
    IoError::from_io(io::Error::new(IoErrorKind::Other, Underlying(value)))
        .into_inner()
        .unwrap()
}

#[test]
fn test_from_raw_os_error_shape() {
    for code in [0, 1, 2, 42, -1, i32::MAX, i32::MIN] {
        let err = IoError::from_raw_os_error(code);
        assert_eq!(err.raw_os_error(), Some(code));
        assert!(err.get_ref().is_none());
        assert_eq!(err.to_string(), io::Error::from_raw_os_error(code).to_string());
        assert_eq!(
            err.clone().into_io().to_string(),
            io::Error::from_raw_os_error(code).to_string()
        );
        assert!(err.clone().into_inner().is_none());
    }
}

#[test]
fn test_kind_idempotent() {
    let err = IoError::from_raw_os_error(42);
    assert_eq!(err.kind(), err.kind());
    let err = IoError::from_raw_os_error(2);
    assert_eq!(err.kind(), err.kind());
    assert_eq!(err.kind(), IoErrorKind::NotFound);
}

#[test]
fn test_from_kind_constructor() {
    let err = IoError::from_kind(IoErrorKind::ConnectionReset);
    assert_eq!(err.kind(), IoErrorKind::ConnectionReset);
    assert!(err.raw_os_error().is_none());
    assert_eq!(
        err.to_string(),
        io::Error::from(IoErrorKind::ConnectionReset).to_string()
    );
    assert!(err.into_inner().is_none());
}

#[test]
fn test_last_os_error() {
    let err = IoError::last_os_error();
    assert!(err.raw_os_error().is_some());
    assert!(err.into_inner().is_none());
}

#[test]
fn test_new_stores_kind_and_cause() {
    let err = IoError::new(IoErrorKind::TimedOut, shared_cause(7));
    assert_eq!(err.kind(), IoErrorKind::TimedOut);
    assert!(err.raw_os_error().is_none());
    assert_eq!(err.to_string(), "my error: 7");
    assert_eq!(
        err.description(),
        io::Error::new(IoErrorKind::TimedOut, Underlying(7)).description()
    );
    assert_eq!(err.get_ref().unwrap().to_string(), "my error: 7");
    assert_eq!(err.into_inner().unwrap().description(), "my error");
}

#[test]
fn test_sharing_invariant() {
    let v = IoError::new(IoErrorKind::Other, shared_cause(9));
    let v2 = v.clone();
    let n = v2.into_io();
    let rewrapped = IoError::from_io(n);
    let original_cause = v.into_inner().unwrap();
    let recovered_cause = rewrapped.into_inner().unwrap();
    assert_eq!(original_cause.to_string(), recovered_cause.to_string());
    assert_eq!(original_cause.to_string(), "my error: 9");
    assert_eq!(original_cause.description(), "my error");
}

#[test]
fn test_end_to_end() {
    let cause = shared_cause(42);
    assert_eq!(cause.description(), "my error");
    assert_eq!(cause.to_string(), "my error: 42");

    let wrapped = IoError::new(IoErrorKind::ConnectionReset, cause);
    let native = wrapped.into_io();
    let back = IoError::from_io(native);

    assert_eq!(back.kind(), IoErrorKind::ConnectionReset);
    assert!(back.raw_os_error().is_none());
    assert_eq!(back.into_inner().unwrap().to_string(), "my error: 42");
}

#[test]
fn test_cause_clone_shares_content() {
    let cause = shared_cause(3);
    let copy = cause.clone();
    assert_eq!(cause.description(), copy.description());
    assert_eq!(cause.to_string(), copy.to_string());
    assert_eq!(copy.to_string(), "my error: 3");
}
