use memdevice::memerror::{Cause, SMBiosError, VarError};
use std::io;

#[test]
fn io_error_message() {
    let err = SMBiosError::Io(io::Error::new(io::ErrorKind::NotFound, "no such file"));
    assert_eq!(err.to_string(), "IO error");
}

#[test]
fn os_str_error_message() {
    assert_eq!(SMBiosError::OsStr.to_string(), "OsStr parsing error");
}

#[test]
fn var_error_message() {
    let err = SMBiosError::Var(VarError::NotPresent);
    assert_eq!(err.to_string(), "Error parsing environment variable");
    let err = SMBiosError::Var(VarError::NotUnicode(String::from("caf")));
    assert_eq!(err.to_string(), "Error parsing environment variable");
}

#[test]
fn string_error_message() {
    let err = SMBiosError::String(String::from("table is empty"));
    assert_eq!(err.to_string(), "Error: table is empty");
    assert_eq!(SMBiosError::String(String::new()).to_string(), "Error: ");
}

#[test]
fn io_error_keeps_its_cause() {
    let err = SMBiosError::Io(io::Error::new(io::ErrorKind::PermissionDenied, "root only"));
    match err.source() {
        Some(Cause::Io(cause)) => {
            assert_eq!(cause.kind(), io::ErrorKind::PermissionDenied);
            assert_eq!(cause.to_string(), "root only");
        }
        _ => panic!("an I/O error has an I/O cause"),
    }
}

#[test]
fn var_error_keeps_its_cause() {
    let err = SMBiosError::Var(VarError::NotUnicode(String::from("caf")));
    match err.source() {
        Some(Cause::Var(VarError::NotUnicode(text))) => assert_eq!(text, "caf"),
        _ => panic!("a variable error has a variable cause"),
    }
    let err = SMBiosError::Var(VarError::NotPresent);
    assert!(matches!(err.source(), Some(Cause::Var(VarError::NotPresent))));
}

#[test]
fn errors_without_cause() {
    assert!(SMBiosError::OsStr.source().is_none());
    assert!(SMBiosError::String(String::from("x")).source().is_none());
}

#[test]
fn error_from_io_error() {
    let err = SMBiosError::from(io::Error::new(io::ErrorKind::NotFound, "gone"));
    assert!(matches!(err, SMBiosError::Io(ref e) if e.kind() == io::ErrorKind::NotFound));
}

#[test]
fn error_from_var_error() {
    let err: SMBiosError = VarError::NotPresent.into();
    assert!(matches!(err, SMBiosError::Var(VarError::NotPresent)));
}

#[test]
fn error_from_string() {
    let err = SMBiosError::from(String::from("bad table"));
    assert!(matches!(err, SMBiosError::String(ref s) if s == "bad table"));
}

#[test]
fn error_from_question_mark() {
    fn fails() -> Result<(), SMBiosError> {
        Err(io::Error::new(io::ErrorKind::UnexpectedEof, "short"))?;
        Ok(())
    }
    assert!(matches!(fails(), Err(SMBiosError::Io(_))));
}
