use transfer_error::error::Error;
use transfer_error::error::ErrorKind;
use transfer_error::error::OpaqueError;
use transfer_error::error::SysError;
use transfer_error::error::SysErrorClass;

fn sys(class: SysErrorClass, message: &str) -> SysError {
    SysError { class, message: message.to_string() }
}

#[test]
fn display_file_exists() {
    assert_eq!(Error::new(ErrorKind::FileExists).message(), "File already exists");
}

#[test]
fn display_directory_missing() {
    assert_eq!(
        Error::new(ErrorKind::DirectoryMissing).message(),
        "Destination path provided is not a valid directory"
    );
}

#[test]
fn display_permission_denied() {
    assert_eq!(
        Error::new(ErrorKind::PermissionDenied).message(),
        "Cannot create file: permission denied"
    );
}

#[test]
fn display_invalid_response() {
    assert_eq!(
        Error::new(ErrorKind::InvalidResponse).message(),
        "Invalid response from the remote host"
    );
}

#[test]
fn display_io_delegates_to_wrapped_text() {
    let s = sys(SysErrorClass::NotFound, "entity not found");
    let e = Error::new(ErrorKind::IO(s));
    assert_eq!(e.message(), "entity not found");
}

#[test]
fn display_other_delegates_to_wrapped_text() {
    let b = OpaqueError { message: "tls handshake failed".to_string() };
    let e = Error::new(ErrorKind::Other(b));
    assert_eq!(e.message(), "tls handshake failed");
}

#[test]
fn from_sys_permission_denied_collapses() {
    let s = sys(SysErrorClass::PermissionDenied, "permission denied (os error 13)");
    let e = Error::from(s);
    assert!(matches!(e.kind(), ErrorKind::PermissionDenied));
    assert_eq!(e.into_inner_io(), None);
}

#[test]
fn from_sys_not_permission_denied_wraps_whole() {
    let s = sys(SysErrorClass::NotFound, "entity not found");
    let e = Error::from(s.clone());
    assert!(matches!(e.kind(), ErrorKind::IO(_)));
    assert_eq!(e.into_inner_io(), Some(s));
}

#[test]
fn from_sys_unclassified_wraps_whole() {
    let s = sys(SysErrorClass::Unclassified, "broken pipe");
    let e = Error::from(s.clone());
    assert!(matches!(e.kind(), ErrorKind::IO(_)));
    assert_eq!(e.message(), "broken pipe");
    assert_eq!(e.into_inner_io(), Some(s));
}

#[test]
fn from_opaque_always_other() {
    let b = OpaqueError { message: "upstream library failure".to_string() };
    let e = Error::from(b.clone());
    assert!(matches!(e.kind(), ErrorKind::Other(_)));
    assert_eq!(e.message(), "upstream library failure");
    assert_eq!(e.into_inner_other(), Some(b));
}

#[test]
fn inner_io_absent_for_every_other_variant() {
    assert_eq!(Error::new(ErrorKind::FileExists).into_inner_io(), None);
    assert_eq!(Error::new(ErrorKind::DirectoryMissing).into_inner_io(), None);
    assert_eq!(Error::new(ErrorKind::PermissionDenied).into_inner_io(), None);
    assert_eq!(Error::new(ErrorKind::InvalidResponse).into_inner_io(), None);
    let b = OpaqueError { message: "boxed".to_string() };
    assert_eq!(Error::new(ErrorKind::Other(b)).into_inner_io(), None);
}

#[test]
fn inner_other_absent_for_every_other_variant() {
    assert_eq!(Error::new(ErrorKind::FileExists).into_inner_other(), None);
    assert_eq!(Error::new(ErrorKind::DirectoryMissing).into_inner_other(), None);
    assert_eq!(Error::new(ErrorKind::PermissionDenied).into_inner_other(), None);
    assert_eq!(Error::new(ErrorKind::InvalidResponse).into_inner_other(), None);
    let s = sys(SysErrorClass::AlreadyExists, "exists");
    assert_eq!(Error::new(ErrorKind::IO(s)).into_inner_other(), None);
}

#[test]
fn new_wraps_given_kind() {
    let e = Error::new(ErrorKind::FileExists);
    assert!(matches!(e.kind(), ErrorKind::FileExists));
    assert!(!Error::new(ErrorKind::FileExists).message().is_empty());
}

fn refuse(s: SysError) -> Result<(), Error> {
    let failed: Result<(), SysError> = Err(s);
    failed?;
    Ok(())
}

#[test]
fn propagation_converts_automatically() {
    let denied = refuse(sys(SysErrorClass::PermissionDenied, "no access")).unwrap_err();
    assert!(matches!(denied.kind(), ErrorKind::PermissionDenied));
    let plain = refuse(sys(SysErrorClass::NotFound, "entity not found")).unwrap_err();
    assert!(matches!(plain.kind(), ErrorKind::IO(_)));
}

#[test]
fn round_trip_recovers_payloads() {
    let s = sys(SysErrorClass::AlreadyExists, "already there");
    assert_eq!(Error::from(s.clone()).into_inner_io(), Some(s));
    let b = OpaqueError { message: "anything at all".to_string() };
    assert_eq!(Error::from(b.clone()).into_inner_other(), Some(b));
}
