//! The status translation layer: every defined sentinel code maps to
//! its exact classification, and the diagnostic record is consulted
//! only for the two codes that carry one.

use rustoci::ffi::{check_error, ErrorKind, NativeOp, OCIError, Oci};

#[test]
fn success_code_yields_no_error() {
    let mut oci = Oci::new();
    let r = check_error(&mut oci, 0, None, "spot");
    assert!(r.is_none());
    assert_eq!(oci.log.len(), 0);
}

#[test]
fn success_code_ignores_error_handle() {
    let mut oci = Oci::new();
    oci.set_diagnostic(1017, "ORA-01017: invalid username/password".to_string());
    let handle = OCIError { raw: 7 };
    let r = check_error(&mut oci, 0, Some(&handle), "spot");
    assert!(r.is_none());
    assert_eq!(oci.log.len(), 0);
}

#[test]
fn no_data_is_canned() {
    let mut oci = Oci::new();
    let e = check_error(&mut oci, 100, None, "spot").unwrap();
    assert_eq!(e.kind, ErrorKind::NoData);
    assert_eq!(e.code, 100);
    assert_eq!(e.message, "No data");
    assert_eq!(e.location, "spot");
}

#[test]
fn no_data_ignores_error_handle_content() {
    // The no-data code must be classified without consulting the
    // diagnostic record: whatever the handle would answer, the result
    // is the same canned classification, and no retrieval happens.
    let mut oci = Oci::new();
    oci.set_diagnostic(-999, "unrelated diagnostic text".to_string());
    let handle = OCIError { raw: 3 };
    let e = check_error(&mut oci, 100, Some(&handle), "spot").unwrap();
    assert_eq!(e.kind, ErrorKind::NoData);
    assert_eq!(e.code, 100);
    assert_eq!(e.message, "No data");
    assert_eq!(oci.log.len(), 0);
}

#[test]
fn invalid_handle_is_canned() {
    let mut oci = Oci::new();
    let e = check_error(&mut oci, -2, None, "spot").unwrap();
    assert_eq!(e.kind, ErrorKind::InvalidHandle);
    assert_eq!(e.code, -2);
    assert_eq!(e.message, "Invalid handle");
}

#[test]
fn need_data_is_canned() {
    let mut oci = Oci::new();
    let e = check_error(&mut oci, 99, None, "spot").unwrap();
    assert_eq!(e.kind, ErrorKind::NeedData);
    assert_eq!(e.code, 99);
    assert_eq!(e.message, "Need data");
}

#[test]
fn still_executing_is_canned() {
    let mut oci = Oci::new();
    let e = check_error(&mut oci, -3123, None, "spot").unwrap();
    assert_eq!(e.kind, ErrorKind::StillExecuting);
    assert_eq!(e.code, -3123);
    assert_eq!(e.message, "Still executing");
}

#[test]
fn error_with_handle_consults_diagnostics() {
    let mut oci = Oci::new();
    oci.set_diagnostic(1017, "ORA-01017: invalid username/password".to_string());
    let handle = OCIError { raw: 5 };
    let e = check_error(&mut oci, -1, Some(&handle), "conn::attach").unwrap();
    assert_eq!(e.kind, ErrorKind::DiagnosedError);
    assert_eq!(e.code, 1017);
    assert_eq!(e.message, "ORA-01017: invalid username/password");
    assert_eq!(e.location, "conn::attach");
    assert_eq!(oci.log.len(), 1);
    match &oci.log[0].op {
        NativeOp::ErrorGet { error, recordno } => {
            assert_eq!(*error, 5);
            assert_eq!(*recordno, 1);
        }
        other => panic!("expected a diagnostic retrieval, got {:?}", other),
    }
}

#[test]
fn error_without_handle_is_undiagnosed() {
    let mut oci = Oci::new();
    let e = check_error(&mut oci, -1, None, "spot").unwrap();
    assert_eq!(e.kind, ErrorKind::UndiagnosedError);
    assert_eq!(e.code, -1);
    assert_eq!(e.message, "Error with no details");
    assert_eq!(oci.log.len(), 0);
}

#[test]
fn success_with_info_with_handle_consults_diagnostics() {
    let mut oci = Oci::new();
    oci.set_diagnostic(24347, "ORA-24347: warning in aggregate".to_string());
    let handle = OCIError { raw: 2 };
    let e = check_error(&mut oci, 1, Some(&handle), "spot").unwrap();
    assert_eq!(e.kind, ErrorKind::SuccessWithInfo);
    assert_eq!(e.code, 24347);
    assert_eq!(e.message, "ORA-24347: warning in aggregate");
    assert_eq!(oci.log.len(), 1);
}

#[test]
fn success_with_info_without_handle_is_canned() {
    let mut oci = Oci::new();
    let e = check_error(&mut oci, 1, None, "spot").unwrap();
    assert_eq!(e.kind, ErrorKind::SuccessWithInfo);
    assert_eq!(e.code, 1);
    assert_eq!(e.message, "Success with info");
}

#[test]
fn unknown_code_is_a_contract_violation() {
    let mut oci = Oci::new();
    let e = check_error(&mut oci, 42, None, "spot").unwrap();
    assert_eq!(e.kind, ErrorKind::UnexpectedCode);
    assert_eq!(e.code, 42);
    assert_eq!(e.message, "Unknown return code");
    let e2 = check_error(&mut oci, -7777, None, "spot").unwrap();
    assert_eq!(e2.kind, ErrorKind::UnexpectedCode);
    assert_eq!(e2.code, -7777);
}

#[test]
fn error_description_names_the_family() {
    let mut oci = Oci::new();
    let e = check_error(&mut oci, 100, None, "spot").unwrap();
    assert_eq!(e.description(), "Oracle error");
}
