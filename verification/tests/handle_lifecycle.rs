//! The resource hierarchy: setup call order, rollback on failure, and
//! teardown in strict reverse dependency order, observed through the
//! call-recording native layer.

use rustoci::conn::Connection;
use rustoci::env::Environment;
use rustoci::ffi::{AttrValue, ErrorKind, NativeOp, Oci};
use rustoci::stmt::Statement;

#[test]
fn environment_build_allocates_env_then_error_handle() {
    let mut oci = Oci::new();
    let env = Environment::new(&mut oci).unwrap();
    assert_eq!(env.handle.raw, 0);
    assert_eq!(env.error_handle.raw, 1);
    assert_eq!(oci.log.len(), 2);
    assert!(matches!(
        oci.log[0].op,
        NativeOp::EnvNlsCreate { mode: 0, handle: 0 }
    ));
    assert!(matches!(
        oci.log[1].op,
        NativeOp::HandleAlloc { parent: 0, htype: 2, handle: 1 }
    ));
    let closed = env.close(&mut oci);
    assert!(closed.is_ok());
    assert_eq!(oci.log.len(), 4);
    assert!(matches!(oci.log[2].op, NativeOp::HandleFree { handle: 1, htype: 2 }));
    assert!(matches!(oci.log[3].op, NativeOp::HandleFree { handle: 0, htype: 1 }));
}

#[test]
fn environment_build_failure_on_first_call_allocates_nothing() {
    let mut oci = Oci::with_script(vec![-2]);
    let r = Environment::new(&mut oci);
    let e = r.err().unwrap();
    assert_eq!(e.kind, ErrorKind::InvalidHandle);
    assert_eq!(oci.log.len(), 1);
    assert_eq!(oci.log[0].status, -2);
}

#[test]
fn environment_build_failure_frees_the_environment_handle() {
    // The error-handle allocation fails: the environment handle that
    // the first call allocated must be freed again before the error
    // comes back, so the failing build leaks nothing.
    let mut oci = Oci::with_script(vec![0, -2]);
    let r = Environment::new(&mut oci);
    let e = r.err().unwrap();
    assert_eq!(e.kind, ErrorKind::InvalidHandle);
    assert_eq!(oci.log.len(), 3);
    assert!(matches!(oci.log[0].op, NativeOp::EnvNlsCreate { handle: 0, .. }));
    assert_eq!(oci.log[0].status, 0);
    assert!(matches!(oci.log[1].op, NativeOp::HandleAlloc { handle: 1, .. }));
    assert_eq!(oci.log[1].status, -2);
    assert!(matches!(oci.log[2].op, NativeOp::HandleFree { handle: 0, htype: 1 }));
}

#[test]
fn connection_build_performs_the_setup_calls_in_order() {
    let mut oci = Oci::new();
    let conn = Connection::new(
        &mut oci,
        "scott".to_string(),
        "tiger".to_string(),
        "oracle".to_string(),
    )
    .unwrap();
    assert_eq!(conn.env.handle.raw, 0);
    assert_eq!(conn.env.error_handle.raw, 1);
    assert_eq!(conn.server_handle.raw, 2);
    assert_eq!(conn.service_handle.raw, 3);
    assert_eq!(conn.session_handle.raw, 4);
    assert_eq!(oci.log.len(), 11);
    assert!(matches!(oci.log[0].op, NativeOp::EnvNlsCreate { mode: 0, handle: 0 }));
    assert!(matches!(oci.log[1].op, NativeOp::HandleAlloc { parent: 0, htype: 2, handle: 1 }));
    assert!(matches!(oci.log[2].op, NativeOp::HandleAlloc { parent: 0, htype: 8, handle: 2 }));
    assert!(matches!(oci.log[3].op, NativeOp::HandleAlloc { parent: 0, htype: 3, handle: 3 }));
    assert!(matches!(oci.log[4].op, NativeOp::HandleAlloc { parent: 0, htype: 9, handle: 4 }));
    match &oci.log[5].op {
        NativeOp::ServerAttach { server, error, db, mode } => {
            assert_eq!(*server, 2);
            assert_eq!(*error, 1);
            assert_eq!(db, "oracle");
            assert_eq!(*mode, 0);
        }
        other => panic!("expected the server attach, got {:?}", other),
    }
    match &oci.log[6].op {
        NativeOp::AttrSet { target, htype, value, size, attr, error } => {
            assert_eq!(*target, 3);
            assert_eq!(*htype, 3);
            assert!(matches!(value, AttrValue::Handle(2)));
            assert_eq!(*size, 0);
            assert_eq!(*attr, 6);
            assert_eq!(*error, 1);
        }
        other => panic!("expected the server link, got {:?}", other),
    }
    match &oci.log[7].op {
        NativeOp::AttrSet { target, value, size, attr, .. } => {
            assert_eq!(*target, 4);
            match value {
                AttrValue::Text(t) => assert_eq!(t, "scott"),
                other => panic!("expected the user name text, got {:?}", other),
            }
            assert_eq!(*size, 5);
            assert_eq!(*attr, 22);
        }
        other => panic!("expected the user name attribute, got {:?}", other),
    }
    match &oci.log[8].op {
        NativeOp::AttrSet { target, value, size, attr, .. } => {
            assert_eq!(*target, 4);
            match value {
                AttrValue::Text(t) => assert_eq!(t, "tiger"),
                other => panic!("expected the password text, got {:?}", other),
            }
            assert_eq!(*size, 5);
            assert_eq!(*attr, 23);
        }
        other => panic!("expected the password attribute, got {:?}", other),
    }
    match &oci.log[9].op {
        NativeOp::SessionBegin { service, error, session, credentials, mode } => {
            assert_eq!(*service, 3);
            assert_eq!(*error, 1);
            assert_eq!(*session, 4);
            assert_eq!(*credentials, 1);
            assert_eq!(*mode, 0);
        }
        other => panic!("expected the session begin, got {:?}", other),
    }
    match &oci.log[10].op {
        NativeOp::AttrSet { target, value, attr, .. } => {
            assert_eq!(*target, 3);
            assert!(matches!(value, AttrValue::Handle(4)));
            assert_eq!(*attr, 7);
        }
        other => panic!("expected the session link, got {:?}", other),
    }
    let closed = conn.close(&mut oci);
    assert!(closed.is_ok());
}

#[test]
fn empty_credentials_carry_zero_lengths() {
    let mut oci = Oci::new();
    let conn = Connection::new(
        &mut oci,
        String::new(),
        String::new(),
        String::new(),
    )
    .unwrap();
    assert_eq!(oci.call_count(), 11);
    match &oci.log[7].op {
        NativeOp::AttrSet { value, size, attr, .. } => {
            match value {
                AttrValue::Text(t) => assert_eq!(t, ""),
                other => panic!("expected the user name text, got {:?}", other),
            }
            assert_eq!(*size, 0);
            assert_eq!(*attr, 22);
        }
        other => panic!("expected the user name attribute, got {:?}", other),
    }
    conn.close(&mut oci).unwrap();
    assert_eq!(oci.call_count(), 18);
}

#[test]
fn connection_teardown_runs_in_reverse_dependency_order() {
    let mut oci = Oci::new();
    let conn = Connection::new(
        &mut oci,
        "scott".to_string(),
        "tiger".to_string(),
        "oracle".to_string(),
    )
    .unwrap();
    conn.close(&mut oci).unwrap();
    assert_eq!(oci.log.len(), 18);
    assert!(matches!(
        oci.log[11].op,
        NativeOp::SessionEnd { service: 3, error: 1, session: 4, mode: 0 }
    ));
    assert!(matches!(oci.log[12].op, NativeOp::ServerDetach { server: 2, error: 1, mode: 0 }));
    assert!(matches!(oci.log[13].op, NativeOp::HandleFree { handle: 4, htype: 9 }));
    assert!(matches!(oci.log[14].op, NativeOp::HandleFree { handle: 3, htype: 3 }));
    assert!(matches!(oci.log[15].op, NativeOp::HandleFree { handle: 2, htype: 8 }));
    assert!(matches!(oci.log[16].op, NativeOp::HandleFree { handle: 1, htype: 2 }));
    assert!(matches!(oci.log[17].op, NativeOp::HandleFree { handle: 0, htype: 1 }));
    // each teardown call happened exactly once
    let ends = oci.log.iter().filter(|r| matches!(r.op, NativeOp::SessionEnd { .. })).count();
    let detaches =
        oci.log.iter().filter(|r| matches!(r.op, NativeOp::ServerDetach { .. })).count();
    let frees = oci.log.iter().filter(|r| matches!(r.op, NativeOp::HandleFree { .. })).count();
    assert_eq!(ends, 1);
    assert_eq!(detaches, 1);
    assert_eq!(frees, 5);
}

#[test]
fn connection_build_failure_at_attach_rolls_everything_back() {
    // The sixth call (the attach) answers with the generic error; the
    // diagnostic record is consulted and all five handles are freed.
    let mut oci = Oci::with_script(vec![0, 0, 0, 0, 0, -1]);
    oci.set_diagnostic(12154, "ORA-12154: could not resolve the connect identifier".to_string());
    let r = Connection::new(
        &mut oci,
        "scott".to_string(),
        "tiger".to_string(),
        "oracle".to_string(),
    );
    let e = r.err().unwrap();
    assert_eq!(e.kind, ErrorKind::DiagnosedError);
    assert_eq!(e.code, 12154);
    assert_eq!(e.message, "ORA-12154: could not resolve the connect identifier");
    assert_eq!(e.location, "ffi::oci_server_attach");
    assert_eq!(oci.log.len(), 12);
    assert!(matches!(oci.log[5].op, NativeOp::ServerAttach { .. }));
    assert_eq!(oci.log[5].status, -1);
    assert!(matches!(oci.log[6].op, NativeOp::ErrorGet { error: 1, recordno: 1 }));
    assert!(matches!(oci.log[7].op, NativeOp::HandleFree { handle: 4, htype: 9 }));
    assert!(matches!(oci.log[8].op, NativeOp::HandleFree { handle: 3, htype: 3 }));
    assert!(matches!(oci.log[9].op, NativeOp::HandleFree { handle: 2, htype: 8 }));
    assert!(matches!(oci.log[10].op, NativeOp::HandleFree { handle: 1, htype: 2 }));
    assert!(matches!(oci.log[11].op, NativeOp::HandleFree { handle: 0, htype: 1 }));
}

#[test]
fn connection_build_failure_after_attach_detaches_first() {
    // The session begin (call ten) fails: the rollback must detach
    // the attached server before any handle is freed.
    let mut oci = Oci::with_script(vec![0, 0, 0, 0, 0, 0, 0, 0, 0, -1]);
    oci.set_diagnostic(1017, "ORA-01017: invalid username/password".to_string());
    let r = Connection::new(
        &mut oci,
        "scott".to_string(),
        "wrong".to_string(),
        "oracle".to_string(),
    );
    let e = r.err().unwrap();
    assert_eq!(e.kind, ErrorKind::DiagnosedError);
    assert_eq!(e.code, 1017);
    assert_eq!(oci.log.len(), 17);
    assert!(matches!(oci.log[9].op, NativeOp::SessionBegin { .. }));
    assert_eq!(oci.log[9].status, -1);
    assert!(matches!(oci.log[10].op, NativeOp::ErrorGet { .. }));
    assert!(matches!(oci.log[11].op, NativeOp::ServerDetach { server: 2, error: 1, mode: 0 }));
    assert!(matches!(oci.log[12].op, NativeOp::HandleFree { handle: 4, htype: 9 }));
    assert!(matches!(oci.log[13].op, NativeOp::HandleFree { handle: 3, htype: 3 }));
    assert!(matches!(oci.log[14].op, NativeOp::HandleFree { handle: 2, htype: 8 }));
    assert!(matches!(oci.log[15].op, NativeOp::HandleFree { handle: 1, htype: 2 }));
    assert!(matches!(oci.log[16].op, NativeOp::HandleFree { handle: 0, htype: 1 }));
}

#[test]
fn connection_teardown_stops_at_a_failing_release() {
    // A failing release is fatal: nothing after it is attempted, and
    // the failure comes back to the caller's shell.
    let mut oci = Oci::with_script(vec![0, 0, 0, 0, 0, 0, 0, 0, 0, 0, 0, -2]);
    let conn = Connection::new(
        &mut oci,
        "scott".to_string(),
        "tiger".to_string(),
        "oracle".to_string(),
    )
    .unwrap();
    let r = conn.close(&mut oci);
    let e = r.err().unwrap();
    assert_eq!(e.kind, ErrorKind::InvalidHandle);
    assert_eq!(e.location, "ffi::oci_session_end");
    assert_eq!(oci.log.len(), 12);
    assert!(matches!(oci.log[11].op, NativeOp::SessionEnd { .. }));
}

#[test]
fn statement_prepare_and_execute_use_text_key_and_zero_iterations() {
    let mut oci = Oci::new();
    let conn = Connection::new(
        &mut oci,
        "scott".to_string(),
        "tiger".to_string(),
        "oracle".to_string(),
    )
    .unwrap();
    let stmt = conn
        .new_statement(&mut oci, "SELECT 1 FROM DUAL".to_string())
        .unwrap();
    assert_eq!(oci.log.len(), 12);
    let key_prepared = match &oci.log[11].op {
        NativeOp::StmtPrepare2 { service, error, text, key, handle, syntax, mode } => {
            assert_eq!(*service, 3);
            assert_eq!(*error, 1);
            assert_eq!(text, "SELECT 1 FROM DUAL");
            assert_eq!(*handle, 11);
            assert_eq!(*syntax, 1);
            assert_eq!(*mode, 0);
            key.clone()
        }
        other => panic!("expected the prepare, got {:?}", other),
    };
    assert_eq!(key_prepared, "f6dd5c4aa88213cc");
    let stmt = stmt.execute(&mut oci).unwrap();
    assert_eq!(oci.log.len(), 13);
    assert!(matches!(
        oci.log[12].op,
        NativeOp::StmtExecute { service: 3, stmt: 11, error: 1, iters: 0, rowoff: 0, mode: 0 }
    ));
    stmt.close(&mut oci).unwrap();
}

#[test]
fn preparing_the_same_text_twice_yields_the_same_key() {
    let text = "SELECT 1 FROM DUAL";
    let mut first = Oci::new();
    let conn1 = Connection::new(
        &mut first,
        "scott".to_string(),
        "tiger".to_string(),
        "oracle".to_string(),
    )
    .unwrap();
    let _st1 = Statement::new(&mut first, conn1, text.to_string()).unwrap();
    let mut second = Oci::new();
    let conn2 = Connection::new(
        &mut second,
        "other".to_string(),
        "secret".to_string(),
        "elsewhere".to_string(),
    )
    .unwrap();
    let _st2 = Statement::new(&mut second, conn2, text.to_string()).unwrap();
    let k1 = match &first.log[11].op {
        NativeOp::StmtPrepare2 { key, .. } => key.clone(),
        other => panic!("expected the prepare, got {:?}", other),
    };
    let k2 = match &second.log[11].op {
        NativeOp::StmtPrepare2 { key, .. } => key.clone(),
        other => panic!("expected the prepare, got {:?}", other),
    };
    assert_eq!(k1, k2);
}

#[test]
fn statement_release_uses_the_prepared_key() {
    let mut oci = Oci::new();
    let conn = Connection::new(
        &mut oci,
        "scott".to_string(),
        "tiger".to_string(),
        "oracle".to_string(),
    )
    .unwrap();
    // the text is consumed by the build and gone by teardown time
    let stmt = conn
        .new_statement(&mut oci, "SELECT owner FROM all_tables".to_string())
        .unwrap();
    let key_prepared = match &oci.log[11].op {
        NativeOp::StmtPrepare2 { key, .. } => key.clone(),
        other => panic!("expected the prepare, got {:?}", other),
    };
    stmt.close(&mut oci).unwrap();
    assert_eq!(oci.log.len(), 20);
    match &oci.log[12].op {
        NativeOp::StmtRelease { stmt, error, key, mode } => {
            assert_eq!(*stmt, 11);
            assert_eq!(*error, 1);
            assert_eq!(key, &key_prepared);
            assert_eq!(*mode, 0);
        }
        other => panic!("expected the release, got {:?}", other),
    }
    // the release is followed by the full connection teardown
    assert!(matches!(oci.log[13].op, NativeOp::SessionEnd { .. }));
    assert!(matches!(oci.log[19].op, NativeOp::HandleFree { handle: 0, htype: 1 }));
}

#[test]
fn failing_prepare_tears_the_connection_down() {
    let mut oci = Oci::with_script(vec![0, 0, 0, 0, 0, 0, 0, 0, 0, 0, 0, 100]);
    let conn = Connection::new(
        &mut oci,
        "scott".to_string(),
        "tiger".to_string(),
        "oracle".to_string(),
    )
    .unwrap();
    let r = conn.new_statement(&mut oci, "SELECT 1 FROM DUAL".to_string());
    let e = r.err().unwrap();
    assert_eq!(e.kind, ErrorKind::NoData);
    // the failed prepare, then the seven-call connection teardown
    assert_eq!(oci.log.len(), 19);
    assert!(matches!(oci.log[11].op, NativeOp::StmtPrepare2 { .. }));
    assert!(matches!(oci.log[12].op, NativeOp::SessionEnd { .. }));
    assert!(matches!(oci.log[18].op, NativeOp::HandleFree { handle: 0, htype: 1 }));
}

#[test]
fn failing_execute_releases_statement_then_tears_down() {
    let mut oci = Oci::with_script(vec![0, 0, 0, 0, 0, 0, 0, 0, 0, 0, 0, 0, -3123]);
    let conn = Connection::new(
        &mut oci,
        "scott".to_string(),
        "tiger".to_string(),
        "oracle".to_string(),
    )
    .unwrap();
    let stmt = conn
        .new_statement(&mut oci, "SELECT 1 FROM DUAL".to_string())
        .unwrap();
    let r = stmt.execute(&mut oci);
    let e = r.err().unwrap();
    assert_eq!(e.kind, ErrorKind::StillExecuting);
    assert_eq!(e.code, -3123);
    // the failed execute, the release, then the connection teardown
    assert_eq!(oci.log.len(), 21);
    assert!(matches!(oci.log[12].op, NativeOp::StmtExecute { .. }));
    assert!(matches!(oci.log[13].op, NativeOp::StmtRelease { stmt: 11, .. }));
    assert!(matches!(oci.log[14].op, NativeOp::SessionEnd { .. }));
    assert!(matches!(oci.log[20].op, NativeOp::HandleFree { handle: 0, htype: 1 }));
}
