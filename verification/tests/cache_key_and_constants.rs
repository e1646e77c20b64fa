//! The statement cache key and the numeric constants of the native
//! call surface.

use rustoci::ffi::{
    oci_attr_get, oci_env_nls_create, oci_handle_alloc, oci_param_get, OCIAttribute, OCIAuthMode,
    OCICredentialsType, OCIEnv, OCIError, OCIHandleType, OCIMode, OCIStmt, NativeOp, Oci,
};
use rustoci::stmt::cache_key;

#[test]
fn cache_key_is_the_content_hash_in_hexadecimal() {
    assert_eq!(cache_key(""), "cbf29ce484222325");
    assert_eq!(cache_key("abc"), "e71fa2190541574b");
    assert_eq!(cache_key("SELECT 1 FROM DUAL"), "f6dd5c4aa88213cc");
}

#[test]
fn cache_key_is_deterministic_and_fixed_width() {
    let a = cache_key("SELECT sysdate FROM DUAL");
    let b = cache_key("SELECT sysdate FROM DUAL");
    assert_eq!(a, b);
    assert_eq!(a.len(), 16);
    let c = cache_key("SELECT sysdate FROM DUAl");
    assert_eq!(c.len(), 16);
    assert_ne!(a, c);
}

#[test]
fn handle_type_codes_match_the_native_surface() {
    assert_eq!(OCIHandleType::Environment.code(), 1);
    assert_eq!(OCIHandleType::Error.code(), 2);
    assert_eq!(OCIHandleType::Service.code(), 3);
    assert_eq!(OCIHandleType::Statement.code(), 4);
    assert_eq!(OCIHandleType::Bind.code(), 5);
    assert_eq!(OCIHandleType::Define.code(), 6);
    assert_eq!(OCIHandleType::Describe.code(), 7);
    assert_eq!(OCIHandleType::Server.code(), 8);
    assert_eq!(OCIHandleType::Session.code(), 9);
    assert_eq!(OCIHandleType::Transaction.code(), 10);
}

#[test]
fn attribute_codes_match_the_native_surface() {
    assert_eq!(OCIAttribute::Server.code(), 6);
    assert_eq!(OCIAttribute::Session.code(), 7);
    assert_eq!(OCIAttribute::Username.code(), 22);
    assert_eq!(OCIAttribute::Password.code(), 23);
}

#[test]
fn credential_and_auth_codes_match_the_native_surface() {
    assert_eq!(OCICredentialsType::Rdbms.code(), 1);
    assert_eq!(OCICredentialsType::External.code(), 2);
    assert_eq!(OCIAuthMode::Default.code(), 0);
    assert_eq!(OCIAuthMode::Migrate.code(), 1);
    assert_eq!(OCIAuthMode::Sysdba.code(), 2);
    assert_eq!(OCIAuthMode::Sysoper.code(), 4);
    assert_eq!(OCIAuthMode::PrelimAuth.code(), 8);
    assert_eq!(OCIAuthMode::StmtCache.code(), 0x40);
}

#[test]
fn mode_flags_match_the_native_surface() {
    assert_eq!(OCIMode::Default.code(), 0);
    assert_eq!(OCIMode::Threaded.code(), 1);
    assert_eq!(OCIMode::Object.code(), 2);
    assert_eq!(OCIMode::Events.code(), 4);
    assert_eq!(OCIMode::NoUcb.code(), 0x40);
    assert_eq!(OCIMode::NoMutex.code(), 0x80);
    assert_eq!(OCIMode::SuppressNLSValidation.code(), 0x00100000);
    assert_eq!(OCIMode::NcharLiteralReplaceOn.code(), 0x00400000);
    assert_eq!(OCIMode::NcharLiteralReplaceOff.code(), 0x00800000);
    assert_eq!(OCIMode::EnableNLSValidation.code(), 0x01000000);
}

#[test]
fn environment_create_records_its_mode() {
    let mut oci = Oci::new();
    let h = oci_env_nls_create(&mut oci, OCIMode::Threaded).unwrap();
    assert_eq!(h.raw, 0);
    assert!(matches!(oci.log[0].op, NativeOp::EnvNlsCreate { mode: 1, handle: 0 }));
}

#[test]
fn handle_alloc_hands_out_fresh_tokens() {
    let mut oci = Oci::new();
    let env = oci_env_nls_create(&mut oci, OCIMode::Default).unwrap();
    let a = oci_handle_alloc(&mut oci, &env, OCIHandleType::Server).unwrap();
    let b = oci_handle_alloc(&mut oci, &env, OCIHandleType::Session).unwrap();
    assert_eq!(a, 1);
    assert_eq!(b, 2);
    assert_ne!(a, b);
}

#[test]
fn param_get_returns_a_descriptor_token() {
    let mut oci = Oci::new();
    let stmt = OCIStmt { raw: 40 };
    let err = OCIError { raw: 41 };
    let d = oci_param_get(&mut oci, &stmt, &err, 1).unwrap();
    assert_eq!(d, 0);
    assert!(matches!(
        oci.log[0].op,
        NativeOp::ParamGet { stmt: 40, htype: 4, error: 41, position: 1, handle: 0 }
    ));
}

#[test]
fn attr_get_answers_the_recorded_size() {
    let mut oci = Oci::new();
    oci.attr_size = 12;
    let err = OCIError { raw: 9 };
    let (value, size) = oci_attr_get(&mut oci, 8, &err, OCIAttribute::Username).unwrap();
    assert_eq!(value, 0);
    assert_eq!(size, 12);
    assert!(matches!(
        oci.log[0].op,
        NativeOp::AttrGet { target: 8, dtype: 53, attr: 22, error: 9 }
    ));
}

#[test]
fn exhausted_script_answers_success() {
    let mut oci = Oci::with_script(vec![-2]);
    let r = oci_env_nls_create(&mut oci, OCIMode::Default);
    assert!(r.is_err());
    let h = oci_env_nls_create(&mut oci, OCIMode::Default).unwrap();
    assert_eq!(h.raw, 1);
    let unused = OCIEnv { raw: h.raw };
    assert_eq!(unused.raw, 1);
}
