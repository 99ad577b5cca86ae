//! Tests for the runtime lifecycle and the boundary call entry, mirroring
//! how a foreign caller drives them.

use rrpc_core::error::{
    ERR_NOT_INITIALIZED, ERR_PARSE_ERROR, ERR_SUCCESS, ERR_TOO_LARGE, ERR_UNKNOWN_METHOD,
};
use rrpc_core::handlers::EchoHandler;
use rrpc_core::runtime::{CallOutcome, MethodArg, Runtime};

fn status_of(outcome: CallOutcome) -> i32 {
    match outcome {
        CallOutcome::Fail(code) => code,
        CallOutcome::Output(_) => ERR_SUCCESS,
    }
}

#[test]
fn test_init() {
    let mut rt: Runtime<EchoHandler> = Runtime::new();
    let result = rt.initialize();
    assert_eq!(result, ERR_SUCCESS);
}

#[test]
fn test_registry() {
    let mut rt: Runtime<EchoHandler> = Runtime::new();
    rt.initialize();

    rt.register("test".to_string(), EchoHandler);

    let arg = MethodArg::Name("test".to_string());
    match rt.boundary_call(&arg, false, 5, b"hello", false) {
        CallOutcome::Output(result) => assert_eq!(result, b"hello"),
        CallOutcome::Fail(code) => panic!("unexpected status {}", code),
    }
}

#[test]
fn rrpc_call_null_method_returns_parse_error() {
    let mut rt: Runtime<EchoHandler> = Runtime::new();
    rt.initialize();

    let rc = status_of(rt.boundary_call(&MethodArg::Null, false, 0, b"", false));
    assert_eq!(rc, ERR_PARSE_ERROR);
}

#[test]
fn rrpc_call_oversized_input_returns_too_large() {
    let mut rt: Runtime<EchoHandler> = Runtime::new();
    rt.initialize();

    // construct a dummy buffer larger than the cap (10MB)
    let large_size = 10 * 1024 * 1024 + 1;
    let vec = vec![0u8; large_size];
    let arg = MethodArg::Name("test".to_string());
    let rc = status_of(rt.boundary_call(&arg, false, vec.len(), &vec, false));
    assert_eq!(rc, ERR_TOO_LARGE);
}

#[test]
fn rrpc_call_unknown_method_returns_unknown() {
    let mut rt: Runtime<EchoHandler> = Runtime::new();
    rt.initialize();

    let arg = MethodArg::Name("no_such_method".to_string());
    let rc = status_of(rt.boundary_call(&arg, false, 0, b"", false));
    assert_eq!(rc, ERR_UNKNOWN_METHOD);
}

#[test]
fn initialize_is_idempotent_and_keeps_registrations() {
    let mut rt: Runtime<EchoHandler> = Runtime::new();
    assert_eq!(rt.initialize(), ERR_SUCCESS);

    rt.register("early".to_string(), EchoHandler);
    assert_eq!(rt.initialize(), ERR_SUCCESS);

    rt.register("late".to_string(), EchoHandler);
    assert_eq!(rt.initialize(), ERR_SUCCESS);
    assert_eq!(rt.initialize(), ERR_SUCCESS);

    for name in ["early", "late"] {
        let arg = MethodArg::Name(name.to_string());
        match rt.boundary_call(&arg, false, 2, b"ok", false) {
            CallOutcome::Output(result) => assert_eq!(result, b"ok"),
            CallOutcome::Fail(code) => panic!("registration lost, status {}", code),
        }
    }
}

#[test]
fn registration_survives_only_after_initialize() {
    let mut rt: Runtime<EchoHandler> = Runtime::new();

    let arg = MethodArg::Name("echo".to_string());
    let rc = status_of(rt.boundary_call(&arg, false, 1, b"x", false));
    assert_eq!(rc, ERR_NOT_INITIALIZED);

    rt.initialize();
    rt.register("echo".to_string(), EchoHandler);
    let rc = status_of(rt.boundary_call(&arg, false, 1, b"x", false));
    assert_eq!(rc, ERR_SUCCESS);
}
