//! Tests for the method registry: registration, lookup, dispatch, and
//! introspection.

use rrpc_core::error::{ErrorKind, RpcError};
use rrpc_core::handlers::{EchoHandler, FailHandler, ReverseHandler};
use rrpc_core::registry::Registry;

#[test]
fn test_register_and_call() {
    let mut registry: Registry<EchoHandler> = Registry::new();

    registry.register("echo".to_string(), EchoHandler);

    let result = registry.call("echo", b"test").unwrap();
    assert_eq!(result, b"test");
}

#[test]
fn test_unknown_method() {
    let registry: Registry<EchoHandler> = Registry::new();

    let result = registry.call("missing", b"test");
    assert!(matches!(result, Err(RpcError::UnknownMethod(_))));
}

#[test]
fn test_has_method() {
    let mut registry: Registry<EchoHandler> = Registry::new();

    registry.register("test".to_string(), EchoHandler);

    assert!(registry.has_method("test"));
    assert!(!registry.has_method("missing"));
}

#[test]
fn unknown_method_error_carries_the_name() {
    let registry: Registry<EchoHandler> = Registry::new();

    match registry.call("absent", b"") {
        Err(RpcError::UnknownMethod(name)) => assert_eq!(name, "absent"),
        _ => panic!("expected an unknown-method error"),
    }
}

#[test]
fn reverse_handler_reverses_bytes() {
    let mut registry: Registry<ReverseHandler> = Registry::new();

    registry.register("reverse".to_string(), ReverseHandler);

    let result = registry.call("reverse", b"abc").unwrap();
    assert_eq!(result, b"cba");
}

#[test]
fn reverse_handler_on_empty_input() {
    let mut registry: Registry<ReverseHandler> = Registry::new();

    registry.register("reverse".to_string(), ReverseHandler);

    let result = registry.call("reverse", b"").unwrap();
    assert_eq!(result, b"");
}

#[test]
fn register_replaces_previous_handler() {
    let mut registry: Registry<FailHandler> = Registry::new();

    registry.register(
        "job".to_string(),
        FailHandler { kind: ErrorKind::NotFound, context: "first".to_string() },
    );
    registry.register(
        "job".to_string(),
        FailHandler { kind: ErrorKind::Internal, context: "second".to_string() },
    );

    match registry.call("job", b"") {
        Err(RpcError::Internal(context)) => assert_eq!(context, "second"),
        _ => panic!("expected the replacement handler's error"),
    }
}

#[test]
fn call_relays_handler_error_unchanged() {
    let mut registry: Registry<FailHandler> = Registry::new();

    registry.register(
        "lookup".to_string(),
        FailHandler { kind: ErrorKind::NotFound, context: "user 7".to_string() },
    );

    match registry.call("lookup", b"payload") {
        Err(RpcError::NotFound(context)) => assert_eq!(context, "user 7"),
        _ => panic!("expected the handler's own error kind"),
    }
}

#[test]
fn methods_lists_each_registered_name_once() {
    let mut registry: Registry<EchoHandler> = Registry::new();

    registry.register("alpha".to_string(), EchoHandler);
    registry.register("beta".to_string(), EchoHandler);
    registry.register("alpha".to_string(), EchoHandler);

    let mut names = registry.methods();
    names.sort();
    assert_eq!(names, vec!["alpha".to_string(), "beta".to_string()]);
}

#[test]
fn default_registry_is_empty() {
    let registry: Registry<EchoHandler> = Registry::default();

    assert!(registry.methods().is_empty());
    assert!(!registry.has_method("anything"));
}
