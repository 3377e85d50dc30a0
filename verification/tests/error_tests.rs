use manzana::error::Error;
use manzana::error::Subsystem;

#[test]
fn test_error_messages_are_readable() {
    let err = Error::not_available(Subsystem::Afterburner);
    let msg = err.message();
    assert!(msg.contains("Afterburner"));
    assert!(msg.contains("not available"));
}

#[test]
fn test_iokit_error_includes_code() {
    let err = Error::iokit(-536_870_206, "service not found");
    let msg = err.message();
    assert!(msg.contains("-536870206"));
    assert!(msg.contains("service not found"));
}

#[test]
fn test_display_impl_not_generic() {
    let errors = vec![
        Error::not_available(Subsystem::Metal),
        Error::iokit(0, "test"),
        Error::metal("test"),
        Error::coreml("test"),
        Error::security(-1),
        Error::invalid_input("test"),
        Error::timeout(1000),
        Error::permission_denied("test"),
        Error::not_found("test"),
        Error::internal("test"),
    ];

    for err in errors {
        let msg = err.message();
        assert!(msg.len() > 10, "Message too short: {msg}");
        assert!(!msg.eq_ignore_ascii_case("error"), "Generic message: {msg}");
    }
}

#[test]
fn test_subsystem_display() {
    assert_eq!(Subsystem::Afterburner.name(), "Afterburner FPGA");
    assert_eq!(Subsystem::NeuralEngine.name(), "Neural Engine");
    assert_eq!(Subsystem::Metal.name(), "Metal GPU");
    assert_eq!(Subsystem::SecureEnclave.name(), "Secure Enclave");
    assert_eq!(Subsystem::UnifiedMemory.name(), "Unified Memory");
}

#[test]
fn test_error_constructors() {
    let _ = Error::not_available(Subsystem::Afterburner);
    let _ = Error::iokit(0, "msg");
    let _ = Error::metal("msg");
    let _ = Error::coreml("msg");
    let _ = Error::security(0);
    let _ = Error::invalid_input("msg");
    let _ = Error::timeout(100);
    let _ = Error::permission_denied("op");
    let _ = Error::not_found("res");
    let _ = Error::internal("details");
}

#[test]
fn test_error_predicates() {
    assert!(Error::not_available(Subsystem::Metal).is_not_available());
    assert!(!Error::timeout(100).is_not_available());

    assert!(Error::timeout(100).is_timeout());
    assert!(!Error::not_available(Subsystem::Metal).is_timeout());

    assert!(Error::permission_denied("op").is_permission_denied());
    assert!(!Error::timeout(100).is_permission_denied());
}

#[test]
fn test_error_code_extraction() {
    assert_eq!(Error::iokit(42, "test").error_code(), Some(42));
    assert_eq!(Error::security(-1).error_code(), Some(-1));
    assert_eq!(Error::metal("test").error_code(), None);
}

#[test]
fn test_error_equality() {
    let e1 = Error::not_available(Subsystem::Afterburner);
    let e2 = Error::not_available(Subsystem::Afterburner);
    let e3 = Error::not_available(Subsystem::Metal);

    assert_eq!(e1, e2);
    assert_ne!(e1, e3);
}

#[test]
fn test_error_clone() {
    let e1 = Error::iokit(42, "test message");
    let e2 = e1.clone();
    assert_eq!(e1, e2);
}

#[test]
fn test_error_debug() {
    let err = Error::not_available(Subsystem::Afterburner);
    let debug = format!("{err:?}");
    assert!(debug.contains("NotAvailable"));
    assert!(debug.contains("Afterburner"));
}

#[test]
fn test_error_message_per_variant() {
    assert_eq!(
        Error::not_available(Subsystem::NeuralEngine).message(),
        "hardware not available: Neural Engine"
    );
    assert_eq!(
        Error::iokit(7, "query failed").message(),
        "IOKit error (code 7): query failed"
    );
    assert_eq!(Error::metal("no device").message(), "Metal error: no device");
    assert_eq!(Error::coreml("bad model").message(), "CoreML error: bad model");
    assert_eq!(
        Error::security(-25300).message(),
        "Security framework error (code -25300)"
    );
    assert_eq!(Error::invalid_input("zero").message(), "invalid input: zero");
    assert_eq!(
        Error::timeout(1500).message(),
        "operation timed out after 1500ms"
    );
    assert_eq!(
        Error::permission_denied("sign").message(),
        "permission denied: sign"
    );
    assert_eq!(
        Error::not_found("the key").message(),
        "resource not found: the key"
    );
    assert_eq!(
        Error::internal("impossible").message(),
        "internal error: impossible"
    );
}
