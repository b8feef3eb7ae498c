use ssh_core::{SshError, SshErrorCode, TransportStep};

const ALL_CODES: [SshErrorCode; 15] = [
    SshErrorCode::AuthFailed,
    SshErrorCode::UnsupportedProtocol,
    SshErrorCode::BadRequest,
    SshErrorCode::NotReady,
    SshErrorCode::SessionConflict,
    SshErrorCode::ConnectFailed,
    SshErrorCode::DnsFailed,
    SshErrorCode::Timeout,
    SshErrorCode::HostkeyChanged,
    SshErrorCode::HostkeyUnknown,
    SshErrorCode::HostkeyRejected,
    SshErrorCode::QuotaExceeded,
    SshErrorCode::RateLimited,
    SshErrorCode::InternalError,
    SshErrorCode::InvalidState,
];

#[test]
fn every_code_has_its_name() {
    let names = [
        "AUTH_FAILED",
        "UNSUPPORTED_PROTOCOL",
        "BAD_REQUEST",
        "NOT_READY",
        "SESSION_CONFLICT",
        "CONNECT_FAILED",
        "DNS_FAILED",
        "TIMEOUT",
        "HOSTKEY_CHANGED",
        "HOSTKEY_UNKNOWN",
        "HOSTKEY_REJECTED",
        "QUOTA_EXCEEDED",
        "RATE_LIMITED",
        "INTERNAL_ERROR",
        "INVALID_STATE",
    ];
    for (code, name) in ALL_CODES.iter().zip(names.iter()) {
        assert_eq!(code.as_str(), *name);
        assert_eq!(code.to_string(), name.to_string());
    }
}

#[test]
fn every_code_has_its_default_retry_tag() {
    let transient = [
        false, false, false, true, false, true, true, true, false, false, false, true, true,
        false, false,
    ];
    for (code, expected) in ALL_CODES.iter().zip(transient.iter()) {
        assert_eq!(code.is_transient(), *expected, "{}", code.as_str());
    }
}

#[test]
fn new_keeps_its_parts() {
    let e = SshError::new(SshErrorCode::BadRequest, "no such thing".to_string(), true);
    assert_eq!(e.code, SshErrorCode::BadRequest);
    assert_eq!(e.message, "no such thing");
    assert!(e.retryable);
    let e = SshError::new(SshErrorCode::Timeout, String::new(), false);
    assert_eq!(e.code, SshErrorCode::Timeout);
    assert_eq!(e.message, "");
    assert!(!e.retryable);
}

#[test]
fn not_ready_is_retryable() {
    let e = SshError::not_ready();
    assert_eq!(e.code, SshErrorCode::NotReady);
    assert_eq!(e.message, "Operation requires READY state");
    assert!(e.retryable);
}

#[test]
fn invalid_state_is_final() {
    let e = SshError::invalid_state();
    assert_eq!(e.code, SshErrorCode::InvalidState);
    assert_eq!(e.message, "Invalid state");
    assert!(!e.retryable);
}

#[test]
fn not_implemented_names_the_operation() {
    let e = SshError::not_implemented("auth_key");
    assert_eq!(e.code, SshErrorCode::InternalError);
    assert_eq!(e.message, "Not implemented: auth_key");
    assert!(!e.retryable);
    assert_eq!(SshError::not_implemented("").message, "Not implemented: ");
}

#[test]
fn error_text_is_name_then_message() {
    assert_eq!(SshError::not_ready().to_string(), "NOT_READY: Operation requires READY state");
    assert_eq!(SshError::invalid_state().to_string(), "INVALID_STATE: Invalid state");
    let e = SshError::new(SshErrorCode::DnsFailed, String::new(), true);
    assert_eq!(e.to_string(), "DNS_FAILED: ");
}

#[test]
fn transport_failures_are_retryable_and_say_what_failed() {
    let cases = [
        (TransportStep::Connect, SshErrorCode::ConnectFailed, "russh connect failed: boom"),
        (TransportStep::Authenticate, SshErrorCode::AuthFailed, "auth_password failed: boom"),
        (
            TransportStep::OpenChannel,
            SshErrorCode::InternalError,
            "channel_open_session failed: boom",
        ),
        (TransportStep::RequestPty, SshErrorCode::InternalError, "request_pty failed: boom"),
        (TransportStep::RequestShell, SshErrorCode::InternalError, "request_shell failed: boom"),
        (TransportStep::WindowChange, SshErrorCode::InternalError, "window_change failed: boom"),
        (TransportStep::SendData, SshErrorCode::InternalError, "Send failed"),
    ];
    for (step, code, message) in cases {
        let e = SshError::transport_failure(step, "boom");
        assert_eq!(e.code, code);
        assert_eq!(e.message, message);
        assert!(e.retryable);
    }
}

#[test]
fn errors_compare_by_their_parts() {
    assert_eq!(SshError::not_ready(), SshError::not_ready());
    assert_ne!(SshError::not_ready(), SshError::invalid_state());
    assert_eq!(SshError::invalid_state().clone(), SshError::invalid_state());
}
