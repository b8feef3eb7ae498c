//! The closed set of error kinds and the error value every operation returns.

use vstd::prelude::*;
use vstd::string::*;

verus! {

/// The kind of a failure.
#[derive(Clone, Copy, Debug, PartialEq, Eq, Structural)]
pub enum SshErrorCode {
    AuthFailed,
    UnsupportedProtocol,
    BadRequest,
    NotReady,
    SessionConflict,
    ConnectFailed,
    DnsFailed,
    Timeout,
    HostkeyChanged,
    HostkeyUnknown,
    HostkeyRejected,
    QuotaExceeded,
    RateLimited,
    InternalError,
    InvalidState,
}

impl SshErrorCode {
    /// The stable upper-case name of the kind.
    pub open spec fn name(self) -> Seq<char> {
        match self {
            SshErrorCode::AuthFailed => "AUTH_FAILED"@,
            SshErrorCode::UnsupportedProtocol => "UNSUPPORTED_PROTOCOL"@,
            SshErrorCode::BadRequest => "BAD_REQUEST"@,
            SshErrorCode::NotReady => "NOT_READY"@,
            SshErrorCode::SessionConflict => "SESSION_CONFLICT"@,
            SshErrorCode::ConnectFailed => "CONNECT_FAILED"@,
            SshErrorCode::DnsFailed => "DNS_FAILED"@,
            SshErrorCode::Timeout => "TIMEOUT"@,
            SshErrorCode::HostkeyChanged => "HOSTKEY_CHANGED"@,
            SshErrorCode::HostkeyUnknown => "HOSTKEY_UNKNOWN"@,
            SshErrorCode::HostkeyRejected => "HOSTKEY_REJECTED"@,
            SshErrorCode::QuotaExceeded => "QUOTA_EXCEEDED"@,
            SshErrorCode::RateLimited => "RATE_LIMITED"@,
            SshErrorCode::InternalError => "INTERNAL_ERROR"@,
            SshErrorCode::InvalidState => "INVALID_STATE"@,
        }
    }

    /// Whether a failure of this kind is, by default, worth retrying unchanged.
    pub open spec fn transient(self) -> bool {
        match self {
            SshErrorCode::NotReady
            | SshErrorCode::ConnectFailed
            | SshErrorCode::DnsFailed
            | SshErrorCode::Timeout
            | SshErrorCode::QuotaExceeded
            | SshErrorCode::RateLimited => true,
            _ => false,
        }
    }

    /// The stable upper-case name of the kind.
    pub fn as_str(&self) -> (s: &'static str)
        ensures
            s@ == self.name(),
    {
        match self {
            SshErrorCode::AuthFailed => "AUTH_FAILED",
            SshErrorCode::UnsupportedProtocol => "UNSUPPORTED_PROTOCOL",
            SshErrorCode::BadRequest => "BAD_REQUEST",
            SshErrorCode::NotReady => "NOT_READY",
            SshErrorCode::SessionConflict => "SESSION_CONFLICT",
            SshErrorCode::ConnectFailed => "CONNECT_FAILED",
            SshErrorCode::DnsFailed => "DNS_FAILED",
            SshErrorCode::Timeout => "TIMEOUT",
            SshErrorCode::HostkeyChanged => "HOSTKEY_CHANGED",
            SshErrorCode::HostkeyUnknown => "HOSTKEY_UNKNOWN",
            SshErrorCode::HostkeyRejected => "HOSTKEY_REJECTED",
            SshErrorCode::QuotaExceeded => "QUOTA_EXCEEDED",
            SshErrorCode::RateLimited => "RATE_LIMITED",
            SshErrorCode::InternalError => "INTERNAL_ERROR",
            SshErrorCode::InvalidState => "INVALID_STATE",
        }
    }

    /// The default retry tag of the kind.
    pub fn is_transient(&self) -> (b: bool)
        ensures
            b == self.transient(),
    {
        match self {
            SshErrorCode::NotReady
            | SshErrorCode::ConnectFailed
            | SshErrorCode::DnsFailed
            | SshErrorCode::Timeout
            | SshErrorCode::QuotaExceeded
            | SshErrorCode::RateLimited => true,
            _ => false,
        }
    }

    /// The name of the kind as an owned string.
    pub fn to_string(&self) -> (s: String)
        ensures
            s@ == self.name(),
    {
        self.as_str().to_owned()
    }
}

/// What an `SshError` is, as a mathematical value.
pub struct ErrorView {
    pub code: SshErrorCode,
    pub message: Seq<char>,
    pub retryable: bool,
}

/// A failure: its kind, a message for people, and whether the same call may
/// be tried again.
#[derive(Clone, Debug, PartialEq, Eq)]
pub struct SshError {
    pub code: SshErrorCode,
    pub message: String,
    pub retryable: bool,
}

impl View for SshError {
    type V = ErrorView;

    open spec fn view(&self) -> ErrorView {
        ErrorView { code: self.code, message: self.message@, retryable: self.retryable }
    }
}

/// The step of transport work that a front end reports as failed.
#[derive(Clone, Copy, Debug, PartialEq, Eq, Structural)]
pub enum TransportStep {
    Connect,
    Authenticate,
    OpenChannel,
    RequestPty,
    RequestShell,
    WindowChange,
    SendData,
}

impl SshError {
    /// An error with exactly the given parts.
    pub fn new(code: SshErrorCode, message: String, retryable: bool) -> (e: Self)
        ensures
            e@ == (ErrorView { code, message: message@, retryable }),
    {
        SshError { code, message, retryable }
    }

    /// The error of an operation that needs a ready session.
    pub open spec fn not_ready_view() -> ErrorView {
        ErrorView {
            code: SshErrorCode::NotReady,
            message: "Operation requires READY state"@,
            retryable: true,
        }
    }

    /// The error of an operation that the state of the session forbids.
    pub open spec fn invalid_state_view() -> ErrorView {
        ErrorView {
            code: SshErrorCode::InvalidState,
            message: "Invalid state"@,
            retryable: false,
        }
    }

    /// The error of the operation `op`, which is not offered.
    pub open spec fn not_implemented_view(op: Seq<char>) -> ErrorView {
        ErrorView {
            code: SshErrorCode::InternalError,
            message: "Not implemented: "@ + op,
            retryable: false,
        }
    }

    /// The error for a step of transport work that failed. Such a failure
    /// may pass, so the error is retryable whatever its kind.
    pub open spec fn transport_failure_view(step: TransportStep, detail: Seq<char>) -> ErrorView {
        match step {
            TransportStep::Connect => ErrorView {
                code: SshErrorCode::ConnectFailed,
                message: "russh connect failed: "@ + detail,
                retryable: true,
            },
            TransportStep::Authenticate => ErrorView {
                code: SshErrorCode::AuthFailed,
                message: "auth_password failed: "@ + detail,
                retryable: true,
            },
            TransportStep::OpenChannel => ErrorView {
                code: SshErrorCode::InternalError,
                message: "channel_open_session failed: "@ + detail,
                retryable: true,
            },
            TransportStep::RequestPty => ErrorView {
                code: SshErrorCode::InternalError,
                message: "request_pty failed: "@ + detail,
                retryable: true,
            },
            TransportStep::RequestShell => ErrorView {
                code: SshErrorCode::InternalError,
                message: "request_shell failed: "@ + detail,
                retryable: true,
            },
            TransportStep::WindowChange => ErrorView {
                code: SshErrorCode::InternalError,
                message: "window_change failed: "@ + detail,
                retryable: true,
            },
            TransportStep::SendData => ErrorView {
                code: SshErrorCode::InternalError,
                message: "Send failed"@,
                retryable: true,
            },
        }
    }

    /// The error of an operation that needs a ready session. It is
    /// retryable: the session may yet become ready.
    pub fn not_ready() -> (e: Self)
        ensures
            e@ == Self::not_ready_view(),
    {
        SshError::new(SshErrorCode::NotReady, "Operation requires READY state".to_owned(), true)
    }

    /// The error of the operation `op`, which is not offered.
    pub fn not_implemented(op: &'static str) -> (e: Self)
        ensures
            e@ == Self::not_implemented_view(op@),
    {
        SshError::new(
            SshErrorCode::InternalError,
            "Not implemented: ".to_owned().concat(op),
            false,
        )
    }

    /// The error of an operation that the state of the session forbids.
    pub fn invalid_state() -> (e: Self)
        ensures
            e@ == Self::invalid_state_view(),
    {
        SshError::new(SshErrorCode::InvalidState, "Invalid state".to_owned(), false)
    }

    /// The error for a step of transport work that failed, with what the
    /// transport said of it.
    pub fn transport_failure(step: TransportStep, detail: &str) -> (e: Self)
        ensures
            e@ == Self::transport_failure_view(step, detail@),
    {
        match step {
            TransportStep::Connect => SshError::new(
                SshErrorCode::ConnectFailed,
                "russh connect failed: ".to_owned().concat(detail),
                true,
            ),
            TransportStep::Authenticate => SshError::new(
                SshErrorCode::AuthFailed,
                "auth_password failed: ".to_owned().concat(detail),
                true,
            ),
            TransportStep::OpenChannel => SshError::new(
                SshErrorCode::InternalError,
                "channel_open_session failed: ".to_owned().concat(detail),
                true,
            ),
            TransportStep::RequestPty => SshError::new(
                SshErrorCode::InternalError,
                "request_pty failed: ".to_owned().concat(detail),
                true,
            ),
            TransportStep::RequestShell => SshError::new(
                SshErrorCode::InternalError,
                "request_shell failed: ".to_owned().concat(detail),
                true,
            ),
            TransportStep::WindowChange => SshError::new(
                SshErrorCode::InternalError,
                "window_change failed: ".to_owned().concat(detail),
                true,
            ),
            TransportStep::SendData => SshError::new(
                SshErrorCode::InternalError,
                "Send failed".to_owned(),
                true,
            ),
        }
    }

    /// The text `<NAME>: <message>`.
    pub fn to_string(&self) -> (s: String)
        ensures
            s@ == self.code.name() + ": "@ + self.message@,
    {
        self.code.as_str().to_owned().concat(": ").concat(self.message.as_str())
    }
}

} // verus!
