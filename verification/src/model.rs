//! The session as a mathematical value, and what each operation makes of it.
//!
//! The executable session states its contracts over these functions, and the
//! laws of the library are proved of them.

use vstd::prelude::*;

use crate::error::{ErrorView, SshError, SshErrorCode, TransportStep};
use crate::event::{EventView, HostKeyReason, PromptView};
use crate::hostkey::{rejection_view, verdict_of, HostKeyDecision, HostKeyPolicy, HostKeyVerdict};
use crate::state::{legal_edge, SshState};

verus! {

/// What a session is, as a mathematical value.
pub struct SessionView {
    /// Where the session is in its life.
    pub state: SshState,
    /// The host key that waits for a decision, if one does.
    pub pending: Option<PromptView>,
    /// The fingerprint the server showed, once it has shown one.
    pub fingerprint: Option<Seq<char>>,
    /// The user the connection was made for.
    pub username: Option<Seq<char>>,
    /// Whether the session holds a transport connection.
    pub transport_open: bool,
    /// Whether the session holds an interactive channel.
    pub channel_open: bool,
    /// Every event the session has published, oldest first.
    pub published: Seq<EventView>,
}

/// What the transport reported of one connection attempt.
pub enum ConnectReport {
    /// The deadline passed before the transport connected.
    ConnectTimedOut,
    /// The transport could not connect; `detail` says why.
    ConnectFailed { detail: Seq<char> },
    /// The transport connected, and the deadline passed before the server's
    /// fingerprint came.
    FingerprintTimedOut,
    /// The transport connected and gave up the handoff without a
    /// fingerprint.
    FingerprintMissing,
    /// The transport connected and the server showed this fingerprint.
    Established { fingerprint: Seq<char> },
}

/// The error of an operation that needs a verification that is under way
/// and finds no host key recorded.
pub open spec fn missing_pending_view() -> ErrorView {
    ErrorView {
        code: SshErrorCode::InternalError,
        message: "Missing pending host key"@,
        retryable: false,
    }
}

/// The error of an operation that needs the user's name and finds none.
pub open spec fn missing_username_view() -> ErrorView {
    ErrorView { code: SshErrorCode::InternalError, message: "Missing username"@, retryable: false }
}

/// The error of an operation that needs the transport and finds none.
pub open spec fn missing_handle_view() -> ErrorView {
    ErrorView { code: SshErrorCode::InternalError, message: "Missing handle"@, retryable: false }
}

/// The error of a channel operation on a ready session without a channel.
pub open spec fn pty_not_open_view() -> ErrorView {
    ErrorView { code: SshErrorCode::NotReady, message: "PTY not open"@, retryable: true }
}

/// The error of a connection attempt that ran out of time.
pub open spec fn connect_timeout_view() -> ErrorView {
    ErrorView { code: SshErrorCode::Timeout, message: "Connect timeout"@, retryable: true }
}

/// The error of a connection whose server never showed a fingerprint.
pub open spec fn missing_host_key_view() -> ErrorView {
    ErrorView {
        code: SshErrorCode::InternalError,
        message: "Missing server host key"@,
        retryable: false,
    }
}

/// The error of a password the server did not accept.
pub open spec fn auth_rejected_view() -> ErrorView {
    ErrorView {
        code: SshErrorCode::AuthFailed,
        message: "Authentication failed"@,
        retryable: false,
    }
}

/// What the transport's answer to a password authentication means.
pub open spec fn auth_reply_view(reply: Result<bool, String>) -> Result<(), ErrorView> {
    match reply {
        Ok(accepted) => if accepted {
            Ok(())
        } else {
            Err(auth_rejected_view())
        },
        Err(detail) => Err(SshError::transport_failure_view(TransportStep::Authenticate, detail@)),
    }
}

/// A result with its error taken as a mathematical value.
pub open spec fn result_view<T>(r: Result<T, SshError>) -> Result<T, ErrorView> {
    match r {
        Ok(v) => Ok(v),
        Err(e) => Err(e@),
    }
}

impl SessionView {
    /// A session that has done nothing yet.
    pub open spec fn fresh() -> SessionView {
        SessionView {
            state: SshState::Init,
            pending: None,
            fingerprint: None,
            username: None,
            transport_open: false,
            channel_open: false,
            published: Seq::empty(),
        }
    }

    /// Whether the session holds nothing: no transport, no channel, no
    /// fingerprint, no user name and no host key that waits.
    pub open spec fn holds_nothing(self) -> bool {
        &&& self.pending is None
        &&& self.fingerprint is None
        &&& self.username is None
        &&& !self.transport_open
        &&& !self.channel_open
    }

    /// The resource rules of a session. A host key waits only while
    /// verification is under way; a channel is held only by a ready session
    /// that holds a transport; a closed session holds nothing.
    pub open spec fn consistent(self) -> bool {
        &&& self.pending is Some ==> self.state.verifying()
        &&& self.channel_open ==> self.state == SshState::Ready && self.transport_open
        &&& self.state == SshState::Closed ==> self.holds_nothing()
    }

    /// The session with one more published event.
    pub open spec fn publishing(self, event: EventView) -> SessionView {
        SessionView { published: self.published.push(event), ..self }
    }

    /// The session after a committed move to `to`: nothing at all where it
    /// is there already, else the new state and its status event.
    pub open spec fn moved_to(self, to: SshState) -> SessionView {
        if to == self.state {
            self
        } else {
            SessionView { state: to, ..self }.publishing(EventView::Status { state: to })
        }
    }

    /// The session after `transition(to)`: moved where the edge is legal,
    /// untouched where it is not.
    pub open spec fn after_transition(self, to: SshState) -> SessionView {
        if legal_edge(self.state, to) {
            self.moved_to(to)
        } else {
            self
        }
    }

    /// The session after a teardown. One that is not closed yet passes
    /// through `Closing` to `Closed`; in every case it ends holding nothing.
    pub open spec fn torn_down(self) -> SessionView {
        let closed = if self.state == SshState::Closed {
            self
        } else {
            self.moved_to(SshState::Closing).moved_to(SshState::Closed)
        };
        SessionView {
            pending: None,
            fingerprint: None,
            username: None,
            transport_open: false,
            channel_open: false,
            ..closed
        }
    }

    /// The session with its host key settled and the move to `Ready` made.
    pub open spec fn trusted(self) -> SessionView {
        SessionView { pending: None, ..self }.moved_to(SshState::Ready)
    }

    /// The session after it asked the caller to decide on `prompt`.
    pub open spec fn prompting(self, prompt: PromptView) -> SessionView {
        SessionView { pending: Some(prompt), ..self }.moved_to(SshState::HostKeyPrompt).publishing(
            EventView::HostKeyPrompt { fingerprint: prompt.fingerprint, reason: prompt.reason },
        )
    }

    /// Whether host-key verification can run: the state admits it and a
    /// server fingerprint is recorded.
    pub open spec fn can_verify(self) -> bool {
        self.state.verifying() && self.pending is Some
    }

    /// The verdict of the trust rules on the recorded server fingerprint.
    pub open spec fn verdict(self, policy: HostKeyPolicy, known: Option<Seq<char>>) -> HostKeyVerdict
        recommends
            self.pending is Some,
    {
        verdict_of(policy, self.pending->0.fingerprint, known)
    }

    /// What `verify_host_key` returns.
    pub open spec fn verify_result(
        self,
        policy: HostKeyPolicy,
        known: Option<Seq<char>>,
    ) -> Result<HostKeyDecision, ErrorView> {
        if !self.state.verifying() {
            Err(SshError::invalid_state_view())
        } else if self.pending is None {
            Err(missing_pending_view())
        } else {
            match self.verdict(policy, known) {
                HostKeyVerdict::Match => Ok(HostKeyDecision::Unchanged),
                HostKeyVerdict::TrustNew => Ok(HostKeyDecision::Accepted),
                HostKeyVerdict::Prompt(_) => Ok(HostKeyDecision::Unchanged),
                HostKeyVerdict::Reject(reason) => Err(rejection_view(policy, reason)),
            }
        }
    }

    /// The session after `verify_host_key`.
    pub open spec fn after_verify(
        self,
        policy: HostKeyPolicy,
        known: Option<Seq<char>>,
    ) -> SessionView {
        if !self.can_verify() {
            self
        } else {
            match self.verdict(policy, known) {
                HostKeyVerdict::Match => self.trusted(),
                HostKeyVerdict::TrustNew => self.trusted(),
                HostKeyVerdict::Prompt(reason) => self.prompting(
                    PromptView { fingerprint: self.pending->0.fingerprint, reason },
                ),
                HostKeyVerdict::Reject(_) => self.torn_down(),
            }
        }
    }

    /// The session after `host_key_accept`.
    pub open spec fn after_accept(self) -> SessionView {
        if self.state == SshState::HostKeyPrompt {
            self.trusted()
        } else {
            self
        }
    }

    /// The session after `host_key_reject`.
    pub open spec fn after_reject(self) -> SessionView {
        if self.state == SshState::HostKeyPrompt {
            self.torn_down()
        } else {
            self
        }
    }

    /// What an operation that needs a prompt in progress returns.
    pub open spec fn prompt_result(self) -> Result<(), ErrorView> {
        if self.state == SshState::HostKeyPrompt {
            Ok(())
        } else {
            Err(SshError::invalid_state_view())
        }
    }

    /// What stands in the way of authenticating or opening a channel, if
    /// anything does: the session must be ready, with no host key waiting
    /// and with a transport.
    pub open spec fn session_use_error(self) -> Option<ErrorView> {
        if self.state != SshState::Ready {
            Some(SshError::invalid_state_view())
        } else if self.pending is Some {
            Some(SshError::invalid_state_view())
        } else if !self.transport_open {
            Some(missing_handle_view())
        } else {
            None
        }
    }

    /// What stands in the way of a password authentication, if anything.
    pub open spec fn auth_error(self) -> Option<ErrorView> {
        if self.state != SshState::Ready {
            Some(SshError::invalid_state_view())
        } else if self.pending is Some {
            Some(SshError::invalid_state_view())
        } else if self.username is None {
            Some(missing_username_view())
        } else if !self.transport_open {
            Some(missing_handle_view())
        } else {
            None
        }
    }

    /// What stands in the way of a window change, if anything.
    pub open spec fn resize_error(self) -> Option<ErrorView> {
        if self.state != SshState::Ready {
            Some(SshError::not_ready_view())
        } else if !self.channel_open {
            Some(pty_not_open_view())
        } else {
            None
        }
    }

    /// What stands in the way of writing to the remote process, if anything.
    pub open spec fn write_error(self) -> Option<ErrorView> {
        if self.state != SshState::Ready {
            Some(SshError::not_ready_view())
        } else if !self.transport_open {
            Some(SshError::not_ready_view())
        } else if !self.channel_open {
            Some(pty_not_open_view())
        } else {
            None
        }
    }

    /// The session after a channel was opened for it.
    pub open spec fn after_channel_opened(self) -> SessionView {
        if self.session_use_error() is None {
            SessionView { channel_open: true, ..self }
        } else {
            self
        }
    }

    /// The error a connection attempt ends with, if it ends with one.
    pub open spec fn connect_error(self, report: ConnectReport) -> Option<ErrorView> {
        if !legal_edge(self.state, SshState::Connecting) {
            Some(SshError::invalid_state_view())
        } else {
            match report {
                ConnectReport::ConnectTimedOut => Some(connect_timeout_view()),
                ConnectReport::ConnectFailed { detail } => Some(
                    SshError::transport_failure_view(TransportStep::Connect, detail),
                ),
                ConnectReport::FingerprintTimedOut => Some(connect_timeout_view()),
                ConnectReport::FingerprintMissing => Some(missing_host_key_view()),
                ConnectReport::Established { .. } => None,
            }
        }
    }

    /// The session a successful connection attempt leaves: in `Connecting`,
    /// holding the transport, with the user's name and the server's
    /// fingerprint, which waits for a decision as a new key.
    pub open spec fn established(self, user: Seq<char>, fingerprint: Seq<char>) -> SessionView {
        SessionView {
            pending: Some(PromptView { fingerprint, reason: HostKeyReason::New }),
            fingerprint: Some(fingerprint),
            username: Some(user),
            transport_open: true,
            ..self.moved_to(SshState::Connecting)
        }
    }

    /// What a new subscriber is shown first: the current status, and after
    /// it the prompt that is outstanding, if the session is prompting.
    pub open spec fn snapshot(self) -> Seq<EventView> {
        if self.state == SshState::HostKeyPrompt && self.pending is Some {
            seq![
                EventView::Status { state: self.state },
                EventView::HostKeyPrompt {
                    fingerprint: self.pending->0.fingerprint,
                    reason: self.pending->0.reason,
                },
            ]
        } else {
            seq![EventView::Status { state: self.state }]
        }
    }
}

} // verus!
