//! The session: one logical connection, from the first attempt to connect
//! to teardown.
//!
//! A session decides and records; it does not talk to the network. The
//! front end that owns the transport asks the session before it acts and
//! reports back what the transport answered.

use std::collections::VecDeque;
use vstd::prelude::*;
use vstd::slice::slice_to_vec;
use vstd::string::*;

use crate::channel::{Pty, PtyRequest, WindowChange};
use crate::error::{SshError, SshErrorCode, TransportStep};
use crate::event::{EventView, HostKeyPromptEvent, HostKeyReason, SshEvent};
use crate::hostkey::{
    assess_host_key, known_fingerprint, rejection, HostKeyDecision, HostKeyPolicy, HostKeyVerdict,
    KnownHostEntry,
};
use crate::inbound::InboundEvents;
use crate::model::{auth_reply_view, result_view, ConnectReport, SessionView};
use crate::state::{legal_edge, SshState};
use crate::stream::{
    channel_send, channel_share, channel_subscribe, channel_with_capacity, EventStream,
};

verus! {

/// How many events the channel keeps for a subscriber that reads slowly.
pub const EVENT_BACKLOG: usize = 256;

/// The views of a sequence of events.
pub open spec fn event_views(events: Seq<SshEvent>) -> Seq<EventView> {
    events.map_values(|e: SshEvent| e@)
}

/// One logical connection.
pub struct SshSession {
    state: SshState,
    events_tx: tokio::sync::broadcast::Sender<SshEvent>,
    pending_host_key: Option<HostKeyPromptEvent>,
    server_fingerprint: Option<String>,
    transport_open: bool,
    channel_open: bool,
    username: Option<String>,
    published: Ghost<Seq<EventView>>,
}

impl View for SshSession {
    type V = SessionView;

    closed spec fn view(&self) -> SessionView {
        SessionView {
            state: self.state,
            pending: match self.pending_host_key {
                Some(p) => Some(p@),
                None => None,
            },
            fingerprint: match self.server_fingerprint {
                Some(f) => Some(f@),
                None => None,
            },
            username: match self.username {
                Some(u) => Some(u@),
                None => None,
            },
            transport_open: self.transport_open,
            channel_open: self.channel_open,
            published: self.published@,
        }
    }
}

impl SshSession {
    /// Whether the table has the edge from `from` to `to`.
    pub fn can_transition(from: SshState, to: SshState) -> (legal: bool)
        ensures
            legal == legal_edge(from, to),
    {
        if from == to {
            return true;
        }
        if from == SshState::Closed {
            return false;
        }
        match (from, to) {
            (SshState::Init, SshState::Connecting) => true,
            (SshState::Connecting, SshState::HostKeyPrompt) => true,
            (SshState::Connecting, SshState::Ready) => true,
            (SshState::HostKeyPrompt, SshState::Ready) => true,
            (SshState::Ready, SshState::Closing) => true,
            (SshState::Closing, SshState::Closed) => true,
            (_, SshState::Closing) => true,
            (_, SshState::Closed) => true,
            _ => false,
        }
    }

    /// A session in `Init` that holds nothing and has published nothing.
    pub fn new() -> (s: Self)
        ensures
            s@ == SessionView::fresh(),
    {
        SshSession {
            state: SshState::Init,
            events_tx: channel_with_capacity(EVENT_BACKLOG),
            pending_host_key: None,
            server_fingerprint: None,
            transport_open: false,
            channel_open: false,
            username: None,
            published: Ghost(Seq::empty()),
        }
    }

    /// Hands one event to the channel and records that it was published.
    fn publish(&mut self, event: SshEvent)
        ensures
            final(self)@ == old(self)@.publishing(event@),
    {
        let ghost seen = event@;
        channel_send(&self.events_tx, event);
        self.published = Ghost(self.published@.push(seen));
    }

    /// The state the session is in.
    pub fn state(&self) -> (state: SshState)
        ensures
            state == self@.state,
    {
        self.state
    }

    /// The fingerprint the server showed, if the session holds one.
    pub fn server_fingerprint(&self) -> (fingerprint: Option<String>)
        ensures
            fingerprint is Some <==> self@.fingerprint is Some,
            fingerprint is Some ==> fingerprint->0@ == self@.fingerprint->0,
    {
        match &self.server_fingerprint {
            Some(f) => Some(f.clone()),
            None => None,
        }
    }

    /// Moves the session to `new_state` if the table has the edge. A move
    /// to the state the session is in changes nothing and publishes
    /// nothing; any other legal move publishes the new status. An illegal
    /// move is refused and changes nothing.
    pub fn transition(&mut self, new_state: SshState) -> (r: Result<(), SshError>)
        ensures
            final(self)@ == old(self)@.after_transition(new_state),
            legal_edge(old(self)@.state, new_state) ==> r is Ok,
            !legal_edge(old(self)@.state, new_state) ==> result_view(r) == Err::<(), _>(
                SshError::invalid_state_view(),
            ),
    {
        if !Self::can_transition(self.state, new_state) {
            return Err(SshError::invalid_state());
        }
        if new_state == self.state {
            return Ok(());
        }
        self.state = new_state;
        self.publish(SshEvent::Status { state: new_state });
        Ok(())
    }

    /// Whether the session is in `Ready`.
    pub fn is_ready(&self) -> (ready: bool)
        ensures
            ready == (self@.state == SshState::Ready),
    {
        self.state == SshState::Ready
    }

    /// Whether the session holds a transport connection.
    pub fn transport_open(&self) -> (open: bool)
        ensures
            open == self@.transport_open,
    {
        self.transport_open
    }

    /// Whether the session holds an interactive channel.
    pub fn channel_open(&self) -> (open: bool)
        ensures
            open == self@.channel_open,
    {
        self.channel_open
    }

    /// The reason the host key waits for a decision, if one waits.
    pub fn pending_reason(&self) -> (reason: Option<HostKeyReason>)
        ensures
            reason is Some <==> self@.pending is Some,
            reason is Some ==> reason->0 == self@.pending->0.reason,
    {
        match &self.pending_host_key {
            Some(p) => Some(p.reason),
            None => None,
        }
    }

    /// Completes a connection attempt with what the transport reported.
    ///
    /// The session first moves to `Connecting`, which only a session in
    /// `Init` or `Connecting` can. A report of failure becomes its error and
    /// the session is given up. A report of success gives the session back:
    /// it holds the transport, the user's name and the server's fingerprint,
    /// and the fingerprint waits for a decision as a new key.
    pub fn connect(self, user: &str, outcome: ConnectOutcome) -> (r: Result<SshSession, SshError>)
        ensures
            match self@.connect_error(outcome@) {
                Some(e) => result_view(r) == Err::<SshSession, _>(e),
                None => r is Ok && r->Ok_0@ == self@.established(user@, outcome@->fingerprint),
            },
    {
        let mut session = self;
        match session.transition(SshState::Connecting) {
            Err(e) => {
                return Err(e);
            },
            Ok(()) => {},
        }
        match outcome {
            ConnectOutcome::ConnectTimedOut => Err(
                SshError::new(SshErrorCode::Timeout, "Connect timeout".to_owned(), true),
            ),
            ConnectOutcome::ConnectFailed { detail } => Err(
                SshError::transport_failure(TransportStep::Connect, detail.as_str()),
            ),
            ConnectOutcome::FingerprintTimedOut => Err(
                SshError::new(SshErrorCode::Timeout, "Connect timeout".to_owned(), true),
            ),
            ConnectOutcome::FingerprintMissing => Err(
                SshError::new(
                    SshErrorCode::InternalError,
                    "Missing server host key".to_owned(),
                    false,
                ),
            ),
            ConnectOutcome::Established { fingerprint } => {
                session.transport_open = true;
                session.username = Some(user.to_owned());
                session.server_fingerprint = Some(fingerprint.clone());
                session.pending_host_key = Some(
                    HostKeyPromptEvent { fingerprint, reason: HostKeyReason::New },
                );
                Ok(session)
            },
        }
    }

    /// What the trust rules say of the recorded server fingerprint, without
    /// acting on it; nothing where verification cannot run.
    pub fn host_key_verdict(&self, policy: HostKeyPolicy, known: &Option<KnownHostEntry>) -> (v:
        Option<HostKeyVerdict>)
        ensures
            self@.can_verify() ==> v == Some(self@.verdict(policy, known_fingerprint(*known))),
            !self@.can_verify() ==> v is None,
    {
        if self.state != SshState::Connecting && self.state != SshState::HostKeyPrompt {
            return None;
        }
        match &self.pending_host_key {
            Some(p) => Some(assess_host_key(policy, &p.fingerprint, known)),
            None => None,
        }
    }

    /// Decides on the server's host key.
    ///
    /// Outside of `Connecting` and `HostKeyPrompt` the call fails and
    /// changes nothing, and so it does where no fingerprint is recorded.
    /// Otherwise the trust rules decide. A matching or newly trusted key
    /// settles the matter and the session becomes `Ready`. A refused key
    /// tears the session down. Under `Ask` the session records the prompt,
    /// moves to `HostKeyPrompt`, publishes the prompt and returns at once.
    pub fn verify_host_key(&mut self, policy: HostKeyPolicy, known: Option<KnownHostEntry>) -> (r:
        Result<HostKeyDecision, SshError>)
        ensures
            final(self)@ == old(self)@.after_verify(policy, known_fingerprint(known)),
            result_view(r) == old(self)@.verify_result(policy, known_fingerprint(known)),
    {
        if self.state != SshState::Connecting && self.state != SshState::HostKeyPrompt {
            return Err(SshError::invalid_state());
        }
        let pending = match self.pending_host_key.take() {
            Some(p) => p,
            None => {
                return Err(
                    SshError::new(
                        SshErrorCode::InternalError,
                        "Missing pending host key".to_owned(),
                        false,
                    ),
                );
            },
        };
        let verdict = assess_host_key(policy, &pending.fingerprint, &known);
        match verdict {
            HostKeyVerdict::Match => {
                let _ = self.transition(SshState::Ready);
                Ok(HostKeyDecision::Unchanged)
            },
            HostKeyVerdict::TrustNew => {
                let _ = self.transition(SshState::Ready);
                Ok(HostKeyDecision::Accepted)
            },
            HostKeyVerdict::Prompt(reason) => {
                let shown = pending.fingerprint.clone();
                self.pending_host_key = Some(
                    HostKeyPromptEvent { fingerprint: pending.fingerprint, reason },
                );
                let _ = self.transition(SshState::HostKeyPrompt);
                self.publish(SshEvent::HostKeyPrompt { fingerprint: shown, reason });
                Ok(HostKeyDecision::Unchanged)
            },
            HostKeyVerdict::Reject(reason) => {
                let err = rejection(policy, reason);
                let _ = self.disconnect();
                Err(err)
            },
        }
    }

    /// The bytes to forward to the remote process's input, if the session
    /// may write now: it must be ready and hold a transport and a channel.
    pub fn write_stdin(&self, data: &[u8]) -> (r: Result<Vec<u8>, SshError>)
        ensures
            match self@.write_error() {
                Some(e) => result_view(r) == Err::<Vec<u8>, _>(e),
                None => r is Ok && r->Ok_0@ == data@,
            },
    {
        if !self.is_ready() {
            return Err(SshError::not_ready());
        }
        if !self.transport_open {
            return Err(SshError::not_ready());
        }
        if !self.channel_open {
            return Err(SshError::new(SshErrorCode::NotReady, "PTY not open".to_owned(), true));
        }
        Ok(slice_to_vec(data))
    }

    /// The user to authenticate as, if the session may authenticate now: it
    /// must be ready, with no host key waiting, and hold a user name and a
    /// transport.
    pub fn auth_password(&self) -> (r: Result<String, SshError>)
        ensures
            match self@.auth_error() {
                Some(e) => result_view(r) == Err::<String, _>(e),
                None => r is Ok && Some(r->Ok_0@) == self@.username,
            },
    {
        if self.state != SshState::Ready {
            return Err(SshError::invalid_state());
        }
        if self.pending_host_key.is_some() {
            return Err(SshError::invalid_state());
        }
        let username = match &self.username {
            Some(u) => u.clone(),
            None => {
                return Err(
                    SshError::new(
                        SshErrorCode::InternalError,
                        "Missing username".to_owned(),
                        false,
                    ),
                );
            },
        };
        if !self.transport_open {
            return Err(
                SshError::new(SshErrorCode::InternalError, "Missing handle".to_owned(), false),
            );
        }
        Ok(username)
    }

    /// What the transport's answer to a password authentication means: an
    /// accepted password is success, a refused one is a failure that will
    /// not pass, and a transport failure is one that may.
    pub fn auth_password_reply(reply: Result<bool, String>) -> (r: Result<(), SshError>)
        ensures
            result_view(r) == auth_reply_view(reply),
    {
        match reply {
            Ok(true) => Ok(()),
            Ok(false) => Err(
                SshError::new(SshErrorCode::AuthFailed, "Authentication failed".to_owned(), false),
            ),
            Err(detail) => Err(
                SshError::transport_failure(TransportStep::Authenticate, detail.as_str()),
            ),
        }
    }

    /// Authentication with a private key is not offered: the call always
    /// fails, and a retry will not help.
    pub fn auth_key(&self) -> (r: Result<(), SshError>)
        ensures
            result_view(r) == Err::<(), _>(SshError::not_implemented_view("auth_key"@)),
    {
        Err(SshError::not_implemented("auth_key"))
    }

    /// Accepts the host key that waits. Valid only in `HostKeyPrompt`.
    pub fn host_key_accept(&mut self) -> (r: Result<(), SshError>)
        ensures
            final(self)@ == old(self)@.after_accept(),
            result_view(r) == old(self)@.prompt_result(),
    {
        if self.state != SshState::HostKeyPrompt {
            return Err(SshError::invalid_state());
        }
        self.pending_host_key = None;
        let _ = self.transition(SshState::Ready);
        Ok(())
    }

    /// Refuses the host key that waits, which tears the session down. Valid
    /// only in `HostKeyPrompt`.
    pub fn host_key_reject(&mut self) -> (r: Result<(), SshError>)
        ensures
            final(self)@ == old(self)@.after_reject(),
            result_view(r) == old(self)@.prompt_result(),
    {
        if self.state != SshState::HostKeyPrompt {
            return Err(SshError::invalid_state());
        }
        self.disconnect()
    }

    /// The requests that open the interactive channel for `pty`, if the
    /// session may open one now: it must be ready, with no host key waiting,
    /// and hold a transport.
    pub fn open_pty(&self, pty: Pty) -> (r: Result<PtyRequest, SshError>)
        ensures
            match self@.session_use_error() {
                Some(e) => result_view(r) == Err::<PtyRequest, _>(e),
                None => r is Ok && pty.asked_by(r->Ok_0),
            },
    {
        match self.check_session_use() {
            Err(e) => Err(e),
            Ok(()) => Ok(pty.request()),
        }
    }

    /// Records that the transport opened the interactive channel. The
    /// session takes the channel only where `open_pty` would allow one.
    pub fn channel_opened(&mut self) -> (r: Result<(), SshError>)
        ensures
            final(self)@ == old(self)@.after_channel_opened(),
            match old(self)@.session_use_error() {
                Some(e) => result_view(r) == Err::<(), _>(e),
                None => r is Ok,
            },
    {
        match self.check_session_use() {
            Err(e) => Err(e),
            Ok(()) => {
                self.channel_open = true;
                Ok(())
            },
        }
    }

    /// Fails unless the session is ready, with no host key waiting, and
    /// holds a transport.
    fn check_session_use(&self) -> (r: Result<(), SshError>)
        ensures
            match self@.session_use_error() {
                Some(e) => result_view(r) == Err::<(), _>(e),
                None => r is Ok,
            },
    {
        if self.state != SshState::Ready {
            return Err(SshError::invalid_state());
        }
        if self.pending_host_key.is_some() {
            return Err(SshError::invalid_state());
        }
        if !self.transport_open {
            return Err(
                SshError::new(SshErrorCode::InternalError, "Missing handle".to_owned(), false),
            );
        }
        Ok(())
    }

    /// The window-change request for a terminal of `cols` by `rows`, if the
    /// session may send one now: it must be ready and hold a channel.
    pub fn resize(&self, cols: u16, rows: u16) -> (r: Result<WindowChange, SshError>)
        ensures
            match self@.resize_error() {
                Some(e) => result_view(r) == Err::<WindowChange, _>(e),
                None => r == Ok::<_, SshError>(WindowChange::sized(cols, rows)),
            },
    {
        if !self.is_ready() {
            return Err(SshError::not_ready());
        }
        if !self.channel_open {
            return Err(SshError::new(SshErrorCode::NotReady, "PTY not open".to_owned(), true));
        }
        Ok(WindowChange::new(cols, rows))
    }

    /// Tears the session down. The session lets go of channel and
    /// transport; one that is not closed yet passes through `Closing` to
    /// `Closed`; and in the end it holds nothing. On a closed session the
    /// state machine does nothing. The call always succeeds.
    pub fn disconnect(&mut self) -> (r: Result<(), SshError>)
        ensures
            final(self)@ == old(self)@.torn_down(),
            r is Ok,
    {
        self.channel_open = false;
        self.transport_open = false;
        if self.state != SshState::Closed {
            let _ = self.transition(SshState::Closing);
            let _ = self.transition(SshState::Closed);
        }
        self.pending_host_key = None;
        self.server_fingerprint = None;
        self.username = None;
        Ok(())
    }

    /// A handle for the transport to publish its notifications on this
    /// session's event channel. It has published nothing yet.
    pub fn inbound_events(&self) -> (inbound: InboundEvents)
        ensures
            inbound.published() == Seq::<EventView>::empty(),
    {
        InboundEvents::new(channel_share(&self.events_tx))
    }

    /// A new subscriber's stream. It starts with a replay of where the
    /// session stands now: its status and, while it prompts, the prompt that
    /// is outstanding. After the replay it hands out what is published from
    /// now on.
    pub fn subscribe_events(&self) -> (stream: EventStream<SshEvent>)
        ensures
            event_views(stream.replay()) == self@.snapshot(),
            stream.replay().len() == self@.snapshot().len(),
            forall|i: int|
                0 <= i < stream.replay().len() ==> (#[trigger] stream.replay()[i])@
                    == self@.snapshot()[i],
    {
        let mut snapshot: VecDeque<SshEvent> = VecDeque::new();
        snapshot.push_back(SshEvent::Status { state: self.state });
        if self.state == SshState::HostKeyPrompt {
            match &self.pending_host_key {
                Some(pending) => {
                    snapshot.push_back(
                        SshEvent::HostKeyPrompt {
                            fingerprint: pending.fingerprint.clone(),
                            reason: pending.reason,
                        },
                    );
                },
                None => {},
            }
        }
        assert(event_views(snapshot@) =~= self@.snapshot());
        EventStream::new(snapshot, channel_subscribe(&self.events_tx))
    }
}

impl Default for SshSession {
    fn default() -> (s: Self)
        ensures
            s@ == SessionView::fresh(),
    {
        Self::new()
    }
}

/// What the transport reported of one connection attempt.
#[derive(Clone, Debug, PartialEq, Eq)]
pub enum ConnectOutcome {
    /// The deadline passed before the transport connected.
    ConnectTimedOut,
    /// The transport could not connect; `detail` says why.
    ConnectFailed { detail: String },
    /// The transport connected, and the deadline passed before the server's
    /// fingerprint came.
    FingerprintTimedOut,
    /// The transport connected and gave up the handoff without a
    /// fingerprint.
    FingerprintMissing,
    /// The transport connected and the server showed this fingerprint.
    Established { fingerprint: String },
}

impl View for ConnectOutcome {
    type V = ConnectReport;

    open spec fn view(&self) -> ConnectReport {
        match self {
            ConnectOutcome::ConnectTimedOut => ConnectReport::ConnectTimedOut,
            ConnectOutcome::ConnectFailed { detail } => ConnectReport::ConnectFailed {
                detail: detail@,
            },
            ConnectOutcome::FingerprintTimedOut => ConnectReport::FingerprintTimedOut,
            ConnectOutcome::FingerprintMissing => ConnectReport::FingerprintMissing,
            ConnectOutcome::Established { fingerprint } => ConnectReport::Established {
                fingerprint: fingerprint@,
            },
        }
    }
}

} // verus!
