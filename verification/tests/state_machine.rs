use ssh_core::{SshErrorCode, SshEvent, SshSession, SshState, StreamError};

const ALL_STATES: [SshState; 6] = [
    SshState::Init,
    SshState::Connecting,
    SshState::HostKeyPrompt,
    SshState::Ready,
    SshState::Closing,
    SshState::Closed,
];

/// A session walked to `state` along legal edges.
fn session_in(state: SshState) -> SshSession {
    let mut s = SshSession::new();
    let path: &[SshState] = match state {
        SshState::Init => &[],
        SshState::Connecting => &[SshState::Connecting],
        SshState::HostKeyPrompt => &[SshState::Connecting, SshState::HostKeyPrompt],
        SshState::Ready => &[SshState::Connecting, SshState::Ready],
        SshState::Closing => &[SshState::Closing],
        SshState::Closed => &[SshState::Closed],
    };
    for step in path {
        s.transition(*step).unwrap();
    }
    assert_eq!(s.state(), state);
    s
}

fn expected_edge(from: SshState, to: SshState) -> bool {
    if from == to {
        return true;
    }
    match (from, to) {
        (SshState::Closed, _) => false,
        (_, SshState::Closing) | (_, SshState::Closed) => true,
        (SshState::Init, SshState::Connecting) => true,
        (SshState::Connecting, SshState::HostKeyPrompt) => true,
        (SshState::Connecting, SshState::Ready) => true,
        (SshState::HostKeyPrompt, SshState::Ready) => true,
        _ => false,
    }
}

#[test]
fn test_session_state_transitions() {
    let mut session = SshSession::new();
    assert_eq!(session.state(), SshState::Init);

    assert!(matches!(
        session.transition(SshState::Ready),
        Err(e) if e.code == SshErrorCode::InvalidState
    ));

    session.transition(SshState::Connecting).unwrap();
    assert_eq!(session.state(), SshState::Connecting);

    session.transition(SshState::Ready).unwrap();
    assert_eq!(session.state(), SshState::Ready);
}

#[test]
fn test_transition_emits_status_event() {
    let mut session = SshSession::new();
    let mut rx = session.subscribe_events();

    assert!(matches!(
        rx.try_recv(),
        Ok(SshEvent::Status {
            state: SshState::Init
        })
    ));

    session.transition(SshState::Connecting).unwrap();
    assert!(matches!(
        rx.try_recv(),
        Ok(SshEvent::Status {
            state: SshState::Connecting
        })
    ));
}

#[test]
fn the_table_has_exactly_the_legal_edges() {
    let mut legal = 0;
    for from in ALL_STATES {
        for to in ALL_STATES {
            let expected = expected_edge(from, to);
            assert_eq!(SshSession::can_transition(from, to), expected, "{from:?} -> {to:?}");
            if expected {
                legal += 1;
            }
        }
    }
    // six self-loops; four forward edges that are no teardown; Closing from
    // the four states that are neither Closing nor Closed; Closed from the
    // five states that are not Closed
    assert_eq!(legal, 6 + 4 + 4 + 5);
}

#[test]
fn transition_follows_the_table_from_every_state() {
    for from in ALL_STATES {
        for to in ALL_STATES {
            let mut s = session_in(from);
            let mut rx = s.subscribe_events();
            assert_eq!(rx.try_recv(), Ok(SshEvent::Status { state: from }));
            let result = s.transition(to);
            if !expected_edge(from, to) {
                let e = result.unwrap_err();
                assert_eq!(e.code, SshErrorCode::InvalidState);
                assert_eq!(e.message, "Invalid state");
                assert!(!e.retryable);
                assert_eq!(s.state(), from);
                assert_eq!(rx.try_recv(), Err(StreamError::Empty));
            } else if from == to {
                result.unwrap();
                assert_eq!(s.state(), from);
                assert_eq!(rx.try_recv(), Err(StreamError::Empty));
            } else {
                result.unwrap();
                assert_eq!(s.state(), to);
                assert_eq!(rx.try_recv(), Ok(SshEvent::Status { state: to }));
                assert_eq!(rx.try_recv(), Err(StreamError::Empty));
            }
        }
    }
}

#[test]
fn self_transition_publishes_nothing() {
    for state in ALL_STATES {
        let mut s = session_in(state);
        let mut rx = s.subscribe_events();
        assert_eq!(rx.try_recv(), Ok(SshEvent::Status { state }));
        s.transition(state).unwrap();
        s.transition(state).unwrap();
        assert_eq!(s.state(), state);
        assert_eq!(rx.try_recv(), Err(StreamError::Empty));
    }
}

#[test]
fn closed_is_never_left() {
    for to in ALL_STATES {
        let mut s = session_in(SshState::Closed);
        let result = s.transition(to);
        assert_eq!(result.is_ok(), to == SshState::Closed);
        assert_eq!(s.state(), SshState::Closed);
    }
}

#[test]
fn a_new_session_is_in_init_and_holds_nothing() {
    for s in [SshSession::new(), SshSession::default()] {
        assert_eq!(s.state(), SshState::Init);
        assert!(!s.is_ready());
        assert_eq!(s.server_fingerprint(), None);
        assert_eq!(s.pending_reason(), None);
        assert!(!s.transport_open());
        assert!(!s.channel_open());
    }
}
