use ssh_core::{
    ConnectOutcome, FingerprintHandoff, HostKeyPolicy, HostKeyReason, SshErrorCode, SshEvent,
    SshSession, SshState, StreamError,
};

fn prompting(fingerprint: &str, known: Option<&str>) -> SshSession {
    let mut s = SshSession::new()
        .connect("ituser", ConnectOutcome::Established { fingerprint: fingerprint.to_string() })
        .unwrap();
    let entry = known.map(|k| ssh_core::KnownHostEntry { fingerprint: k.to_string() });
    s.verify_host_key(HostKeyPolicy::Ask, entry).unwrap();
    s
}

#[test]
fn a_late_subscriber_sees_the_status_first() {
    for state in [
        SshState::Init,
        SshState::Connecting,
        SshState::Ready,
        SshState::Closing,
        SshState::Closed,
    ] {
        let mut s = SshSession::new();
        if state == SshState::Ready {
            s.transition(SshState::Connecting).unwrap();
        }
        s.transition(state).unwrap();
        let mut rx = s.subscribe_events();
        assert_eq!(rx.try_recv(), Ok(SshEvent::Status { state }));
        assert_eq!(rx.try_recv(), Err(StreamError::Empty));
    }
}

#[test]
fn a_late_subscriber_sees_the_status_and_then_the_prompt() {
    for (known, reason) in [(None, HostKeyReason::New), (Some("SHA256:old"), HostKeyReason::Changed)]
    {
        let s = prompting("SHA256:shown", known);
        let mut rx = s.subscribe_events();
        assert_eq!(rx.try_recv(), Ok(SshEvent::Status { state: SshState::HostKeyPrompt }));
        assert_eq!(
            rx.try_recv(),
            Ok(SshEvent::HostKeyPrompt { fingerprint: "SHA256:shown".to_string(), reason })
        );
        assert_eq!(rx.try_recv(), Err(StreamError::Empty));
    }
}

#[test]
fn a_prompt_state_without_a_recorded_key_replays_only_the_status() {
    let mut s = SshSession::new();
    s.transition(SshState::Connecting).unwrap();
    s.transition(SshState::HostKeyPrompt).unwrap();
    let mut rx = s.subscribe_events();
    assert_eq!(rx.try_recv(), Ok(SshEvent::Status { state: SshState::HostKeyPrompt }));
    assert_eq!(rx.try_recv(), Err(StreamError::Empty));
}

#[test]
fn the_replay_comes_before_what_is_published_later() {
    let mut s = prompting("SHA256:shown", None);
    let mut rx = s.subscribe_events();
    s.host_key_accept().unwrap();
    assert_eq!(rx.next_replayed(), Some(SshEvent::Status { state: SshState::HostKeyPrompt }));
    assert_eq!(
        rx.try_recv(),
        Ok(SshEvent::HostKeyPrompt {
            fingerprint: "SHA256:shown".to_string(),
            reason: HostKeyReason::New
        })
    );
    assert_eq!(rx.next_replayed(), None);
    assert_eq!(rx.try_recv(), Ok(SshEvent::Status { state: SshState::Ready }));
    assert_eq!(rx.next_replayed(), None);
    assert_eq!(rx.try_recv(), Err(StreamError::Empty));
}

#[test]
fn every_subscriber_has_its_own_position() {
    let mut s = SshSession::new();
    let mut early = s.subscribe_events();
    s.transition(SshState::Connecting).unwrap();
    let mut late = s.subscribe_events();
    s.transition(SshState::Ready).unwrap();
    assert_eq!(early.try_recv(), Ok(SshEvent::Status { state: SshState::Init }));
    assert_eq!(early.try_recv(), Ok(SshEvent::Status { state: SshState::Connecting }));
    assert_eq!(early.try_recv(), Ok(SshEvent::Status { state: SshState::Ready }));
    assert_eq!(early.try_recv(), Err(StreamError::Empty));
    assert_eq!(late.try_recv(), Ok(SshEvent::Status { state: SshState::Connecting }));
    assert_eq!(late.try_recv(), Ok(SshEvent::Status { state: SshState::Ready }));
    assert_eq!(late.try_recv(), Err(StreamError::Empty));
}

#[test]
fn the_live_side_reads_past_the_replay() {
    let mut s = SshSession::new();
    let mut rx = s.subscribe_events();
    s.transition(SshState::Connecting).unwrap();
    assert_eq!(rx.live().try_recv().ok(), Some(SshEvent::Status { state: SshState::Connecting }));
    assert_eq!(rx.try_recv(), Ok(SshEvent::Status { state: SshState::Init }));
    assert_eq!(rx.try_recv(), Err(StreamError::Empty));
}

#[test]
fn a_stream_closes_when_every_producer_is_gone() {
    let s = SshSession::new();
    let inbound = s.inbound_events();
    let mut rx = s.subscribe_events();
    drop(s);
    assert_eq!(rx.try_recv(), Ok(SshEvent::Status { state: SshState::Init }));
    assert_eq!(rx.try_recv(), Err(StreamError::Empty));
    drop(inbound);
    assert_eq!(rx.try_recv(), Err(StreamError::Closed));
}

#[test]
fn a_slow_subscriber_is_told_how_much_it_missed() {
    let s = SshSession::new();
    let mut inbound = s.inbound_events();
    let mut rx = s.subscribe_events();
    for i in 0..300u32 {
        inbound.on_data(&i.to_be_bytes());
    }
    assert_eq!(rx.try_recv(), Ok(SshEvent::Status { state: SshState::Init }));
    assert_eq!(rx.try_recv(), Err(StreamError::Lagged(44)));
    assert_eq!(rx.try_recv(), Ok(SshEvent::Stdout { data: 44u32.to_be_bytes().to_vec() }));
    let mut last = None;
    while let Ok(event) = rx.try_recv() {
        last = Some(event);
    }
    assert_eq!(last, Some(SshEvent::Stdout { data: 299u32.to_be_bytes().to_vec() }));
}

#[test]
fn exactly_the_backlog_is_kept_without_loss() {
    let s = SshSession::new();
    let mut inbound = s.inbound_events();
    let mut rx = s.subscribe_events();
    rx.try_recv().unwrap();
    for i in 0..256u32 {
        inbound.on_data(&i.to_be_bytes());
    }
    for i in 0..256u32 {
        assert_eq!(rx.try_recv(), Ok(SshEvent::Stdout { data: i.to_be_bytes().to_vec() }));
    }
    assert_eq!(rx.try_recv(), Err(StreamError::Empty));
}

#[test]
fn inbound_data_is_stdout() {
    assert_eq!(SshEvent::from_data(b"hello"), SshEvent::Stdout { data: b"hello".to_vec() });
    assert_eq!(SshEvent::from_data(b""), SshEvent::Stdout { data: Vec::new() });
}

#[test]
fn extended_data_is_stderr_only_on_stream_one() {
    assert_eq!(
        SshEvent::from_extended_data(1, b"oops"),
        SshEvent::Stderr { data: b"oops".to_vec() }
    );
    for ext in [0, 2, u32::MAX] {
        assert_eq!(
            SshEvent::from_extended_data(ext, b"fine"),
            SshEvent::Stdout { data: b"fine".to_vec() }
        );
    }
}

#[test]
fn an_exit_status_keeps_its_bits() {
    let cases = [
        (0u32, 0i32),
        (1, 1),
        (255, 255),
        (0x7FFF_FFFF, i32::MAX),
        (0x8000_0000, i32::MIN),
        (u32::MAX, -1),
    ];
    for (status, code) in cases {
        assert_eq!(
            SshEvent::from_exit_status(status),
            SshEvent::Exit { exit_code: code, signal: None }
        );
    }
}

#[test]
fn an_exit_on_a_signal_is_code_128_with_the_name() {
    assert_eq!(
        SshEvent::from_exit_signal("TERM".to_string()),
        SshEvent::Exit { exit_code: 128, signal: Some("TERM".to_string()) }
    );
    assert_eq!(
        SshEvent::from_exit_signal(String::new()),
        SshEvent::Exit { exit_code: 128, signal: Some(String::new()) }
    );
}

#[test]
fn inbound_notifications_reach_every_subscriber_in_order() {
    let s = SshSession::new();
    let mut one = s.subscribe_events();
    let mut two = s.subscribe_events();
    let mut inbound = s.inbound_events();
    inbound.on_data(b"out");
    inbound.on_extended_data(1, b"err");
    inbound.on_extended_data(7, b"more");
    inbound.on_exit_status(3);
    inbound.on_exit_signal("KILL".to_string());
    for rx in [&mut one, &mut two] {
        assert_eq!(rx.try_recv(), Ok(SshEvent::Status { state: SshState::Init }));
        assert_eq!(rx.try_recv(), Ok(SshEvent::Stdout { data: b"out".to_vec() }));
        assert_eq!(rx.try_recv(), Ok(SshEvent::Stderr { data: b"err".to_vec() }));
        assert_eq!(rx.try_recv(), Ok(SshEvent::Stdout { data: b"more".to_vec() }));
        assert_eq!(rx.try_recv(), Ok(SshEvent::Exit { exit_code: 3, signal: None }));
        assert_eq!(
            rx.try_recv(),
            Ok(SshEvent::Exit { exit_code: 128, signal: Some("KILL".to_string()) })
        );
        assert_eq!(rx.try_recv(), Err(StreamError::Empty));
    }
}

#[test]
fn publishing_without_a_subscriber_is_harmless() {
    let mut s = SshSession::new();
    let mut inbound = s.inbound_events();
    inbound.on_data(b"nobody listens");
    s.transition(SshState::Connecting).unwrap();
    let mut rx = s.subscribe_events();
    assert_eq!(rx.try_recv(), Ok(SshEvent::Status { state: SshState::Connecting }));
    assert_eq!(rx.try_recv(), Err(StreamError::Empty));
}

#[test]
fn an_error_event_carries_its_parts() {
    let event = SshEvent::Error {
        code: SshErrorCode::Timeout,
        message: "Connect timeout".to_string(),
        retryable: true,
    };
    assert_eq!(event.clone(), event);
    assert_ne!(event, SshEvent::Status { state: SshState::Closed });
}

#[test]
fn the_handoff_delivers_the_first_fingerprint_only() {
    let (mut handoff, mut rx) = FingerprintHandoff::new();
    assert!(handoff.deliver("SHA256:first".to_string()));
    assert!(!handoff.deliver("SHA256:second".to_string()));
    assert!(!handoff.deliver("SHA256:third".to_string()));
    assert_eq!(rx.try_recv().ok(), Some("SHA256:first".to_string()));
}

#[test]
fn a_handoff_that_is_dropped_unused_closes_the_waiting_end() {
    let (handoff, mut rx) = FingerprintHandoff::new();
    assert!(rx.try_recv().is_err());
    drop(handoff);
    assert_eq!(rx.try_recv(), Err(tokio::sync::oneshot::error::TryRecvError::Closed));
}

#[test]
fn a_delivery_after_the_waiting_end_is_gone_still_spends_the_handoff() {
    let (mut handoff, rx) = FingerprintHandoff::new();
    drop(rx);
    assert!(handoff.deliver("SHA256:late".to_string()));
    assert!(!handoff.deliver("SHA256:later".to_string()));
}
