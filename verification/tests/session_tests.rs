use relay_core::session::Frame;
use relay_core::session::RelayFlow;
use relay_core::session::SessionAction;
use relay_core::session::SessionEvent;
use relay_core::session::SessionState;
use relay_core::session::is_expected_pong;
use relay_core::session::liveness_payload;
use relay_core::session::process_message;
use relay_core::session::session_step;
use relay_core::registry::ActiveConnectionRegistry;
use relay_core::registry::ActiveConnection;
use relay_core::identifier::Identifier;

#[test]
fn only_close_frames_terminate_the_relay() {
    assert!(matches!(process_message(&Frame::Text("hi".to_string())), RelayFlow::Proceed));
    assert!(matches!(process_message(&Frame::Binary(vec![0, 1])), RelayFlow::Proceed));
    assert!(matches!(process_message(&Frame::Ping(vec![1, 2, 3])), RelayFlow::Proceed));
    assert!(matches!(process_message(&Frame::Pong(vec![9])), RelayFlow::Proceed));
    assert!(matches!(process_message(&Frame::Close(None)), RelayFlow::Terminate));
}

#[test]
fn upgrade_registers_then_probes() {
    let (state, action) = session_step(SessionState::Upgrading, SessionEvent::UpgradeComplete);
    assert_eq!(state, SessionState::Probing);
    assert!(matches!(action, SessionAction::RegisterConnection));
}

#[test]
fn registration_is_followed_by_the_probe() {
    let (state, action) = session_step(SessionState::Probing, SessionEvent::Registered);
    assert_eq!(state, SessionState::Probing);
    assert!(matches!(action, SessionAction::SendProbe));
    let (state, action) = session_step(SessionState::Probing, SessionEvent::ProbeSent);
    assert_eq!(state, SessionState::AwaitingLiveness);
    assert!(matches!(action, SessionAction::AwaitFrame));
}

#[test]
fn failed_probe_closes_and_unregisters() {
    let (state, action) = session_step(SessionState::Probing, SessionEvent::ProbeSendFailed);
    assert_eq!(state, SessionState::Closed);
    assert!(matches!(action, SessionAction::RemoveConnection));
}

#[test]
fn any_frame_proves_liveness_except_close() {
    let (state, _) = session_step(
        SessionState::AwaitingLiveness,
        SessionEvent::FrameReceived(Frame::Pong(vec![1, 2, 3])),
    );
    assert_eq!(state, SessionState::Relaying);
    // The reply need not be the matching pong: any non-close frame counts.
    let (state, _) = session_step(
        SessionState::AwaitingLiveness,
        SessionEvent::FrameReceived(Frame::Text("anything".to_string())),
    );
    assert_eq!(state, SessionState::Relaying);
    let (state, action) = session_step(
        SessionState::AwaitingLiveness,
        SessionEvent::FrameReceived(Frame::Close(None)),
    );
    assert_eq!(state, SessionState::Closed);
    assert!(matches!(action, SessionAction::RemoveConnection));
}

#[test]
fn relay_echoes_text_and_binary() {
    let (state, action) = session_step(
        SessionState::Relaying,
        SessionEvent::FrameReceived(Frame::Text("hello".to_string())),
    );
    assert_eq!(state, SessionState::Relaying);
    match action {
        SessionAction::EchoFrame(Frame::Text(text)) => assert_eq!(text, "hello"),
        _ => panic!("text frames are echoed back"),
    }
    let (state, action) = session_step(
        SessionState::Relaying,
        SessionEvent::FrameReceived(Frame::Binary(vec![7, 8])),
    );
    assert_eq!(state, SessionState::Relaying);
    match action {
        SessionAction::EchoFrame(Frame::Binary(data)) => assert_eq!(data, vec![7, 8]),
        _ => panic!("binary frames are echoed back"),
    }
}

#[test]
fn relay_ignores_pings_and_pongs() {
    let (state, action) = session_step(
        SessionState::Relaying,
        SessionEvent::FrameReceived(Frame::Ping(vec![1])),
    );
    assert_eq!(state, SessionState::Relaying);
    assert!(matches!(action, SessionAction::AwaitFrame));
    let (state, action) = session_step(
        SessionState::Relaying,
        SessionEvent::FrameReceived(Frame::Pong(vec![4, 5])),
    );
    assert_eq!(state, SessionState::Relaying);
    assert!(matches!(action, SessionAction::AwaitFrame));
}

#[test]
fn close_frame_mid_relay_terminates_without_echo() {
    let (state, action) = session_step(
        SessionState::Relaying,
        SessionEvent::FrameReceived(Frame::Close(None)),
    );
    assert_eq!(state, SessionState::Closed);
    assert!(matches!(action, SessionAction::RemoveConnection));
    // Once closed, nothing is echoed any more.
    let (state, action) = session_step(
        SessionState::Closed,
        SessionEvent::FrameReceived(Frame::Text("late".to_string())),
    );
    assert_eq!(state, SessionState::Closed);
    assert!(matches!(action, SessionAction::NoAction));
}

#[test]
fn transport_failures_close_the_session() {
    let (state, action) = session_step(SessionState::Relaying, SessionEvent::ReceiveFailed);
    assert_eq!(state, SessionState::Closed);
    assert!(matches!(action, SessionAction::RemoveConnection));
    let (state, action) = session_step(SessionState::Relaying, SessionEvent::EchoSendFailed);
    assert_eq!(state, SessionState::Closed);
    assert!(matches!(action, SessionAction::RemoveConnection));
}

#[test]
fn full_session_run_registers_echoes_and_cleans_up() {
    let mut registry = ActiveConnectionRegistry::new();
    let identifier = Identifier::new("acme".to_string(), "bot1".to_string());
    let conn = ActiveConnection::new(identifier.clone(), vec!["chat".to_string()], 7);

    let script = vec![
        SessionEvent::UpgradeComplete,
        SessionEvent::Registered,
        SessionEvent::ProbeSent,
        SessionEvent::FrameReceived(Frame::Pong(vec![1, 2, 3])),
        SessionEvent::FrameReceived(Frame::Text("hello".to_string())),
        SessionEvent::EchoSent,
        SessionEvent::FrameReceived(Frame::Close(None)),
    ];
    let mut state = SessionState::Upgrading;
    let mut echoes: Vec<String> = Vec::new();
    for event in script {
        let (next_state, action) = session_step(state, event);
        state = next_state;
        match action {
            SessionAction::RegisterConnection => registry.insert(conn.clone()),
            SessionAction::RemoveConnection => registry.remove(&identifier, 7),
            SessionAction::EchoFrame(Frame::Text(text)) => echoes.push(text.to_string()),
            _ => {}
        }
    }
    assert_eq!(state, SessionState::Closed);
    assert_eq!(echoes, vec!["hello".to_string()]);
    // The torn-down session left no registry entry behind.
    assert_eq!(registry.len(), 0);
}

#[test]
fn liveness_payload_is_fixed() {
    assert_eq!(liveness_payload(), vec![1u8, 2, 3]);
    assert!(is_expected_pong(&vec![1, 2, 3]));
    assert!(!is_expected_pong(&vec![1, 2]));
    assert!(!is_expected_pong(&vec![1, 2, 4]));
    assert!(!is_expected_pong(&vec![]));
}
