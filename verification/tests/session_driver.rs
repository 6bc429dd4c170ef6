use async_dashscope::error::DashScopeError;
use async_dashscope::operation::audio::ws::output::WebSocketEvent;
use async_dashscope::operation::audio::ws::session::{
    Frame, Heartbeat, Session, SessionAction, SessionInput, SessionState,
};

const STARTED: &str = r#"{"header":{"task_id":"t1","event":"task-started","attributes":{}}}"#;
const RESULT_A: &str = r#"{"header":{"task_id":"t1","event":"result-generated","attributes":{}},"payload":{"usage":{"duration":1}}}"#;
const RESULT_B: &str = r#"{"header":{"task_id":"t1","event":"result-generated","attributes":{}},"payload":{"usage":{"duration":2}}}"#;
const FINISHED: &str = r#"{"header":{"task_id":"t1","event":"task-finished","attributes":{}},"payload":{}}"#;
const MALFORMED: &str = r#"{"header":{"task_id":"t1","event":"task-started""#;

fn text(frame: &str) -> SessionInput {
    SessionInput::Frame(Frame::Text(frame.to_string()))
}

fn event(frame: &str) -> SessionAction {
    SessionAction::OnEvent(WebSocketEvent::decode(frame).unwrap())
}

fn close() -> SessionInput {
    SessionInput::Frame(Frame::Close { code: 1000, reason: "done".to_string() })
}

fn on_close() -> SessionAction {
    SessionAction::OnClose { code: 1000, reason: "done".to_string() }
}

#[test]
fn hooks_are_called_in_the_order_of_arrival() {
    let (session, actions) = Session::run(vec![
        SessionInput::Opened { heartbeat_interval_ms: None },
        text(STARTED),
        text(RESULT_A),
        text(RESULT_B),
        text(FINISHED),
        close(),
        SessionInput::LoopExited,
    ]);
    assert_eq!(
        actions,
        vec![SessionAction::OnOpen, event(STARTED), event(RESULT_A), event(RESULT_B), event(FINISHED), on_close()]
    );
    assert_eq!(session.state(), SessionState::Closed);
    assert!(session.is_ended());
    assert_eq!(session.outcome(), Some(Ok(())));
}

#[test]
fn a_malformed_frame_is_reported_once_and_survived() {
    let (session, actions) = Session::run(vec![
        SessionInput::Opened { heartbeat_interval_ms: None },
        text(STARTED),
        text(MALFORMED),
        text(FINISHED),
    ]);
    assert_eq!(actions.len(), 4);
    assert_eq!(actions[0], SessionAction::OnOpen);
    assert_eq!(actions[1], event(STARTED));
    match &actions[2] {
        SessionAction::OnError(DashScopeError::JSONDeserialize { raw_response, .. }) => assert_eq!(raw_response, MALFORMED),
        other => panic!("unexpected action: {:?}", other),
    }
    assert_eq!(actions[3], event(FINISHED));
    assert_eq!(session.state(), SessionState::Active);
    assert_eq!(session.outcome(), None);
}

#[test]
fn an_unknown_event_kind_is_reported_and_survived() {
    let unknown = r#"{"header":{"task_id":"t1","event":"task-paused","attributes":{}}}"#;
    let (session, actions) = Session::run(vec![SessionInput::Opened { heartbeat_interval_ms: None }, text(unknown), text(STARTED)]);
    assert_eq!(
        actions,
        vec![
            SessionAction::OnOpen,
            SessionAction::OnError(DashScopeError::UnknownEventType { event_type: "task-paused".to_string() }),
            event(STARTED),
        ]
    );
    assert_eq!(session.state(), SessionState::Active);
}

#[test]
fn a_terminal_event_does_not_end_the_session() {
    let failed = r#"{"header":{"task_id":"t1","event":"task-failed","attributes":{},"error_code":"X","error_message":"no"}}"#;
    let (session, actions) = Session::run(vec![SessionInput::Opened { heartbeat_interval_ms: None }, text(failed), text(FINISHED)]);
    assert_eq!(actions, vec![SessionAction::OnOpen, event(failed), event(FINISHED)]);
    assert_eq!(session.state(), SessionState::Active);
}

#[test]
fn the_heartbeat_pings_on_every_tick_until_the_loop_is_left() {
    let (session, actions) = Session::run(vec![
        SessionInput::Opened { heartbeat_interval_ms: Some(30_000) },
        SessionInput::Tick,
        text(STARTED),
        SessionInput::Tick,
        close(),
        SessionInput::Tick,
        SessionInput::LoopExited,
        SessionInput::Tick,
    ]);
    assert_eq!(
        actions,
        vec![
            SessionAction::OnOpen,
            SessionAction::StartHeartbeat { interval_ms: 30_000 },
            SessionAction::SendPing,
            event(STARTED),
            SessionAction::SendPing,
            SessionAction::StopHeartbeat,
            on_close(),
        ]
    );
    assert_eq!(session.state(), SessionState::Closed);
    assert_eq!(session.heartbeat(), Heartbeat::Stopped);
}

#[test]
fn without_an_interval_there_is_no_heartbeat() {
    for interval in [None, Some(0)] {
        let (session, actions) = Session::run(vec![
            SessionInput::Opened { heartbeat_interval_ms: interval },
            SessionInput::Tick,
            SessionInput::EndOfStream,
            SessionInput::LoopExited,
        ]);
        assert_eq!(actions, vec![SessionAction::OnOpen]);
        assert_eq!(session.heartbeat(), Heartbeat::Off);
        assert_eq!(session.outcome(), Some(Ok(())));
    }
}

#[test]
fn a_ping_that_cannot_be_sent_ends_the_heartbeat_quietly() {
    let (session, actions) = Session::run(vec![
        SessionInput::Opened { heartbeat_interval_ms: Some(10) },
        SessionInput::Tick,
        SessionInput::PingFailed,
        SessionInput::Tick,
        text(STARTED),
    ]);
    assert_eq!(
        actions,
        vec![SessionAction::OnOpen, SessionAction::StartHeartbeat { interval_ms: 10 }, SessionAction::SendPing, event(STARTED)]
    );
    assert_eq!(session.state(), SessionState::Active);
    assert_eq!(session.heartbeat(), Heartbeat::Stopped);
}

#[test]
fn pings_are_answered_and_the_other_frames_handed_on() {
    let (session, actions) = Session::run(vec![
        SessionInput::Opened { heartbeat_interval_ms: None },
        SessionInput::Frame(Frame::Ping(vec![1, 2, 3])),
        SessionInput::Frame(Frame::Pong(vec![4])),
        SessionInput::Frame(Frame::Binary(vec![9, 8, 7, 6])),
        SessionInput::Frame(Frame::Ping(vec![])),
    ]);
    assert_eq!(
        actions,
        vec![
            SessionAction::OnOpen,
            SessionAction::SendPong(vec![1, 2, 3]),
            SessionAction::OnPong(vec![4]),
            SessionAction::OnData(vec![9, 8, 7, 6]),
            SessionAction::SendPong(vec![]),
        ]
    );
    assert_eq!(session.state(), SessionState::Active);
}

#[test]
fn a_transport_error_fails_the_session() {
    let (session, actions) = Session::run(vec![
        SessionInput::Opened { heartbeat_interval_ms: Some(5) },
        text(STARTED),
        SessionInput::TransportError("connection reset".to_string()),
        text(FINISHED),
        SessionInput::Tick,
        SessionInput::LoopExited,
    ]);
    let error = DashScopeError::WebSocketError("connection reset".to_string());
    assert_eq!(
        actions,
        vec![
            SessionAction::OnOpen,
            SessionAction::StartHeartbeat { interval_ms: 5 },
            event(STARTED),
            SessionAction::StopHeartbeat,
            SessionAction::OnError(error.clone()),
        ]
    );
    assert_eq!(session.state(), SessionState::Failed);
    assert_eq!(session.heartbeat(), Heartbeat::Stopped);
    assert_eq!(session.outcome(), Some(Err(error)));
}

#[test]
fn a_transport_error_while_opening_fails_the_session() {
    let (session, actions) = Session::run(vec![SessionInput::TransportError("refused".to_string())]);
    assert_eq!(
        actions,
        vec![SessionAction::OnOpen, SessionAction::OnError(DashScopeError::WebSocketError("refused".to_string()))]
    );
    assert_eq!(session.state(), SessionState::Failed);
}

#[test]
fn nothing_happens_before_the_open_hook_has_returned() {
    let (session, actions) = Session::run(vec![text(STARTED), SessionInput::Tick, SessionInput::LoopExited, close()]);
    assert_eq!(actions, vec![SessionAction::OnOpen]);
    assert_eq!(session.state(), SessionState::Opening);
}

#[test]
fn steps_can_be_taken_one_by_one() {
    let (mut session, first) = Session::open();
    assert_eq!(first, vec![SessionAction::OnOpen]);
    assert_eq!(session.state(), SessionState::Opening);
    assert_eq!(session.step(SessionInput::Opened { heartbeat_interval_ms: Some(1) }), vec![SessionAction::StartHeartbeat { interval_ms: 1 }]);
    assert_eq!(session.heartbeat(), Heartbeat::Running { interval_ms: 1 });
    assert_eq!(session.step(SessionInput::Opened { heartbeat_interval_ms: Some(9) }), vec![]);
    assert_eq!(session.heartbeat(), Heartbeat::Running { interval_ms: 1 });
    assert_eq!(session.step(SessionInput::EndOfStream), vec![SessionAction::StopHeartbeat]);
    assert_eq!(session.state(), SessionState::Draining);
    assert_eq!(session.step(text(STARTED)), vec![]);
    assert_eq!(session.step(SessionInput::LoopExited), vec![]);
    assert_eq!(session.state(), SessionState::Closed);
    assert_eq!(session.step(SessionInput::TransportError("late".to_string())), vec![]);
    assert_eq!(session.state(), SessionState::Closed);
}
