use niri_gesture_inspector::ipc::{IpcMsg, NiriEvent};
use niri_gesture_inspector::session::{Phase, Session, SessionInput, StreamReply};

fn subscribed() -> Session {
    let mut s = Session::new();
    assert_eq!(s.step::<f64>(SessionInput::Connected), None);
    assert_eq!(s.phase, Phase::Subscribing);
    assert_eq!(s.step::<f64>(SessionInput::Replied(StreamReply::Handled)), Some(IpcMsg::Connected));
    assert_eq!(s.phase, Phase::Streaming);
    s
}

#[test]
fn fresh_session_is_connecting() {
    let s = Session::new();
    assert_eq!(s.phase, Phase::Connecting);
    assert!(!s.is_stopped());
}

#[test]
fn connect_failure_stops_with_context() {
    let mut s = Session::new();
    let out = s.step::<f64>(SessionInput::ConnectFailed("NIRI_SOCKET is not set".to_string()));
    assert_eq!(out, None);
    assert_eq!(
        s.phase,
        Phase::Stopped(
            "failed to connect to niri IPC socket (is niri running?): NIRI_SOCKET is not set"
                .to_string()
        )
    );
    assert!(s.is_stopped());
}

#[test]
fn send_failure_stops_with_context() {
    let mut s = Session::new();
    s.step::<f64>(SessionInput::Connected);
    s.step::<f64>(SessionInput::SendFailed("Broken pipe (os error 32)".to_string()));
    assert_eq!(
        s.phase,
        Phase::Stopped("failed to send Request::EventStream: Broken pipe (os error 32)".to_string())
    );
}

#[test]
fn unexpected_reply_stops() {
    let mut s = Session::new();
    s.step::<f64>(SessionInput::Connected);
    let out = s.step::<f64>(SessionInput::Replied(StreamReply::Unexpected("Version(\"25.08\")".to_string())));
    assert_eq!(out, None);
    assert_eq!(
        s.phase,
        Phase::Stopped("unexpected response to EventStream: Version(\"25.08\")".to_string())
    );
}

#[test]
fn rejected_reply_stops() {
    let mut s = Session::new();
    s.step::<f64>(SessionInput::Connected);
    s.step::<f64>(SessionInput::Replied(StreamReply::Rejected("no".to_string())));
    assert_eq!(s.phase, Phase::Stopped("niri rejected EventStream: no".to_string()));
}

#[test]
fn handled_reply_forwards_connected_then_events() {
    let mut s = subscribed();
    let out = s.step::<f64>(SessionInput::Received(NiriEvent::GestureEnd {
        tag: "a".to_string(),
        completed: true,
    }));
    assert_eq!(out, Some(IpcMsg::GestureEnded { tag: "a".to_string(), completed: true }));
    assert_eq!(s.step::<f64>(SessionInput::Received(NiriEvent::Other)), None);
    assert_eq!(s.phase, Phase::Streaming);
}

#[test]
fn read_failure_stops_with_context() {
    let mut s = subscribed();
    s.step::<f64>(SessionInput::ReadFailed("EOF while parsing a value at line 1 column 0".to_string()));
    assert_eq!(
        s.phase,
        Phase::Stopped(
            "error reading event from niri socket: EOF while parsing a value at line 1 column 0"
                .to_string()
        )
    );
}

#[test]
fn stopped_session_ignores_everything() {
    let mut s = Session::new();
    s.step::<f64>(SessionInput::ConnectFailed("x".to_string()));
    assert_eq!(s.step::<f64>(SessionInput::Connected), None);
    assert_eq!(s.step::<f64>(SessionInput::Replied(StreamReply::Handled)), None);
    assert_eq!(s.step::<f64>(SessionInput::Received(NiriEvent::GestureEnd { tag: "a".to_string(), completed: true })), None);
    assert_eq!(s.phase, Phase::Stopped("failed to connect to niri IPC socket (is niri running?): x".to_string()));
}

#[test]
fn out_of_order_input_is_ignored() {
    let mut s = Session::new();
    assert_eq!(s.step::<f64>(SessionInput::Received(NiriEvent::GestureEnd { tag: "a".to_string(), completed: true })), None);
    assert_eq!(s.step::<f64>(SessionInput::Replied(StreamReply::Handled)), None);
    assert_eq!(s.phase, Phase::Connecting);
}
