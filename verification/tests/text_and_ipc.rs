use niri_gesture_inspector::ipc::{FrameSnapshot, IpcMsg, NiriEvent};
use niri_gesture_inspector::{decimal_string, disconnect_message, event_message};

fn sample_event() -> NiriEvent<f64> {
    NiriEvent::RecognitionFrame {
        finger_count: 3,
        swipe_distance: 12.5,
        swipe_trigger_distance: 40.0,
        spread_change: -8.0,
        pinch_trigger_distance: 30.0,
        rotation_rad: 0.2,
        rotation_trigger_angle_rad: 0.35,
        rotation_arc: 6.0,
        rotation_arc_trigger_distance: 20.0,
        is_rotate: false,
        is_pinch: true,
        closest: "pinch".to_string(),
        timestamp_ms: 1234,
    }
}

#[test]
fn decimal_string_matches_display() {
    for n in 0..=255u8 {
        assert_eq!(decimal_string(n), n.to_string());
    }
}

#[test]
fn decimal_string_edges() {
    assert_eq!(decimal_string(0), "0");
    assert_eq!(decimal_string(9), "9");
    assert_eq!(decimal_string(10), "10");
    assert_eq!(decimal_string(100), "100");
    assert_eq!(decimal_string(255), "255");
}

#[test]
fn recognition_frame_is_forwarded_flattened() {
    let msg = event_message(sample_event());
    let expected = FrameSnapshot {
        finger_count: 3,
        swipe_distance: 12.5,
        swipe_trigger_distance: 40.0,
        spread_change: -8.0,
        pinch_trigger_distance: 30.0,
        rotation_rad: 0.2,
        rotation_trigger_angle_rad: 0.35,
        rotation_arc: 6.0,
        rotation_arc_trigger_distance: 20.0,
        is_rotate: false,
        is_pinch: true,
        closest: "pinch".to_string(),
        timestamp_ms: 1234,
    };
    assert_eq!(msg, Some(IpcMsg::Frame(expected)));
}

#[test]
fn gesture_begin_becomes_lock() {
    let msg = event_message::<f64>(NiriEvent::GestureBegin {
        tag: "t1".to_string(),
        trigger: "RotateCcw".to_string(),
        finger_count: 5,
    });
    assert_eq!(
        msg,
        Some(IpcMsg::GestureLocked {
            tag: "t1".to_string(),
            trigger: "RotateCcw".to_string(),
            finger_count: 5
        })
    );
}

#[test]
fn gesture_end_is_forwarded() {
    let msg = event_message::<f64>(NiriEvent::GestureEnd { tag: "t1".to_string(), completed: false });
    assert_eq!(msg, Some(IpcMsg::GestureEnded { tag: "t1".to_string(), completed: false }));
}

#[test]
fn other_events_are_dropped() {
    assert_eq!(event_message::<f64>(NiriEvent::Other), None);
}

#[test]
fn disconnect_after_clean_end() {
    let msg = disconnect_message::<f64>(Ok(()));
    assert_eq!(msg, IpcMsg::Disconnected("clean EOF from niri socket".to_string()));
}

#[test]
fn disconnect_after_error_keeps_text() {
    let msg = disconnect_message::<f64>(Err("boom: broken pipe".to_string()));
    assert_eq!(msg, IpcMsg::Disconnected("boom: broken pipe".to_string()));
}
