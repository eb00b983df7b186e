use niri_gesture_inspector::bar::{BarLabel, FillColor};
use niri_gesture_inspector::ipc::{FrameSnapshot, IpcMsg};
use niri_gesture_inspector::ui::{Inspector, UiState};

fn frame() -> FrameSnapshot<f64> {
    FrameSnapshot {
        finger_count: 4,
        swipe_distance: 12.5,
        swipe_trigger_distance: 40.0,
        spread_change: -8.0,
        pinch_trigger_distance: -30.0,
        rotation_rad: 0.2,
        rotation_trigger_angle_rad: 0.35,
        rotation_arc: 6.0,
        rotation_arc_trigger_distance: 20.0,
        is_rotate: true,
        is_pinch: false,
        closest: "rotate".to_string(),
        timestamp_ms: 99,
    }
}

#[test]
fn default_state_is_empty() {
    let s: UiState<f64> = UiState::default();
    assert!(s.latest.is_none());
    assert_eq!(s.status, "");
    assert!(s.last_lock.is_none());
    assert!(s.last_end.is_none());
}

#[test]
fn fresh_panel_waits() {
    let p = Inspector::new(0.0f64);
    assert_eq!(p.text.status, "Waiting for niri connection...");
    assert_eq!(p.text.fingers, "fingers: –");
    assert_eq!(p.text.closest, "closest: –");
    assert_eq!(p.text.rotate_flag, "is_rotate: –");
    assert_eq!(p.text.pinch_flag, "is_pinch:  –");
    assert_eq!(p.text.last_lock, "last lock: –");
    assert_eq!(p.text.last_end, "last end:  –");
    assert!(!p.swipe.bidirectional && p.pinch.bidirectional && p.rotation.bidirectional && !p.arc.bidirectional);
    assert_eq!(p.swipe.label(), BarLabel::Placeholder);
}

#[test]
fn connected_message() {
    let mut p = Inspector::new(0.0f64);
    p.handle(IpcMsg::Connected, f64::abs);
    assert_eq!(p.state.status, "connected");
    assert_eq!(p.text.status, "Connected to niri — touch the screen");
    assert_eq!(p.text.fingers, "fingers: –");
}

#[test]
fn frame_message_updates_bars_and_labels() {
    let mut p = Inspector::new(0.0f64);
    p.handle(IpcMsg::Frame(frame()), f64::abs);
    assert_eq!(p.swipe.label(), BarLabel::Reading { current: 12.5, threshold: 40.0 });
    assert!(!p.swipe.active);
    assert_eq!(p.pinch.label(), BarLabel::Reading { current: -8.0, threshold: 30.0 });
    assert!(!p.pinch.active);
    assert_eq!(p.rotation.label(), BarLabel::Reading { current: 0.2, threshold: 0.35 });
    assert!(p.rotation.active);
    assert_eq!(p.arc.label(), BarLabel::Reading { current: 6.0, threshold: 20.0 });
    assert!(p.arc.active);
    assert_eq!(p.text.fingers, "fingers: 4");
    assert_eq!(p.text.closest, "closest: rotate");
    assert_eq!(p.text.rotate_flag, "is_rotate: ✓");
    assert_eq!(p.text.pinch_flag, "is_pinch:  ✗");
    assert_eq!(p.state.latest, Some(frame()));
    assert_eq!(p.text.status, "Waiting for niri connection...");
}

#[test]
fn lock_message_fills_history() {
    let mut p = Inspector::new(0.0f64);
    p.handle(IpcMsg::GestureLocked {
        tag: "g7".to_string(),
        trigger: "RotateCcw".to_string(),
        finger_count: 5,
    }, f64::abs);
    let expected = "last lock:\n  trigger: RotateCcw\n  fingers: 5\n  tag: g7";
    assert_eq!(p.text.last_lock, expected);
    assert_eq!(p.state.last_lock.as_deref(), Some(expected));
    assert_eq!(p.text.last_end, "last end:  –");
}

#[test]
fn end_message_clears_fills_and_keeps_targets() {
    let mut p = Inspector::new(0.0f64);
    p.handle(IpcMsg::Frame(frame()), f64::abs);
    p.handle(IpcMsg::GestureEnded { tag: "g7".to_string(), completed: true }, f64::abs);
    assert_eq!(p.text.last_end, "last end:  tag=g7 (completed)");
    assert_eq!(p.state.last_end.as_deref(), Some("last end:  tag=g7 (completed)"));
    assert_eq!(p.swipe.label(), BarLabel::Reading { current: 0.0, threshold: 40.0 });
    assert_eq!(p.pinch.label(), BarLabel::Reading { current: 0.0, threshold: 30.0 });
    assert_eq!(p.rotation.label(), BarLabel::Reading { current: 0.0, threshold: 0.35 });
    assert_eq!(p.arc.label(), BarLabel::Reading { current: 0.0, threshold: 20.0 });
    assert_eq!(p.rotation.fill_color(true, true), FillColor::Crossed);
    assert_eq!(p.text.fingers, "fingers: –");
    assert_eq!(p.text.closest, "closest: –");
    assert_eq!(p.text.rotate_flag, "is_rotate: ✗");
    assert_eq!(p.text.pinch_flag, "is_pinch:  ✗");
    assert!(p.state.latest.is_none());
}

#[test]
fn cancelled_end_text() {
    let mut p = Inspector::new(0.0f64);
    p.handle(IpcMsg::GestureEnded { tag: "x".to_string(), completed: false }, f64::abs);
    assert_eq!(p.text.last_end, "last end:  tag=x (cancelled)");
    assert_eq!(p.swipe.label(), BarLabel::Placeholder);
}

#[test]
fn disconnected_message() {
    let mut p = Inspector::new(0.0f64);
    p.handle(IpcMsg::Frame(frame()), f64::abs);
    p.handle(IpcMsg::Disconnected("clean EOF from niri socket".to_string()), f64::abs);
    assert_eq!(p.text.status, "Disconnected: clean EOF from niri socket");
    assert_eq!(p.state.status, "disconnected: clean EOF from niri socket");
    assert_eq!(p.text.fingers, "fingers: 4");
    assert_eq!(p.state.latest, Some(frame()));
}
