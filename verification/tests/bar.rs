use niri_gesture_inspector::bar::{placeholder_label, reading_label, BarLabel, BarState, FillColor};

#[test]
fn new_bar_shows_placeholder() {
    let b = BarState::new(false, 0.0f64);
    assert_eq!(b.label(), BarLabel::Placeholder);
    assert!(!b.seen);
    assert!(!b.active);
    assert!(!b.bidirectional);
    assert_eq!(placeholder_label(), "—");
}

#[test]
fn update_sets_reading() {
    let mut b = BarState::new(true, 0.0f64);
    b.update(-12.0, 30.0, true);
    assert_eq!(b.current, -12.0);
    assert_eq!(b.threshold, 30.0);
    assert!(b.active);
    assert!(b.seen);
    assert!(b.bidirectional);
    assert_eq!(b.label(), BarLabel::Reading { current: -12.0, threshold: 30.0 });
}

#[test]
fn clear_keeps_threshold_and_label() {
    let mut b = BarState::new(false, 0.0f64);
    b.update(50.0, 40.0, true);
    b.clear(0.0);
    assert_eq!(b.label(), BarLabel::Reading { current: 0.0, threshold: 40.0 });
    assert!(!b.active);
    assert!(b.seen);
    let once = b;
    b.clear(0.0);
    assert_eq!(b, once);
}

#[test]
fn clear_before_any_frame_keeps_placeholder() {
    let mut b = BarState::new(false, 0.0f64);
    b.clear(0.0);
    assert_eq!(b.label(), BarLabel::Placeholder);
}

#[test]
fn color_precedence() {
    let mut b = BarState::new(false, 0.0f64);
    b.update(1.0, 2.0, true);
    assert_eq!(b.fill_color(true, true), FillColor::Locked);
    assert_eq!(b.fill_color(false, false), FillColor::Locked);
    b.update(1.0, 2.0, false);
    assert_eq!(b.fill_color(true, true), FillColor::Crossed);
    assert_eq!(b.fill_color(false, true), FillColor::Approaching);
    assert_eq!(b.fill_color(false, false), FillColor::Calm);
}

#[test]
fn reading_labels() {
    assert_eq!(reading_label(false, "12.5", "40.0", "px"), "12.5 / 40.0 px");
    assert_eq!(reading_label(true, "+11.5", "20.1", "°"), "+11.5 / ±20.1 °");
}

#[test]
fn bar_history_keeps_layout_and_last_threshold() {
    let mut b = BarState::new(true, 0.0f64);
    b.clear(0.0);
    assert!(!b.seen);
    assert_eq!(b.label(), BarLabel::Placeholder);
    b.update(3.0, 10.0, false);
    b.clear(0.0);
    b.update(-4.0, 12.0, true);
    b.clear(0.0);
    b.clear(0.0);
    assert!(b.bidirectional);
    assert!(b.seen);
    assert_eq!(b.threshold, 12.0);
    assert_eq!(b.label(), BarLabel::Reading { current: 0.0, threshold: 12.0 });
}
