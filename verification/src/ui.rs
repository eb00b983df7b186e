//! What the inspector panel shows, and how each message from the IPC
//! reader changes it.
//!
//! The panel has, top to bottom: a status line; the finger count and the
//! current progress leader (`closest`); four threshold bars (swipe, pinch,
//! rotation, arc); the two classifier flags; and a history of the last
//! gesture lock and the last gesture end.

use vstd::prelude::*;
use crate::bar::{BarLabel, BarState, fresh, updated, cleared, label_of, color_of, FillColor};
use crate::ipc::{FrameSnapshot, IpcMsg};
use crate::text::{decimal, decimal_string, digits_value, lemma_decimal_denotes};

verus! {

/// Rolling state updated from every message.
pub struct UiState<M> {
    /// Most recent recognition frame, or `None` if no touch is active.
    pub latest: Option<FrameSnapshot<M>>,
    /// Most recent connection status ("connected", or the reason of a
    /// disconnect).
    pub status: String,
    /// Text of the last gesture lock, shown in the history pane so users
    /// can see which classification won.
    pub last_lock: Option<String>,
    /// Text of the last gesture end.
    pub last_end: Option<String>,
}

impl<M> Default for UiState<M> {
    fn default() -> (s: Self)
        ensures
            s.latest is None,
            s.status@ == Seq::<char>::empty(),
            s.last_lock is None,
            s.last_end is None,
    {
        UiState { latest: None, status: String::new(), last_lock: None, last_end: None }
    }
}

/// The texts of the panel's labels.
pub struct PanelText {
    pub status: String,
    pub fingers: String,
    pub closest: String,
    pub rotate_flag: String,
    pub pinch_flag: String,
    pub last_lock: String,
    pub last_end: String,
}

pub open spec fn waiting_text() -> Seq<char> {
    "Waiting for niri connection..."@
}

pub open spec fn connected_text() -> Seq<char> {
    "Connected to niri — touch the screen"@
}

pub open spec fn connected_status() -> Seq<char> {
    "connected"@
}

pub open spec fn no_fingers_text() -> Seq<char> {
    "fingers: –"@
}

pub open spec fn no_closest_text() -> Seq<char> {
    "closest: –"@
}

pub open spec fn fingers_text(n: u8) -> Seq<char> {
    "fingers: "@ + decimal(n as nat)
}

pub open spec fn closest_text(closest: Seq<char>) -> Seq<char> {
    "closest: "@ + closest
}

/// A tick for a set flag, a cross for a clear one.
pub open spec fn mark(b: bool) -> Seq<char> {
    if b {
        "✓"@
    } else {
        "✗"@
    }
}

pub open spec fn rotate_flag_text(b: bool) -> Seq<char> {
    "is_rotate: "@ + mark(b)
}

pub open spec fn pinch_flag_text(b: bool) -> Seq<char> {
    "is_pinch:  "@ + mark(b)
}

pub open spec fn lock_text(tag: Seq<char>, trigger: Seq<char>, finger_count: u8) -> Seq<char> {
    "last lock:\n  trigger: "@ + trigger + "\n  fingers: "@ + decimal(finger_count as nat)
        + "\n  tag: "@ + tag
}

pub open spec fn end_text(tag: Seq<char>, completed: bool) -> Seq<char> {
    "last end:  tag="@ + tag + " ("@ + (if completed {
        "completed"@
    } else {
        "cancelled"@
    }) + ")"@
}

pub open spec fn disconnected_text(reason: Seq<char>) -> Seq<char> {
    "Disconnected: "@ + reason
}

pub open spec fn disconnected_status(reason: Seq<char>) -> Seq<char> {
    "disconnected: "@ + reason
}

/// The panel: its rolling state, its label texts and its four bars.
pub struct Inspector<M> {
    pub state: UiState<M>,
    pub text: PanelText,
    /// Swipe distance against the swipe trigger distance (unidirectional).
    pub swipe: BarState<M>,
    /// Spread change against the pinch trigger distance (bidirectional).
    pub pinch: BarState<M>,
    /// Rotation angle against the rotation trigger angle (bidirectional).
    pub rotation: BarState<M>,
    /// Rotation arc against the arc trigger distance (unidirectional).
    pub arc: BarState<M>,
    /// The zero of the metric type, where fills rest.
    pub rest: M,
}

/// The bars keep their states.
pub open spec fn same_bars<M>(a: Inspector<M>, b: Inspector<M>) -> bool {
    &&& a.swipe == b.swipe
    &&& a.pinch == b.pinch
    &&& a.rotation == b.rotation
    &&& a.arc == b.arc
    &&& a.rest == b.rest
}

/// The labels of the live frame (fingers, closest, flags) keep their texts.
pub open spec fn same_frame_labels(a: PanelText, b: PanelText) -> bool {
    &&& a.fingers == b.fingers
    &&& a.closest == b.closest
    &&& a.rotate_flag == b.rotate_flag
    &&& a.pinch_flag == b.pinch_flag
}

/// What the panel becomes on `Connected`: the status says so; nothing
/// else changes.
pub open spec fn on_connected<M>(old: Inspector<M>, new: Inspector<M>) -> bool {
    &&& new.state.status@ == connected_status()
    &&& new.text.status@ == connected_text()
    &&& new.state.latest == old.state.latest
    &&& new.state.last_lock == old.state.last_lock
    &&& new.state.last_end == old.state.last_end
    &&& same_frame_labels(new.text, old.text)
    &&& new.text.last_lock == old.text.last_lock
    &&& new.text.last_end == old.text.last_end
    &&& same_bars(old, new)
}

/// What the panel becomes on a frame: each bar reads its metric against
/// the magnitude of its trigger (swipe never active, pinch active with
/// `is_pinch`, rotation and arc active with `is_rotate`), the labels show
/// the finger count, the leader and the two flags, and the frame becomes
/// the latest. `magnitude` is the absolute value of a metric.
pub open spec fn on_frame<M, F: Fn(M) -> M>(
    old: Inspector<M>,
    new: Inspector<M>,
    f: FrameSnapshot<M>,
    magnitude: F,
) -> bool {
    &&& call_ensures(magnitude, (f.swipe_trigger_distance,), new.swipe.threshold)
    &&& call_ensures(magnitude, (f.pinch_trigger_distance,), new.pinch.threshold)
    &&& call_ensures(magnitude, (f.rotation_trigger_angle_rad,), new.rotation.threshold)
    &&& call_ensures(magnitude, (f.rotation_arc_trigger_distance,), new.arc.threshold)
    &&& new.swipe == updated(old.swipe, f.swipe_distance, new.swipe.threshold, false)
    &&& new.pinch == updated(old.pinch, f.spread_change, new.pinch.threshold, f.is_pinch)
    &&& new.rotation == updated(old.rotation, f.rotation_rad, new.rotation.threshold, f.is_rotate)
    &&& new.arc == updated(old.arc, f.rotation_arc, new.arc.threshold, f.is_rotate)
    &&& new.rest == old.rest
    &&& new.text.fingers@ == fingers_text(f.finger_count)
    &&& new.text.closest@ == closest_text(f.closest@)
    &&& new.text.rotate_flag@ == rotate_flag_text(f.is_rotate)
    &&& new.text.pinch_flag@ == pinch_flag_text(f.is_pinch)
    &&& new.state.latest == Some(f)
    &&& new.state.status == old.state.status
    &&& new.state.last_lock == old.state.last_lock
    &&& new.state.last_end == old.state.last_end
    &&& new.text.status == old.text.status
    &&& new.text.last_lock == old.text.last_lock
    &&& new.text.last_end == old.text.last_end
}

/// What the panel becomes on a gesture lock: the history shows the
/// trigger, the finger count and the tag, and the state keeps that text.
pub open spec fn on_locked<M>(
    old: Inspector<M>,
    new: Inspector<M>,
    tag: Seq<char>,
    trigger: Seq<char>,
    finger_count: u8,
) -> bool {
    &&& new.text.last_lock@ == lock_text(tag, trigger, finger_count)
    &&& new.state.last_lock matches Some(t) && t@ == lock_text(tag, trigger, finger_count)
    &&& new.state.latest == old.state.latest
    &&& new.state.status == old.state.status
    &&& new.state.last_end == old.state.last_end
    &&& new.text.status == old.text.status
    &&& new.text.last_end == old.text.last_end
    &&& same_frame_labels(new.text, old.text)
    &&& same_bars(old, new)
}

/// What the panel becomes on a gesture end: the history shows the tag and
/// whether the gesture completed; the touch is over, so the fills return
/// to rest (thresholds and labels stay), the live labels are reset, and no
/// frame is latest any more.
pub open spec fn on_ended<M>(
    old: Inspector<M>,
    new: Inspector<M>,
    tag: Seq<char>,
    completed: bool,
) -> bool {
    &&& new.text.last_end@ == end_text(tag, completed)
    &&& new.state.last_end matches Some(t) && t@ == end_text(tag, completed)
    &&& new.swipe == cleared(old.swipe, old.rest)
    &&& new.pinch == cleared(old.pinch, old.rest)
    &&& new.rotation == cleared(old.rotation, old.rest)
    &&& new.arc == cleared(old.arc, old.rest)
    &&& new.rest == old.rest
    &&& new.text.fingers@ == no_fingers_text()
    &&& new.text.closest@ == no_closest_text()
    &&& new.text.rotate_flag@ == rotate_flag_text(false)
    &&& new.text.pinch_flag@ == pinch_flag_text(false)
    &&& new.state.latest is None
    &&& new.state.status == old.state.status
    &&& new.state.last_lock == old.state.last_lock
    &&& new.text.status == old.text.status
    &&& new.text.last_lock == old.text.last_lock
}

/// What the panel becomes on a disconnect: the status line and the state
/// give the reason; nothing else changes.
pub open spec fn on_disconnected<M>(old: Inspector<M>, new: Inspector<M>, reason: Seq<char>) -> bool {
    &&& new.text.status@ == disconnected_text(reason)
    &&& new.state.status@ == disconnected_status(reason)
    &&& new.state.latest == old.state.latest
    &&& new.state.last_lock == old.state.last_lock
    &&& new.state.last_end == old.state.last_end
    &&& same_frame_labels(new.text, old.text)
    &&& new.text.last_lock == old.text.last_lock
    &&& new.text.last_end == old.text.last_end
    &&& same_bars(old, new)
}

/// What the panel becomes on `msg`, with `magnitude` the absolute value of
/// a metric.
pub open spec fn handled<M, F: Fn(M) -> M>(
    old: Inspector<M>,
    new: Inspector<M>,
    msg: IpcMsg<M>,
    magnitude: F,
) -> bool {
    match msg {
        IpcMsg::Connected => on_connected(old, new),
        IpcMsg::Frame(f) => on_frame(old, new, f, magnitude),
        IpcMsg::GestureLocked { tag, trigger, finger_count } => on_locked(
            old,
            new,
            tag@,
            trigger@,
            finger_count,
        ),
        IpcMsg::GestureEnded { tag, completed } => on_ended(old, new, tag@, completed),
        IpcMsg::Disconnected(reason) => on_disconnected(old, new, reason@),
    }
}

fn mark_str(b: bool) -> (s: &'static str)
    ensures
        s@ == mark(b),
{
    if b {
        "✓"
    } else {
        "✗"
    }
}

fn with_suffix(prefix: &str, suffix: &str) -> (s: String)
    ensures
        s@ == prefix@ + suffix@,
{
    let mut s = String::from_str(prefix);
    s.append(suffix);
    s
}

impl<M: Copy> Inspector<M> {
    /// The panel before any message: waiting for the connection, dashes in
    /// every live label, four fresh bars (swipe and arc unidirectional,
    /// pinch and rotation bidirectional).
    pub fn new(rest: M) -> (p: Self)
        ensures
            p.state.latest is None,
            p.state.status@ == Seq::<char>::empty(),
            p.state.last_lock is None,
            p.state.last_end is None,
            p.text.status@ == waiting_text(),
            p.text.fingers@ == no_fingers_text(),
            p.text.closest@ == no_closest_text(),
            p.text.rotate_flag@ == "is_rotate: –"@,
            p.text.pinch_flag@ == "is_pinch:  –"@,
            p.text.last_lock@ == "last lock: –"@,
            p.text.last_end@ == "last end:  –"@,
            p.swipe == fresh(false, rest),
            p.pinch == fresh(true, rest),
            p.rotation == fresh(true, rest),
            p.arc == fresh(false, rest),
            p.rest == rest,
    {
        Inspector {
            state: UiState::default(),
            text: PanelText {
                status: String::from_str("Waiting for niri connection..."),
                fingers: String::from_str("fingers: –"),
                closest: String::from_str("closest: –"),
                rotate_flag: String::from_str("is_rotate: –"),
                pinch_flag: String::from_str("is_pinch:  –"),
                last_lock: String::from_str("last lock: –"),
                last_end: String::from_str("last end:  –"),
            },
            swipe: BarState::new(false, rest),
            pinch: BarState::new(true, rest),
            rotation: BarState::new(true, rest),
            arc: BarState::new(false, rest),
            rest,
        }
    }

    /// Applies one message from the IPC reader to the panel. Each bar keeps
    /// the threshold of a frame by its magnitude, as `magnitude` (the
    /// absolute value of a metric) gives it.
    pub fn handle<F: Fn(M) -> M>(&mut self, msg: IpcMsg<M>, magnitude: F)
        requires
            forall|x: M| call_requires(magnitude, (x,)),
        ensures
            handled(*old(self), *final(self), msg, magnitude),
    {
        match msg {
            IpcMsg::Connected => {
                self.state.status = String::from_str("connected");
                self.text.status = String::from_str("Connected to niri — touch the screen");
            },
            IpcMsg::Frame(frame) => {
                // Swipe has no per-frame classifier flag: its commit happens
                // only when the race resolves at the end of the gesture.
                let swipe_threshold = magnitude(frame.swipe_trigger_distance);
                let pinch_threshold = magnitude(frame.pinch_trigger_distance);
                let rotation_threshold = magnitude(frame.rotation_trigger_angle_rad);
                let arc_threshold = magnitude(frame.rotation_arc_trigger_distance);
                self.swipe.update(frame.swipe_distance, swipe_threshold, false);
                self.pinch.update(frame.spread_change, pinch_threshold, frame.is_pinch);
                self.rotation.update(frame.rotation_rad, rotation_threshold, frame.is_rotate);
                self.arc.update(frame.rotation_arc, arc_threshold, frame.is_rotate);
                let count = decimal_string(frame.finger_count);
                self.text.fingers = with_suffix("fingers: ", count.as_str());
                self.text.closest = with_suffix("closest: ", frame.closest.as_str());
                self.text.rotate_flag = with_suffix("is_rotate: ", mark_str(frame.is_rotate));
                self.text.pinch_flag = with_suffix("is_pinch:  ", mark_str(frame.is_pinch));
                self.state.latest = Some(frame);
            },
            IpcMsg::GestureLocked { tag, trigger, finger_count } => {
                let count = decimal_string(finger_count);
                let mut text = String::from_str("last lock:\n  trigger: ");
                text.append(trigger.as_str());
                text.append("\n  fingers: ");
                text.append(count.as_str());
                text.append("\n  tag: ");
                text.append(tag.as_str());
                let shown = text.clone();
                self.text.last_lock = shown;
                self.state.last_lock = Some(text);
            },
            IpcMsg::GestureEnded { tag, completed } => {
                let mut text = String::from_str("last end:  tag=");
                text.append(tag.as_str());
                text.append(" (");
                if completed {
                    text.append("completed");
                } else {
                    text.append("cancelled");
                }
                text.append(")");
                let shown = text.clone();
                self.text.last_end = shown;
                self.state.last_end = Some(text);
                // The touch ended: fills go back to rest, thresholds and
                // labels stay so the targets remain visible.
                let rest = self.rest;
                self.swipe.clear(rest);
                self.pinch.clear(rest);
                self.rotation.clear(rest);
                self.arc.clear(rest);
                self.text.fingers = String::from_str("fingers: –");
                self.text.closest = String::from_str("closest: –");
                self.text.rotate_flag = with_suffix("is_rotate: ", mark_str(false));
                self.text.pinch_flag = with_suffix("is_pinch:  ", mark_str(false));
                self.state.latest = None;
            },
            IpcMsg::Disconnected(reason) => {
                self.text.status = with_suffix("Disconnected: ", reason.as_str());
                self.state.status = with_suffix("disconnected: ", reason.as_str());
            },
        }
    }
}

/// The targets survive the end of a touch: after a frame and then a
/// gesture end, every bar still labels the magnitude of that frame's
/// trigger threshold (against the rest value), no bar is green, and no
/// frame is latest; the end also leaves the connection status as it was.
pub proof fn lemma_targets_survive_gesture_end<M, F: Fn(M) -> M>(
    p0: Inspector<M>,
    p1: Inspector<M>,
    p2: Inspector<M>,
    f: FrameSnapshot<M>,
    tag: String,
    completed: bool,
    magnitude: F,
    crossed: bool,
    approaching: bool,
)
    requires
        handled(p0, p1, IpcMsg::Frame(f), magnitude),
        handled(p1, p2, IpcMsg::GestureEnded { tag, completed }, magnitude),
    ensures
        call_ensures(magnitude, (f.swipe_trigger_distance,), p2.swipe.threshold),
        call_ensures(magnitude, (f.pinch_trigger_distance,), p2.pinch.threshold),
        call_ensures(magnitude, (f.rotation_trigger_angle_rad,), p2.rotation.threshold),
        call_ensures(magnitude, (f.rotation_arc_trigger_distance,), p2.arc.threshold),
        label_of(p2.swipe) == (BarLabel::Reading { current: p0.rest, threshold: p2.swipe.threshold }),
        label_of(p2.pinch) == (BarLabel::Reading { current: p0.rest, threshold: p2.pinch.threshold }),
        label_of(p2.rotation) == (BarLabel::Reading {
            current: p0.rest,
            threshold: p2.rotation.threshold,
        }),
        label_of(p2.arc) == (BarLabel::Reading { current: p0.rest, threshold: p2.arc.threshold }),
        color_of(p2.pinch.active, crossed, approaching) != FillColor::Locked,
        color_of(p2.rotation.active, crossed, approaching) != FillColor::Locked,
        color_of(p2.arc.active, crossed, approaching) != FillColor::Locked,
        p2.state.latest is None,
        p2.state.status == p0.state.status,
        p2.text.status == p0.text.status,
{
}

/// A frame shows the latest touch: after it, the frame is the latest, and
/// the pinch bar is green exactly when the frame says `is_pinch`, the
/// rotation and arc bars exactly when it says `is_rotate`; the swipe bar is
/// never green on a frame.
pub proof fn lemma_frame_flags_drive_colors<M, F: Fn(M) -> M>(
    p0: Inspector<M>,
    p1: Inspector<M>,
    f: FrameSnapshot<M>,
    magnitude: F,
    crossed: bool,
    approaching: bool,
)
    requires
        handled(p0, p1, IpcMsg::Frame(f), magnitude),
    ensures
        p1.state.latest == Some(f),
        (color_of(p1.pinch.active, crossed, approaching) == FillColor::Locked) == f.is_pinch,
        (color_of(p1.rotation.active, crossed, approaching) == FillColor::Locked) == f.is_rotate,
        (color_of(p1.arc.active, crossed, approaching) == FillColor::Locked) == f.is_rotate,
        color_of(p1.swipe.active, crossed, approaching) != FillColor::Locked,
{
}

/// On a frame: the rotate flag ticks exactly when the frame says
/// `is_rotate` and the pinch flag exactly when it says `is_pinch`, each
/// independent of the other flag; the finger count and the leader are
/// shown; each bar holds its own metric, active by its own flag (swipe
/// never), seen, in its own layout, against the magnitude of its own
/// trigger; and the frame becomes the latest, leaving the status and the
/// history as they were.
pub proof fn lemma_frame_panel<M, F: Fn(M) -> M>(
    p0: Inspector<M>,
    p1: Inspector<M>,
    f: FrameSnapshot<M>,
    magnitude: F,
)
    requires
        handled(p0, p1, IpcMsg::Frame(f), magnitude),
    ensures
        p1.text.rotate_flag@ == (if f.is_rotate {
            "is_rotate: ✓"@
        } else {
            "is_rotate: ✗"@
        }),
        p1.text.pinch_flag@ == (if f.is_pinch {
            "is_pinch:  ✓"@
        } else {
            "is_pinch:  ✗"@
        }),
        p1.text.fingers@ == "fingers: "@ + decimal(f.finger_count as nat),
        digits_value(p1.text.fingers@.subrange(9, p1.text.fingers@.len() as int)) == f.finger_count,
        p1.text.closest@ == "closest: "@ + f.closest@,
        p1.swipe.current == f.swipe_distance && !p1.swipe.active && p1.swipe.seen,
        p1.pinch.current == f.spread_change && p1.pinch.active == f.is_pinch && p1.pinch.seen,
        p1.rotation.current == f.rotation_rad && p1.rotation.active == f.is_rotate
            && p1.rotation.seen,
        p1.arc.current == f.rotation_arc && p1.arc.active == f.is_rotate && p1.arc.seen,
        p1.swipe.bidirectional == p0.swipe.bidirectional,
        p1.pinch.bidirectional == p0.pinch.bidirectional,
        p1.rotation.bidirectional == p0.rotation.bidirectional,
        p1.arc.bidirectional == p0.arc.bidirectional,
        call_ensures(magnitude, (f.swipe_trigger_distance,), p1.swipe.threshold),
        call_ensures(magnitude, (f.pinch_trigger_distance,), p1.pinch.threshold),
        call_ensures(magnitude, (f.rotation_trigger_angle_rad,), p1.rotation.threshold),
        call_ensures(magnitude, (f.rotation_arc_trigger_distance,), p1.arc.threshold),
        p1.state.latest == Some(f),
        p1.state.status == p0.state.status,
        p1.text.status == p0.text.status,
        p1.state.last_lock == p0.state.last_lock,
        p1.state.last_end == p0.state.last_end,
        p1.text.last_lock == p0.text.last_lock,
        p1.text.last_end == p0.text.last_end,
{
    reveal_strlit("is_rotate: ✓");
    reveal_strlit("is_rotate: ✗");
    reveal_strlit("is_rotate: ");
    reveal_strlit("is_pinch:  ✓");
    reveal_strlit("is_pinch:  ✗");
    reveal_strlit("is_pinch:  ");
    reveal_strlit("✓");
    reveal_strlit("✗");
    reveal_strlit("fingers: ");
    assert("is_rotate: "@ + "✓"@ =~= "is_rotate: ✓"@);
    assert("is_rotate: "@ + "✗"@ =~= "is_rotate: ✗"@);
    assert("is_pinch:  "@ + "✓"@ =~= "is_pinch:  ✓"@);
    assert("is_pinch:  "@ + "✗"@ =~= "is_pinch:  ✗"@);
    lemma_decimal_denotes(f.finger_count as nat);
    assert(p1.text.fingers@.subrange(9, p1.text.fingers@.len() as int) =~= decimal(
        f.finger_count as nat,
    ));
}

/// On a gesture lock: the history reads "last lock:", then the trigger,
/// the finger count and the tag on lines of their own, and the state keeps
/// the same text; nothing else changes.
pub proof fn lemma_lock_panel<M, F: Fn(M) -> M>(
    p0: Inspector<M>,
    p1: Inspector<M>,
    tag: String,
    trigger: String,
    finger_count: u8,
    magnitude: F,
)
    requires
        handled(p0, p1, IpcMsg::GestureLocked { tag, trigger, finger_count }, magnitude),
    ensures
        p1.text.last_lock@ == "last lock:\n  trigger: "@ + trigger@ + "\n  fingers: "@ + decimal(
            finger_count as nat,
        ) + "\n  tag: "@ + tag@,
        p1.state.last_lock matches Some(t) && t@ == p1.text.last_lock@,
        p1.swipe == p0.swipe && p1.pinch == p0.pinch && p1.rotation == p0.rotation && p1.arc
            == p0.arc,
        p1.state.latest == p0.state.latest,
        p1.state.last_end == p0.state.last_end,
        p1.text.last_end == p0.text.last_end,
        p1.text.status == p0.text.status,
        p1.text.fingers == p0.text.fingers,
        p1.text.rotate_flag == p0.text.rotate_flag,
        p1.text.pinch_flag == p0.text.pinch_flag,
{
}

/// On a gesture end: the history reads "last end:  tag=<tag> (completed)"
/// or "(cancelled)" as the gesture completed or not; every fill goes back
/// to rest and no bar stays active, while each keeps its threshold, its
/// layout and whether it has seen a frame; the live labels show dashes and
/// crosses; no frame is latest; the status and the last lock stay.
pub proof fn lemma_end_panel<M, F: Fn(M) -> M>(
    p0: Inspector<M>,
    p1: Inspector<M>,
    tag: String,
    completed: bool,
    magnitude: F,
)
    requires
        handled(p0, p1, IpcMsg::GestureEnded { tag, completed }, magnitude),
    ensures
        p1.text.last_end@ == "last end:  tag="@ + tag@ + (if completed {
            " (completed)"@
        } else {
            " (cancelled)"@
        }),
        p1.state.last_end matches Some(t) && t@ == p1.text.last_end@,
        p1.swipe.current == p0.rest && !p1.swipe.active && p1.swipe.threshold == p0.swipe.threshold
            && p1.swipe.seen == p0.swipe.seen && p1.swipe.bidirectional == p0.swipe.bidirectional,
        p1.pinch.current == p0.rest && !p1.pinch.active && p1.pinch.threshold == p0.pinch.threshold
            && p1.pinch.seen == p0.pinch.seen && p1.pinch.bidirectional == p0.pinch.bidirectional,
        p1.rotation.current == p0.rest && !p1.rotation.active && p1.rotation.threshold
            == p0.rotation.threshold && p1.rotation.seen == p0.rotation.seen
            && p1.rotation.bidirectional == p0.rotation.bidirectional,
        p1.arc.current == p0.rest && !p1.arc.active && p1.arc.threshold == p0.arc.threshold
            && p1.arc.seen == p0.arc.seen && p1.arc.bidirectional == p0.arc.bidirectional,
        p1.text.fingers@ == "fingers: –"@,
        p1.text.closest@ == "closest: –"@,
        p1.text.rotate_flag@ == "is_rotate: ✗"@,
        p1.text.pinch_flag@ == "is_pinch:  ✗"@,
        p1.state.latest is None,
        p1.state.status == p0.state.status,
        p1.text.status == p0.text.status,
        p1.state.last_lock == p0.state.last_lock,
        p1.text.last_lock == p0.text.last_lock,
{
    reveal_strlit("is_rotate: ✗");
    reveal_strlit("is_rotate: ");
    reveal_strlit("is_pinch:  ✗");
    reveal_strlit("is_pinch:  ");
    reveal_strlit("✗");
    reveal_strlit(" (completed)");
    reveal_strlit(" (cancelled)");
    reveal_strlit(" (");
    reveal_strlit("completed");
    reveal_strlit("cancelled");
    reveal_strlit(")");
    assert("is_rotate: "@ + "✗"@ =~= "is_rotate: ✗"@);
    assert("is_pinch:  "@ + "✗"@ =~= "is_pinch:  ✗"@);
    let pre = "last end:  tag="@ + tag@;
    if completed {
        assert(pre + " ("@ + "completed"@ + ")"@ =~= pre + " (completed)"@);
    } else {
        assert(pre + " ("@ + "cancelled"@ + ")"@ =~= pre + " (cancelled)"@);
    }
}

/// On `Connected` the status line says "Connected to niri — touch the
/// screen" and the state "connected"; on `Disconnected(reason)` they say
/// "Disconnected: " and "disconnected: " followed by the reason. Neither
/// touches the bars, the live labels or the history.
pub proof fn lemma_status_panel<M, F: Fn(M) -> M>(
    p0: Inspector<M>,
    p1: Inspector<M>,
    p2: Inspector<M>,
    reason: String,
    magnitude: F,
)
    requires
        handled(p0, p1, IpcMsg::Connected, magnitude),
        handled(p0, p2, IpcMsg::Disconnected(reason), magnitude),
    ensures
        p1.text.status@ == "Connected to niri — touch the screen"@,
        p1.state.status@ == "connected"@,
        p2.text.status@ == "Disconnected: "@ + reason@,
        p2.state.status@ == "disconnected: "@ + reason@,
        p1.swipe == p0.swipe && p1.pinch == p0.pinch && p1.rotation == p0.rotation && p1.arc
            == p0.arc,
        p2.swipe == p0.swipe && p2.pinch == p0.pinch && p2.rotation == p0.rotation && p2.arc
            == p0.arc,
        p1.state.latest == p0.state.latest && p2.state.latest == p0.state.latest,
        p1.text.fingers == p0.text.fingers && p2.text.fingers == p0.text.fingers,
        p1.text.pinch_flag == p0.text.pinch_flag && p2.text.pinch_flag == p0.text.pinch_flag,
        p1.text.rotate_flag == p0.text.rotate_flag && p2.text.rotate_flag == p0.text.rotate_flag,
        p1.text.last_lock == p0.text.last_lock && p2.text.last_lock == p0.text.last_lock,
        p1.text.last_end == p0.text.last_end && p2.text.last_end == p0.text.last_end,
{
}

} // verus!
