//! Messages that the IPC reader hands to the panel, and how niri's events
//! become such messages.

use vstd::prelude::*;

verus! {

/// Snapshot of one recognizer frame, forwarded to the panel.
///
/// These are the fields of niri's `RecognitionFrame` event flattened into
/// an owned struct so the panel does not depend on the event's shape.
/// `M` is the type of the metric values (distances in pixels, angles in
/// radians).
#[derive(Debug, Clone, PartialEq)]
pub struct FrameSnapshot<M> {
    pub finger_count: u8,
    pub swipe_distance: M,
    pub swipe_trigger_distance: M,
    pub spread_change: M,
    pub pinch_trigger_distance: M,
    pub rotation_rad: M,
    pub rotation_trigger_angle_rad: M,
    pub rotation_arc: M,
    pub rotation_arc_trigger_distance: M,
    pub is_rotate: bool,
    pub is_pinch: bool,
    pub closest: String,
    pub timestamp_ms: u32,
}

/// Messages sent from the IPC reader to the panel.
#[derive(Debug, Clone, PartialEq)]
pub enum IpcMsg<M> {
    /// The connection is up and events are being read.
    Connected,
    /// A new recognition frame arrived.
    Frame(FrameSnapshot<M>),
    /// A tagged gesture just latched: the point where niri committed to a
    /// classification.
    GestureLocked { tag: String, trigger: String, finger_count: u8 },
    /// A tagged gesture ended.
    GestureEnded { tag: String, completed: bool },
    /// The reader stopped, on a clean end of stream or an error; the text
    /// says which.
    Disconnected(String),
}

/// The events of niri's event stream, as far as the inspector reads them.
/// Every event that the inspector has no use for is `Other`.
#[derive(Debug, Clone, PartialEq)]
pub enum NiriEvent<M> {
    RecognitionFrame {
        finger_count: u8,
        swipe_distance: M,
        swipe_trigger_distance: M,
        spread_change: M,
        pinch_trigger_distance: M,
        rotation_rad: M,
        rotation_trigger_angle_rad: M,
        rotation_arc: M,
        rotation_arc_trigger_distance: M,
        is_rotate: bool,
        is_pinch: bool,
        closest: String,
        timestamp_ms: u32,
    },
    GestureBegin { tag: String, trigger: String, finger_count: u8 },
    GestureEnd { tag: String, completed: bool },
    Other,
}

/// The message that an event is forwarded as, if any.
pub open spec fn event_message_spec<M>(event: NiriEvent<M>) -> Option<IpcMsg<M>> {
    match event {
        NiriEvent::RecognitionFrame {
            finger_count,
            swipe_distance,
            swipe_trigger_distance,
            spread_change,
            pinch_trigger_distance,
            rotation_rad,
            rotation_trigger_angle_rad,
            rotation_arc,
            rotation_arc_trigger_distance,
            is_rotate,
            is_pinch,
            closest,
            timestamp_ms,
        } => Some(
            IpcMsg::Frame(
                FrameSnapshot {
                    finger_count,
                    swipe_distance,
                    swipe_trigger_distance,
                    spread_change,
                    pinch_trigger_distance,
                    rotation_rad,
                    rotation_trigger_angle_rad,
                    rotation_arc,
                    rotation_arc_trigger_distance,
                    is_rotate,
                    is_pinch,
                    closest,
                    timestamp_ms,
                },
            ),
        ),
        NiriEvent::GestureBegin { tag, trigger, finger_count } => Some(
            IpcMsg::GestureLocked { tag, trigger, finger_count },
        ),
        NiriEvent::GestureEnd { tag, completed } => Some(IpcMsg::GestureEnded { tag, completed }),
        NiriEvent::Other => None,
    }
}

/// True of the messages that stand for an event of the stream.
pub open spec fn is_event_message<M>(msg: IpcMsg<M>) -> bool {
    ||| msg is Frame
    ||| msg is GestureLocked
    ||| msg is GestureEnded
}

/// Converts a niri event into the message that the panel gets: recognition
/// frames, gesture begins (as locks) and gesture ends are forwarded with
/// their fields; every other event is dropped.
pub fn event_message<M>(event: NiriEvent<M>) -> (msg: Option<IpcMsg<M>>)
    ensures
        msg == event_message_spec(event),
        event matches NiriEvent::RecognitionFrame {
            finger_count,
            swipe_distance,
            swipe_trigger_distance,
            spread_change,
            pinch_trigger_distance,
            rotation_rad,
            rotation_trigger_angle_rad,
            rotation_arc,
            rotation_arc_trigger_distance,
            is_rotate,
            is_pinch,
            closest,
            timestamp_ms,
        } ==> msg matches Some(IpcMsg::Frame(s))
            && s.finger_count == finger_count
            && s.swipe_distance == swipe_distance
            && s.swipe_trigger_distance == swipe_trigger_distance
            && s.spread_change == spread_change
            && s.pinch_trigger_distance == pinch_trigger_distance
            && s.rotation_rad == rotation_rad
            && s.rotation_trigger_angle_rad == rotation_trigger_angle_rad
            && s.rotation_arc == rotation_arc
            && s.rotation_arc_trigger_distance == rotation_arc_trigger_distance
            && s.is_rotate == is_rotate
            && s.is_pinch == is_pinch
            && s.closest == closest
            && s.timestamp_ms == timestamp_ms,
        event matches NiriEvent::GestureBegin { tag, trigger, finger_count } ==> msg matches Some(
            IpcMsg::GestureLocked { tag: t, trigger: r, finger_count: n },
        ) && t == tag && r == trigger && n == finger_count,
        event matches NiriEvent::GestureEnd { tag, completed } ==> msg matches Some(
            IpcMsg::GestureEnded { tag: t, completed: c },
        ) && t == tag && c == completed,
        event is Other ==> msg is None,
        msg matches Some(m) ==> is_event_message(m),
{
    match event {
        NiriEvent::RecognitionFrame {
            finger_count,
            swipe_distance,
            swipe_trigger_distance,
            spread_change,
            pinch_trigger_distance,
            rotation_rad,
            rotation_trigger_angle_rad,
            rotation_arc,
            rotation_arc_trigger_distance,
            is_rotate,
            is_pinch,
            closest,
            timestamp_ms,
        } => Some(
            IpcMsg::Frame(
                FrameSnapshot {
                    finger_count,
                    swipe_distance,
                    swipe_trigger_distance,
                    spread_change,
                    pinch_trigger_distance,
                    rotation_rad,
                    rotation_trigger_angle_rad,
                    rotation_arc,
                    rotation_arc_trigger_distance,
                    is_rotate,
                    is_pinch,
                    closest,
                    timestamp_ms,
                },
            ),
        ),
        NiriEvent::GestureBegin { tag, trigger, finger_count } => Some(
            IpcMsg::GestureLocked { tag, trigger, finger_count },
        ),
        NiriEvent::GestureEnd { tag, completed } => Some(IpcMsg::GestureEnded { tag, completed }),
        NiriEvent::Other => None,
    }
}

/// The reason that the reader reports when it stops after a clean end of
/// the stream.
pub open spec fn clean_end_reason() -> Seq<char> {
    "clean EOF from niri socket"@
}

/// The last message of a reader: `Disconnected` with the text of the error
/// that stopped it, or with a note of a clean end of stream.
pub fn disconnect_message<M>(outcome: Result<(), String>) -> (msg: IpcMsg<M>)
    ensures
        msg is Disconnected,
        outcome is Ok ==> msg->Disconnected_0@ == clean_end_reason(),
        outcome is Ok ==> msg->Disconnected_0@ == "clean EOF from niri socket"@,
        outcome matches Err(e) ==> msg->Disconnected_0 == e,
{
    match outcome {
        Ok(()) => IpcMsg::Disconnected(String::from_str("clean EOF from niri socket")),
        Err(e) => IpcMsg::Disconnected(e),
    }
}

/// Every recognition frame is forwarded as a `Frame` whose fields are the
/// event's fields, each unchanged; a gesture begin as a lock with its tag,
/// trigger and finger count; a gesture end with its tag and completion;
/// every other event is dropped.
pub proof fn lemma_events_forwarded_field_by_field<M>(event: NiriEvent<M>)
    ensures
        event matches NiriEvent::RecognitionFrame {
            finger_count,
            swipe_distance,
            swipe_trigger_distance,
            spread_change,
            pinch_trigger_distance,
            rotation_rad,
            rotation_trigger_angle_rad,
            rotation_arc,
            rotation_arc_trigger_distance,
            is_rotate,
            is_pinch,
            closest,
            timestamp_ms,
        } ==> event_message_spec(event) matches Some(IpcMsg::Frame(s))
            && s.finger_count == finger_count
            && s.swipe_distance == swipe_distance
            && s.swipe_trigger_distance == swipe_trigger_distance
            && s.spread_change == spread_change
            && s.pinch_trigger_distance == pinch_trigger_distance
            && s.rotation_rad == rotation_rad
            && s.rotation_trigger_angle_rad == rotation_trigger_angle_rad
            && s.rotation_arc == rotation_arc
            && s.rotation_arc_trigger_distance == rotation_arc_trigger_distance
            && s.is_rotate == is_rotate
            && s.is_pinch == is_pinch
            && s.closest == closest
            && s.timestamp_ms == timestamp_ms,
        event matches NiriEvent::GestureBegin { tag, trigger, finger_count } ==> event_message_spec(event) matches Some(
            IpcMsg::GestureLocked { tag: t, trigger: r, finger_count: n },
        ) && t == tag && r == trigger && n == finger_count,
        event matches NiriEvent::GestureEnd { tag, completed } ==> event_message_spec(event) matches Some(
            IpcMsg::GestureEnded { tag: t, completed: c },
        ) && t == tag && c == completed,
        event is Other ==> event_message_spec(event) is None,
{
}

} // verus!
