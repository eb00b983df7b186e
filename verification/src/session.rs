//! The subscription to niri's event stream, as a state machine.
//!
//! The reader connects to the niri socket, asks for the event stream,
//! checks niri's reply, and then forwards the events that the inspector
//! uses. Each step of I/O is done by the caller; this machine decides what
//! the outcome means: which message to forward, and when and why the reader
//! stops.

use vstd::prelude::*;
use crate::ipc::{IpcMsg, NiriEvent, event_message, event_message_spec, is_event_message};

verus! {

/// niri's reply to the request for the event stream.
#[derive(Debug, PartialEq)]
pub enum StreamReply {
    /// The request was handled: events follow.
    Handled,
    /// niri answered with some other response, given by its debug text.
    Unexpected(String),
    /// niri refused the request, with this message.
    Rejected(String),
}

/// What the caller observed since the last step.
#[derive(Debug, PartialEq)]
pub enum SessionInput<M> {
    /// The socket is connected.
    Connected,
    /// Connecting failed, with this error text.
    ConnectFailed(String),
    /// Sending the request failed, with this error text.
    SendFailed(String),
    /// niri replied to the request.
    Replied(StreamReply),
    /// An event was read from the stream.
    Received(NiriEvent<M>),
    /// Reading the next event failed, with this error text.
    ReadFailed(String),
}

/// Where the reader stands.
#[derive(Debug, PartialEq)]
pub enum Phase {
    /// Next: connect to the socket.
    Connecting,
    /// Next: ask for the event stream and read the reply.
    Subscribing,
    /// Next: read an event.
    Streaming,
    /// The reader has stopped, for this reason.
    Stopped(String),
}

pub open spec fn connect_context() -> Seq<char> {
    "failed to connect to niri IPC socket (is niri running?)"@
}

pub open spec fn send_context() -> Seq<char> {
    "failed to send Request::EventStream"@
}

pub open spec fn read_context() -> Seq<char> {
    "error reading event from niri socket"@
}

pub open spec fn unexpected_prefix() -> Seq<char> {
    "unexpected response to EventStream: "@
}

pub open spec fn rejected_prefix() -> Seq<char> {
    "niri rejected EventStream: "@
}

/// An error text under a context: the context, a colon and a space, then
/// the error.
pub open spec fn in_context(context: Seq<char>, cause: Seq<char>) -> Seq<char> {
    context + ": "@ + cause
}

/// The view of a phase: the stop reason taken by its characters.
pub enum PhaseView {
    Connecting,
    Subscribing,
    Streaming,
    Stopped(Seq<char>),
}

pub open spec fn phase_view(p: Phase) -> PhaseView {
    match p {
        Phase::Connecting => PhaseView::Connecting,
        Phase::Subscribing => PhaseView::Subscribing,
        Phase::Streaming => PhaseView::Streaming,
        Phase::Stopped(r) => PhaseView::Stopped(r@),
    }
}

/// The phase after `input` in phase `p`. An input that does not belong to
/// the phase leaves it as it was.
pub open spec fn next_phase<M>(p: PhaseView, input: SessionInput<M>) -> PhaseView {
    match (p, input) {
        (PhaseView::Connecting, SessionInput::Connected) => PhaseView::Subscribing,
        (PhaseView::Connecting, SessionInput::ConnectFailed(e)) => PhaseView::Stopped(
            in_context(connect_context(), e@),
        ),
        (PhaseView::Subscribing, SessionInput::SendFailed(e)) => PhaseView::Stopped(
            in_context(send_context(), e@),
        ),
        (PhaseView::Subscribing, SessionInput::Replied(StreamReply::Handled)) => PhaseView::Streaming,
        (PhaseView::Subscribing, SessionInput::Replied(StreamReply::Unexpected(d))) => PhaseView::Stopped(
            unexpected_prefix() + d@,
        ),
        (PhaseView::Subscribing, SessionInput::Replied(StreamReply::Rejected(e))) => PhaseView::Stopped(
            rejected_prefix() + e@,
        ),
        (PhaseView::Streaming, SessionInput::ReadFailed(e)) => PhaseView::Stopped(
            in_context(read_context(), e@),
        ),
        _ => p,
    }
}

/// The message forwarded on `input` in phase `p`, if any.
pub open spec fn step_output<M>(p: PhaseView, input: SessionInput<M>) -> Option<IpcMsg<M>> {
    match (p, input) {
        (PhaseView::Subscribing, SessionInput::Replied(StreamReply::Handled)) => Some(
            IpcMsg::Connected,
        ),
        (PhaseView::Streaming, SessionInput::Received(ev)) => event_message_spec(ev),
        _ => None,
    }
}

/// The reader's state machine.
pub struct Session {
    pub phase: Phase,
}

impl Session {
    /// A reader that has not connected yet.
    pub fn new() -> (s: Session)
        ensures
            s.phase == Phase::Connecting,
    {
        Session { phase: Phase::Connecting }
    }

    /// True once the reader has stopped.
    pub fn is_stopped(&self) -> (b: bool)
        ensures
            b <==> self.phase is Stopped,
    {
        match self.phase {
            Phase::Stopped(_) => true,
            _ => false,
        }
    }

    /// Takes in what the caller observed, and returns the message to
    /// forward to the panel, if any.
    ///
    /// A failure to connect, to send the request or to read an event stops
    /// the reader, with the error text under the step's context. A reply
    /// other than `Handled` stops it too. A `Handled` reply forwards
    /// `Connected` and starts the stream; each event read then is forwarded
    /// as `event_message` makes it.
    pub fn step<M>(&mut self, input: SessionInput<M>) -> (out: Option<IpcMsg<M>>)
        ensures
            phase_view(final(self).phase) == next_phase(phase_view(old(self).phase), input),
            out == step_output(phase_view(old(self).phase), input),
    {
        let mut cur = Phase::Connecting;
        std::mem::swap(&mut cur, &mut self.phase);
        match (cur, input) {
            (Phase::Connecting, SessionInput::Connected) => {
                self.phase = Phase::Subscribing;
                None
            },
            (Phase::Connecting, SessionInput::ConnectFailed(e)) => {
                let mut r = String::from_str("failed to connect to niri IPC socket (is niri running?): ");
                proof {
                    reveal_strlit("failed to connect to niri IPC socket (is niri running?): ");
                    reveal_strlit("failed to connect to niri IPC socket (is niri running?)");
                    reveal_strlit(": ");
                }
                r.append(e.as_str());
                assert(r@ == in_context(connect_context(), e@));
                self.phase = Phase::Stopped(r);
                None
            },
            (Phase::Subscribing, SessionInput::SendFailed(e)) => {
                let mut r = String::from_str("failed to send Request::EventStream: ");
                proof {
                    reveal_strlit("failed to send Request::EventStream: ");
                    reveal_strlit("failed to send Request::EventStream");
                    reveal_strlit(": ");
                }
                r.append(e.as_str());
                assert(r@ == in_context(send_context(), e@));
                self.phase = Phase::Stopped(r);
                None
            },
            (Phase::Subscribing, SessionInput::Replied(StreamReply::Handled)) => {
                self.phase = Phase::Streaming;
                Some(IpcMsg::Connected)
            },
            (Phase::Subscribing, SessionInput::Replied(StreamReply::Unexpected(d))) => {
                let mut r = String::from_str("unexpected response to EventStream: ");
                r.append(d.as_str());
                self.phase = Phase::Stopped(r);
                None
            },
            (Phase::Subscribing, SessionInput::Replied(StreamReply::Rejected(e))) => {
                let mut r = String::from_str("niri rejected EventStream: ");
                r.append(e.as_str());
                self.phase = Phase::Stopped(r);
                None
            },
            (Phase::Streaming, SessionInput::Received(ev)) => {
                self.phase = Phase::Streaming;
                event_message(ev)
            },
            (Phase::Streaming, SessionInput::ReadFailed(e)) => {
                let mut r = String::from_str("error reading event from niri socket: ");
                proof {
                    reveal_strlit("error reading event from niri socket: ");
                    reveal_strlit("error reading event from niri socket");
                    reveal_strlit(": ");
                }
                r.append(e.as_str());
                assert(r@ == in_context(read_context(), e@));
                self.phase = Phase::Stopped(r);
                None
            },
            (other, _) => {
                self.phase = other;
                None
            },
        }
    }
}

/// The messages of an optional message, as a sequence.
pub open spec fn emitted<M>(out: Option<IpcMsg<M>>) -> Seq<IpcMsg<M>> {
    match out {
        Some(m) => seq![m],
        None => Seq::empty(),
    }
}

/// The phase reached and the messages forwarded when the inputs are taken
/// in order, starting in phase `p`.
pub open spec fn run<M>(p: PhaseView, inputs: Seq<SessionInput<M>>) -> (PhaseView, Seq<IpcMsg<M>>)
    decreases inputs.len(),
{
    if inputs.len() == 0 {
        (p, Seq::empty())
    } else {
        let (q, out) = run(p, inputs.drop_last());
        (next_phase(q, inputs.last()), out + emitted(step_output(q, inputs.last())))
    }
}

/// What holds of the messages forwarded from a fresh start, once the
/// session is in phase `q`.
pub open spec fn fresh_run_shape<M>(q: PhaseView, out: Seq<IpcMsg<M>>) -> bool {
    &&& (q is Connecting || q is Subscribing) ==> out.len() == 0
    &&& q is Streaming ==> out.len() > 0
    &&& out.len() > 0 ==> out[0] is Connected
    &&& forall|i: int| 0 < i < out.len() ==> #[trigger] is_event_message(out[i])
}

/// From a fresh start, whatever the caller observes: the first message
/// forwarded is `Connected`, and every later one is an event message
/// (a frame, a gesture lock or a gesture end). So `Connected` is forwarded
/// at most once, before any event, and the reader itself never forwards
/// `Disconnected`.
pub proof fn lemma_connected_comes_first<M>(inputs: Seq<SessionInput<M>>)
    ensures
        fresh_run_shape(run(PhaseView::Connecting, inputs).0, run(PhaseView::Connecting, inputs).1),
    decreases inputs.len(),
{
    if inputs.len() > 0 {
        let prev = inputs.drop_last();
        lemma_connected_comes_first(prev);
        let (q, out) = run(PhaseView::Connecting, prev);
        let x = inputs.last();
        let o = step_output(q, x);
        let out2 = out + emitted(o);
        if let Some(m) = o {
            if q is Streaming {
                assert(is_event_message(m));
            }
        }
        assert forall|i: int| 0 < i < out2.len() implies #[trigger] is_event_message(out2[i]) by {
            if i < out.len() {
                assert(out2[i] == out[i]);
            }
        }
    }
}

/// A stopped reader stays stopped, for the same reason, and forwards
/// nothing, whatever it is given.
pub proof fn lemma_stopped_is_final<M>(reason: Seq<char>, inputs: Seq<SessionInput<M>>)
    ensures
        run(PhaseView::Stopped(reason), inputs).0 == PhaseView::Stopped(reason),
        run(PhaseView::Stopped(reason), inputs).1.len() == 0,
    decreases inputs.len(),
{
    if inputs.len() > 0 {
        lemma_stopped_is_final(reason, inputs.drop_last());
    }
}

/// While streaming, every event read keeps the session streaming; a
/// recognition frame is forwarded as a `Frame` with each of the event's
/// fields unchanged, a gesture begin as a lock with its tag, trigger and
/// finger count, a gesture end with its tag and completion, and any other
/// event is dropped.
pub proof fn lemma_streaming_forwards_events<M>(event: NiriEvent<M>)
    ensures
        next_phase(PhaseView::Streaming, SessionInput::Received(event)) == PhaseView::Streaming,
        event matches NiriEvent::RecognitionFrame {
            finger_count,
            swipe_distance,
            swipe_trigger_distance,
            spread_change,
            pinch_trigger_distance,
            rotation_rad,
            rotation_trigger_angle_rad,
            rotation_arc,
            rotation_arc_trigger_distance,
            is_rotate,
            is_pinch,
            closest,
            timestamp_ms,
        } ==> step_output(PhaseView::Streaming, SessionInput::Received(event)) matches Some(IpcMsg::Frame(s))
            && s.finger_count == finger_count
            && s.swipe_distance == swipe_distance
            && s.swipe_trigger_distance == swipe_trigger_distance
            && s.spread_change == spread_change
            && s.pinch_trigger_distance == pinch_trigger_distance
            && s.rotation_rad == rotation_rad
            && s.rotation_trigger_angle_rad == rotation_trigger_angle_rad
            && s.rotation_arc == rotation_arc
            && s.rotation_arc_trigger_distance == rotation_arc_trigger_distance
            && s.is_rotate == is_rotate
            && s.is_pinch == is_pinch
            && s.closest == closest
            && s.timestamp_ms == timestamp_ms,
        event matches NiriEvent::GestureBegin { tag, trigger, finger_count } ==> step_output(PhaseView::Streaming, SessionInput::Received(event)) matches Some(
            IpcMsg::GestureLocked { tag: t, trigger: r, finger_count: n },
        ) && t == tag && r == trigger && n == finger_count,
        event matches NiriEvent::GestureEnd { tag, completed } ==> step_output(PhaseView::Streaming, SessionInput::Received(event)) matches Some(
            IpcMsg::GestureEnded { tag: t, completed: c },
        ) && t == tag && c == completed,
        event is Other ==> step_output(PhaseView::Streaming, SessionInput::Received(event)) is None,
{
}

/// How each step of the subscription ends, with the exact stop reasons: a
/// connect, send or read failure stops with the step's context, a colon,
/// a space and the error; a reply other than `Handled` stops with niri's
/// answer; `Handled` forwards `Connected` and starts the stream.
pub proof fn lemma_subscription_outcomes<M>(e: String)
    ensures
        next_phase(PhaseView::Connecting, SessionInput::<M>::Connected) == PhaseView::Subscribing,
        step_output(PhaseView::Connecting, SessionInput::<M>::Connected) is None,
        next_phase(PhaseView::Connecting, SessionInput::<M>::ConnectFailed(e)) == PhaseView::Stopped(
            "failed to connect to niri IPC socket (is niri running?): "@ + e@,
        ),
        step_output(PhaseView::Connecting, SessionInput::<M>::ConnectFailed(e)) is None,
        next_phase(PhaseView::Subscribing, SessionInput::<M>::SendFailed(e)) == PhaseView::Stopped(
            "failed to send Request::EventStream: "@ + e@,
        ),
        step_output(PhaseView::Subscribing, SessionInput::<M>::SendFailed(e)) is None,
        next_phase(PhaseView::Subscribing, SessionInput::<M>::Replied(StreamReply::Handled))
            == PhaseView::Streaming,
        step_output(PhaseView::Subscribing, SessionInput::<M>::Replied(StreamReply::Handled))
            == Some(IpcMsg::<M>::Connected),
        next_phase(PhaseView::Subscribing, SessionInput::<M>::Replied(StreamReply::Unexpected(e)))
            == PhaseView::Stopped("unexpected response to EventStream: "@ + e@),
        step_output(PhaseView::Subscribing, SessionInput::<M>::Replied(StreamReply::Unexpected(e))) is None,
        next_phase(PhaseView::Subscribing, SessionInput::<M>::Replied(StreamReply::Rejected(e)))
            == PhaseView::Stopped("niri rejected EventStream: "@ + e@),
        step_output(PhaseView::Subscribing, SessionInput::<M>::Replied(StreamReply::Rejected(e))) is None,
        next_phase(PhaseView::Streaming, SessionInput::<M>::ReadFailed(e)) == PhaseView::Stopped(
            "error reading event from niri socket: "@ + e@,
        ),
        step_output(PhaseView::Streaming, SessionInput::<M>::ReadFailed(e)) is None,
{
    reveal_strlit("failed to connect to niri IPC socket (is niri running?): ");
    reveal_strlit("failed to connect to niri IPC socket (is niri running?)");
    reveal_strlit("failed to send Request::EventStream: ");
    reveal_strlit("failed to send Request::EventStream");
    reveal_strlit("error reading event from niri socket: ");
    reveal_strlit("error reading event from niri socket");
    reveal_strlit(": ");
    assert(in_context(connect_context(), e@) =~= "failed to connect to niri IPC socket (is niri running?): "@ + e@);
    assert(in_context(send_context(), e@) =~= "failed to send Request::EventStream: "@ + e@);
    assert(in_context(read_context(), e@) =~= "error reading event from niri socket: "@ + e@);
}

/// The events, other than `Other`, received while the session streams,
/// in the order they came.
pub open spec fn streamed<M>(p: PhaseView, inputs: Seq<SessionInput<M>>) -> Seq<NiriEvent<M>>
    decreases inputs.len(),
{
    if inputs.len() == 0 {
        Seq::empty()
    } else {
        let prev = streamed(p, inputs.drop_last());
        let q = run(p, inputs.drop_last()).0;
        match (q, inputs.last()) {
            (PhaseView::Streaming, SessionInput::Received(ev)) => if ev is Other {
                prev
            } else {
                prev.push(ev)
            },
            _ => prev,
        }
    }
}

/// From a fresh start, whatever the caller observes: either nothing was
/// forwarded and no event was streamed, or the messages are `Connected`
/// followed, one for one and in order, by the message of each event
/// (other than `Other`) received while streaming.
pub proof fn lemma_forwarded_are_streamed_events<M>(inputs: Seq<SessionInput<M>>)
    ensures
        ({
            let out = run(PhaseView::Connecting, inputs).1;
            let evs = streamed(PhaseView::Connecting, inputs);
            ||| out.len() == 0 && evs.len() == 0
            ||| {
                &&& out.len() == evs.len() + 1
                &&& out[0] is Connected
                &&& forall|i: int|
                    0 <= i < evs.len() ==> event_message_spec(#[trigger] evs[i]) == Some(out[i + 1])
            }
        }),
    decreases inputs.len(),
{
    if inputs.len() > 0 {
        let prev = inputs.drop_last();
        lemma_forwarded_are_streamed_events(prev);
        lemma_connected_comes_first(prev);
        let (q, out) = run(PhaseView::Connecting, prev);
        let evs = streamed(PhaseView::Connecting, prev);
        let x = inputs.last();
        let out2 = run(PhaseView::Connecting, inputs).1;
        let evs2 = streamed(PhaseView::Connecting, inputs);
        if let (PhaseView::Streaming, SessionInput::Received(ev)) = (q, x) {
            if !(ev is Other) {
                assert(out.len() > 0);
                assert forall|i: int| 0 <= i < evs2.len() implies event_message_spec(
                    #[trigger] evs2[i],
                ) == Some(out2[i + 1]) by {
                    if i < evs.len() {
                        assert(evs2[i] == evs[i]);
                        assert(out2[i + 1] == out[i + 1]);
                    }
                }
            }
        }
    }
}

} // verus!
