//! The state behind one threshold bar: the current value of a metric, the
//! threshold it races against, and whether the classifier has committed.
//!
//! Unidirectional bars fill from the left; bidirectional bars place zero in
//! the middle and fill toward the sign of the value. The bar is drawn in
//! one of four colours, chosen by `fill_color`.

use vstd::prelude::*;

verus! {

/// State of one bar. `M` is the type of the metric values.
#[derive(Debug, Clone, Copy, PartialEq)]
pub struct BarState<M> {
    /// Signed current value (may be negative on a bidirectional bar).
    pub current: M,
    /// Positive threshold: the magnitude of the one niri reports. On a
    /// bidirectional bar its negation is drawn too.
    pub threshold: M,
    /// The classifier flag for this bar is set: the trigger has passed its
    /// commit gates.
    pub active: bool,
    /// At least one frame has reached the bar. Before that the label shows
    /// an em dash in place of a meaningless reading.
    pub seen: bool,
    /// Zero in the middle, fill toward the sign of `current`.
    pub bidirectional: bool,
}

/// What the bar's value label shows.
#[derive(Debug, Clone, Copy, PartialEq)]
pub enum BarLabel<M> {
    /// No frame yet: a dash.
    Placeholder,
    /// A reading of `current` against `threshold`.
    Reading { current: M, threshold: M },
}

/// The colour of the fill.
#[derive(Debug, Clone, Copy, PartialEq, Eq)]
pub enum FillColor {
    /// The gesture is locked in (green).
    Locked,
    /// The threshold is crossed but the gesture is not committed: the race
    /// state (red).
    Crossed,
    /// At least half way to the threshold (yellow).
    Approaching,
    /// Below half of the threshold (neutral).
    Calm,
}

/// A fresh bar: nothing seen, the fill and the threshold at `rest`.
pub open spec fn fresh<M>(bidirectional: bool, rest: M) -> BarState<M> {
    BarState { current: rest, threshold: rest, active: false, seen: false, bidirectional }
}

/// The bar after a frame's worth of data.
pub open spec fn updated<M>(b: BarState<M>, current: M, threshold: M, active: bool) -> BarState<M> {
    BarState { current, threshold, active, seen: true, bidirectional: b.bidirectional }
}

/// The bar after the touch ended: the fill back at `rest`, not active; the
/// threshold and whether a frame was seen stay, so that the target stays
/// visible between gestures.
pub open spec fn cleared<M>(b: BarState<M>, rest: M) -> BarState<M> {
    BarState { current: rest, active: false, ..b }
}

/// The label of a bar in state `b`.
pub open spec fn label_of<M>(b: BarState<M>) -> BarLabel<M> {
    if b.seen {
        BarLabel::Reading { current: b.current, threshold: b.threshold }
    } else {
        BarLabel::Placeholder
    }
}

/// The fill colour: green when active, whatever the value; otherwise red
/// once the magnitude reaches the threshold, yellow from half of it, and
/// neutral below.
pub open spec fn color_of(active: bool, crossed: bool, approaching: bool) -> FillColor {
    if active {
        FillColor::Locked
    } else if crossed {
        FillColor::Crossed
    } else if approaching {
        FillColor::Approaching
    } else {
        FillColor::Calm
    }
}

impl<M: Copy> BarState<M> {
    /// A bar that has seen no frame, with fill and threshold at `rest`
    /// (zero).
    pub fn new(bidirectional: bool, rest: M) -> (b: Self)
        ensures
            b == fresh(bidirectional, rest),
    {
        BarState { current: rest, threshold: rest, active: false, seen: false, bidirectional }
    }

    /// Pushes a new frame's worth of data into the bar; `threshold` is the
    /// magnitude of the reported threshold.
    pub fn update(&mut self, current: M, threshold: M, active: bool)
        ensures
            *final(self) == updated(*old(self), current, threshold, active),
    {
        self.current = current;
        self.threshold = threshold;
        self.active = active;
        self.seen = true;
    }

    /// Resets the fill to `rest` (zero) but keeps the threshold and the
    /// label, so the target stays visible while no touch is active.
    pub fn clear(&mut self, rest: M)
        ensures
            *final(self) == cleared(*old(self), rest),
    {
        self.current = rest;
        self.active = false;
    }

    /// What the value label shows: a dash until a frame was seen, then the
    /// current value against the threshold.
    pub fn label(&self) -> (l: BarLabel<M>)
        ensures
            l == label_of(*self),
    {
        if self.seen {
            BarLabel::Reading { current: self.current, threshold: self.threshold }
        } else {
            BarLabel::Placeholder
        }
    }

    /// The fill colour, given whether the magnitude of the current value
    /// has reached the threshold (`crossed`) and half of it
    /// (`approaching`).
    pub fn fill_color(&self, crossed: bool, approaching: bool) -> (c: FillColor)
        ensures
            c == color_of(self.active, crossed, approaching),
    {
        if self.active {
            FillColor::Locked
        } else if crossed {
            FillColor::Crossed
        } else if approaching {
            FillColor::Approaching
        } else {
            FillColor::Calm
        }
    }
}

/// The text of a label before any frame: an em dash.
pub open spec fn placeholder_text() -> Seq<char> {
    "—"@
}

/// The text of a reading label, from the rendered current value and
/// threshold: `current / threshold unit`, with a `±` before the threshold
/// on a bidirectional bar.
pub open spec fn reading_text(
    bidirectional: bool,
    current: Seq<char>,
    threshold: Seq<char>,
    unit: Seq<char>,
) -> Seq<char> {
    current + " / "@ + (if bidirectional {
        "±"@
    } else {
        Seq::empty()
    }) + threshold + " "@ + unit
}

/// The label text before any frame.
pub fn placeholder_label() -> (s: String)
    ensures
        s@ == placeholder_text(),
{
    String::from_str("—")
}

/// Composes a reading label from the rendered numbers and the unit.
pub fn reading_label(bidirectional: bool, current: &str, threshold: &str, unit: &str) -> (s: String)
    ensures
        s@ == reading_text(bidirectional, current@, threshold@, unit@),
        bidirectional ==> s@ == current@ + " / ±"@ + threshold@ + " "@ + unit@,
        !bidirectional ==> s@ == current@ + " / "@ + threshold@ + " "@ + unit@,
{
    let mut s = String::from_str(current);
    s.append(" / ");
    if bidirectional {
        s.append("±");
    }
    s.append(threshold);
    s.append(" ");
    s.append(unit);
    proof {
        reveal_strlit("");
        lemma_reading_layout(current@, threshold@, unit@);
    }
    s
}

/// Clearing a bar twice leaves it as clearing it once.
pub proof fn lemma_clear_idempotent<M>(b: BarState<M>, rest: M)
    ensures
        cleared(cleared(b, rest), rest) == cleared(b, rest),
{
}

/// Clearing a bar keeps its target visible: a bar that has seen a frame
/// still labels the threshold it last had, now against `rest`; a bar that
/// has seen none still shows the dash. The threshold itself never changes
/// on a clear.
pub proof fn lemma_clear_keeps_target<M>(b: BarState<M>, rest: M)
    ensures
        cleared(b, rest).threshold == b.threshold,
        b.seen ==> label_of(cleared(b, rest)) == (BarLabel::Reading {
            current: rest,
            threshold: b.threshold,
        }),
        !b.seen ==> label_of(cleared(b, rest)) == BarLabel::<M>::Placeholder,
{
}

/// After an update the label reads the values given, and a clear after it
/// keeps that threshold; the colour of an active bar is green whatever the
/// value.
pub proof fn lemma_update_then_clear<M>(
    b: BarState<M>,
    current: M,
    threshold: M,
    active: bool,
    rest: M,
    crossed: bool,
    approaching: bool,
)
    ensures
        label_of(updated(b, current, threshold, active)) == (BarLabel::Reading { current, threshold }),
        label_of(cleared(updated(b, current, threshold, active), rest)) == (BarLabel::Reading {
            current: rest,
            threshold,
        }),
        active ==> color_of(updated(b, current, threshold, active).active, crossed, approaching)
            == FillColor::Locked,
        color_of(cleared(b, rest).active, crossed, approaching) != FillColor::Locked,
{
}

/// One operation on a bar.
pub enum BarOp<M> {
    /// A frame's worth of data: `threshold` is the magnitude of the
    /// reported threshold.
    Update { current: M, threshold: M, active: bool },
    /// The touch ended; the fill returns to `rest`.
    Clear { rest: M },
}

/// The bar after one operation.
pub open spec fn apply_op<M>(b: BarState<M>, op: BarOp<M>) -> BarState<M> {
    match op {
        BarOp::Update { current, threshold, active } => updated(b, current, threshold, active),
        BarOp::Clear { rest } => cleared(b, rest),
    }
}

/// The bar after the operations, in order.
pub open spec fn apply_ops<M>(b: BarState<M>, ops: Seq<BarOp<M>>) -> BarState<M>
    decreases ops.len(),
{
    if ops.len() == 0 {
        b
    } else {
        apply_op(apply_ops(b, ops.drop_last()), ops.last())
    }
}

/// Whether some operation is an update.
pub open spec fn has_update<M>(ops: Seq<BarOp<M>>) -> bool {
    exists|i: int| 0 <= i < ops.len() && (#[trigger] ops[i]) is Update
}

/// Over any sequence of updates and clears: the bar keeps its layout
/// (`bidirectional`); it has seen a frame exactly when it had before or
/// some operation was an update; and its threshold is the one of the last
/// update, or the one it started with if there was none.
pub proof fn lemma_bar_history<M>(b: BarState<M>, ops: Seq<BarOp<M>>)
    ensures
        apply_ops(b, ops).bidirectional == b.bidirectional,
        apply_ops(b, ops).seen == (b.seen || has_update(ops)),
        !has_update(ops) ==> apply_ops(b, ops).threshold == b.threshold,
        has_update(ops) ==> exists|i: int|
            0 <= i < ops.len() && (#[trigger] ops[i]) is Update
                && apply_ops(b, ops).threshold == ops[i]->Update_threshold
                && forall|j: int| i < j < ops.len() ==> (#[trigger] ops[j]) is Clear,
    decreases ops.len(),
{
    if ops.len() > 0 {
        let prev = ops.drop_last();
        lemma_bar_history(b, prev);
        let last = ops.last();
        if has_update(prev) {
            let i = choose|i: int|
                0 <= i < prev.len() && (#[trigger] prev[i]) is Update
                    && apply_ops(b, prev).threshold == prev[i]->Update_threshold
                    && forall|j: int| i < j < prev.len() ==> (#[trigger] prev[j]) is Clear;
            assert(ops[i] == prev[i]);
            if last is Clear {
                assert forall|j: int| i < j < ops.len() implies (#[trigger] ops[j]) is Clear by {
                    if j < prev.len() {
                        assert(ops[j] == prev[j]);
                    }
                }
            }
        }
        if last is Update {
            assert(ops[ops.len() - 1] is Update);
        } else {
            if has_update(ops) {
                let k = choose|k: int| 0 <= k < ops.len() && (#[trigger] ops[k]) is Update;
                assert(prev[k] == ops[k]);
            }
        }
    }
}

/// From a fresh bar: the layout is the one it was built with, and it shows
/// the dash until the first update and a reading ever after.
pub proof fn lemma_fresh_bar_history<M>(bidirectional: bool, rest: M, ops: Seq<BarOp<M>>)
    ensures
        apply_ops(fresh(bidirectional, rest), ops).bidirectional == bidirectional,
        apply_ops(fresh(bidirectional, rest), ops).seen == has_update(ops),
        label_of(apply_ops(fresh(bidirectional, rest), ops)) is Placeholder <==> !has_update(ops),
{
    lemma_bar_history(fresh(bidirectional, rest), ops);
}

/// The shape of a reading label depends on the layout alone: a
/// bidirectional bar reads `current / ±threshold unit`, a unidirectional
/// one `current / threshold unit`, whatever the numbers and the unit.
pub proof fn lemma_reading_layout(current: Seq<char>, threshold: Seq<char>, unit: Seq<char>)
    ensures
        reading_text(true, current, threshold, unit) == current + " / ±"@ + threshold + " "@ + unit,
        reading_text(false, current, threshold, unit) == current + " / "@ + threshold + " "@ + unit,
{
    reveal_strlit(" / ±");
    reveal_strlit(" / ");
    reveal_strlit("±");
    assert(" / "@ + "±"@ =~= " / ±"@);
    assert(current + " / "@ + "±"@ + threshold + " "@ + unit =~= current + " / ±"@ + threshold + " "@ + unit);
    assert(current + " / "@ + Seq::<char>::empty() + threshold + " "@ + unit =~= current + " / "@ + threshold + " "@ + unit);
}

/// What an update and a clear do to each field of a bar, and what the
/// label and the placeholder then show.
pub proof fn lemma_bar_fields<M>(b: BarState<M>, current: M, threshold: M, active: bool, rest: M)
    ensures
        updated(b, current, threshold, active).current == current,
        updated(b, current, threshold, active).threshold == threshold,
        updated(b, current, threshold, active).active == active,
        updated(b, current, threshold, active).seen,
        updated(b, current, threshold, active).bidirectional == b.bidirectional,
        cleared(b, rest).current == rest,
        !cleared(b, rest).active,
        cleared(b, rest).threshold == b.threshold,
        cleared(b, rest).seen == b.seen,
        cleared(b, rest).bidirectional == b.bidirectional,
        b.seen ==> label_of(b) == (BarLabel::Reading { current: b.current, threshold: b.threshold }),
        !b.seen ==> label_of(b) == BarLabel::<M>::Placeholder,
        fresh(b.bidirectional, rest).current == rest,
        !fresh(b.bidirectional, rest).seen,
        !fresh(b.bidirectional, rest).active,
        placeholder_text() == "—"@,
{
}

/// The colour precedence: green whenever the bar is active; otherwise red
/// once crossed, yellow when only half way, neutral below.
pub proof fn lemma_color_precedence(crossed: bool, approaching: bool)
    ensures
        color_of(true, crossed, approaching) == FillColor::Locked,
        color_of(false, true, approaching) == FillColor::Crossed,
        color_of(false, false, true) == FillColor::Approaching,
        color_of(false, false, false) == FillColor::Calm,
{
}

} // verus!
