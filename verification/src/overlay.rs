use vstd::prelude::*;

verus! {

/// What the overlay's UI loop observes: a dequeued display request, or a
/// tick of the slow hide timer.
#[derive(Clone, Copy, Debug, PartialEq, Eq, Structural)]
pub enum OverlayEvent {
    Request,
    HideTick,
}

/// Debounced auto-hide state of the overlay window.
///
/// `visible` is the window state; `pending` records whether a request
/// arrived since the previous hide tick. A request shows the window and
/// marks it active; a hide tick either consumes that mark (a request
/// arrived in time, the window stays up) or, finding none, hides the
/// window. Rapid requests therefore keep the window visible without
/// flicker, and a full quiet interval hides it.
#[derive(Clone, Copy, Debug, PartialEq, Eq, Structural)]
pub struct OverlayTimer {
    pub visible: bool,
    pub pending: bool,
}

/// The transition relation of the auto-hide machine.
pub open spec fn overlay_step(s: OverlayTimer, e: OverlayEvent) -> OverlayTimer {
    match e {
        OverlayEvent::Request => OverlayTimer { visible: true, pending: true },
        OverlayEvent::HideTick => if s.pending {
            OverlayTimer { visible: s.visible, pending: false }
        } else {
            OverlayTimer { visible: false, pending: false }
        },
    }
}

/// The machine run over a whole event sequence.
pub open spec fn overlay_run(s: OverlayTimer, es: Seq<OverlayEvent>) -> OverlayTimer
    decreases es.len(),
{
    if es.len() == 0 {
        s
    } else {
        overlay_run(overlay_step(s, es[0]), es.skip(1))
    }
}

/// Whether every hide tick in `es` is preceded by a request since the
/// previous hide tick, seeded by whether one is already pending — the
/// shape of a burst of requests faster than the slow-hide interval.
pub open spec fn ticks_covered(es: Seq<OverlayEvent>, pending: bool) -> bool
    decreases es.len(),
{
    if es.len() == 0 {
        true
    } else {
        match es[0] {
            OverlayEvent::Request => ticks_covered(es.skip(1), true),
            OverlayEvent::HideTick => pending && ticks_covered(es.skip(1), false),
        }
    }
}

impl OverlayTimer {
    /// The overlay starts hidden, with no request seen.
    pub fn new() -> (t: Self)
        ensures
            !t.visible,
            !t.pending,
    {
        Self { visible: false, pending: false }
    }

    /// A dequeued display request: the window becomes visible and the
    /// hide countdown is implicitly restarted.
    pub fn on_request(&mut self)
        ensures
            *final(self) == overlay_step(*old(self), OverlayEvent::Request),
            final(self).visible,
    {
        self.visible = true;
        self.pending = true;
    }

    /// A tick of the slow hide timer; returns whether the window is to
    /// be hidden now, which happens exactly when no request arrived
    /// since the previous tick.
    pub fn on_hide_tick(&mut self) -> (hide: bool)
        ensures
            *final(self) == overlay_step(*old(self), OverlayEvent::HideTick),
            hide == !old(self).pending,
    {
        if self.pending {
            self.pending = false;
            false
        } else {
            self.visible = false;
            true
        }
    }
}

/// Requests faster than the slow-hide interval keep the window visible:
/// from any visible state, a run in which every hide tick was preceded
/// by a request since the previous tick ends visible.
pub proof fn lemma_burst_keeps_visible(s: OverlayTimer, es: Seq<OverlayEvent>)
    requires
        s.visible,
        ticks_covered(es, s.pending),
    ensures
        overlay_run(s, es).visible,
    decreases es.len(),
{
    if es.len() > 0 {
        let s2 = overlay_step(s, es[0]);
        lemma_burst_keeps_visible(s2, es.skip(1));
    }
}

/// A quiet gap of a full slow-hide interval hides the window: whatever
/// the state, two hide ticks with no request in between end hidden.
pub proof fn lemma_quiet_gap_hides(s: OverlayTimer)
    ensures
        !overlay_run(s, seq![OverlayEvent::HideTick, OverlayEvent::HideTick]).visible,
{
    let es = seq![OverlayEvent::HideTick, OverlayEvent::HideTick];
    let s1 = overlay_step(s, es[0]);
    assert(es.skip(1) =~= seq![OverlayEvent::HideTick]);
    let s2 = overlay_step(s1, OverlayEvent::HideTick);
    assert(overlay_run(s, es) == overlay_run(s1, seq![OverlayEvent::HideTick]));
    assert(seq![OverlayEvent::HideTick].skip(1) =~= Seq::<OverlayEvent>::empty());
    assert(overlay_run(s1, seq![OverlayEvent::HideTick])
        == overlay_run(s2, Seq::<OverlayEvent>::empty()));
    assert(overlay_run(s2, Seq::<OverlayEvent>::empty()) == s2);
    assert(!s1.pending);
    assert(!s2.visible);
}

} // verus!
