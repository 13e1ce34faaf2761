//! Holding frames back while the window changes size, so that none of the old
//! size flashes up.

use vstd::prelude::*;

verus! {

#[derive(Clone, Copy, Debug, PartialEq, Eq, Structural)]
pub enum PresentDecision {
    Reject,
    EndTransitionThenPresent,
    Present,
}

#[derive(Clone, Copy, Debug, PartialEq, Eq)]
pub struct TransitionGate {
    in_transition: bool,
    expected: Option<(i32, i32)>,
    captured: Option<(i32, i32)>,
}

/// A gate, part by part: whether a transition runs, the size that ends it, and
/// the size that it started from.
pub struct GateView {
    pub in_transition: bool,
    pub expected: Option<(i32, i32)>,
    pub captured: Option<(i32, i32)>,
}

pub open spec fn idle() -> GateView {
    GateView { in_transition: false, expected: None, captured: None }
}

/// What becomes of a frame of the main surface: during a transition it is
/// rejected where it is empty or still has the size the transition started
/// from, and ends the transition otherwise.
pub open spec fn decision(g: GateView, frame: (i32, i32)) -> PresentDecision {
    if !g.in_transition {
        PresentDecision::Present
    } else if frame.0 <= 0 || frame.1 <= 0 || g.captured == Some(frame) {
        PresentDecision::Reject
    } else {
        PresentDecision::EndTransitionThenPresent
    }
}

pub open spec fn after_decision(g: GateView, frame: (i32, i32)) -> GateView {
    if decision(g, frame) is EndTransitionThenPresent {
        idle()
    } else {
        g
    }
}

fn is_size(a: Option<(i32, i32)>, b: (i32, i32)) -> (r: bool)
    ensures
        r == (a == Some(b)),
{
    match a {
        Some(s) => s.0 == b.0 && s.1 == b.1,
        None => false,
    }
}

impl View for TransitionGate {
    type V = GateView;

    closed spec fn view(&self) -> GateView {
        GateView {
            in_transition: self.in_transition,
            expected: self.expected,
            captured: self.captured,
        }
    }
}

impl TransitionGate {
    pub fn new() -> (r: Self)
        ensures
            r@ == idle(),
    {
        TransitionGate { in_transition: false, expected: None, captured: None }
    }

    pub fn in_transition(&self) -> (r: bool)
        ensures
            r == self@.in_transition,
    {
        self.in_transition
    }

    pub fn expected(&self) -> (r: Option<(i32, i32)>)
        ensures
            r == self@.expected,
    {
        self.expected
    }

    pub fn begin(&mut self)
        ensures
            final(self)@ == (GateView { in_transition: true, ..old(self)@ }),
    {
        self.in_transition = true;
    }

    /// Starts a transition away from the size that the window has.
    pub fn begin_capturing(&mut self, captured_phys: (i32, i32))
        ensures
            final(self)@ == (GateView {
                in_transition: true,
                captured: Some(captured_phys),
                ..old(self)@
            }),
    {
        self.in_transition = true;
        self.captured = Some(captured_phys);
    }

    pub fn end(&mut self)
        ensures
            final(self)@ == idle(),
    {
        self.in_transition = false;
        self.expected = None;
        self.captured = None;
    }

    /// The window is to have this size. The size that a transition started from
    /// cannot end it.
    pub fn set_expected(&mut self, size: (i32, i32))
        ensures
            final(self)@ == (if old(self)@.in_transition && old(self)@.captured == Some(size) {
                old(self)@
            } else {
                GateView { expected: Some(size), ..old(self)@ }
            }),
    {
        if self.in_transition && is_size(self.captured, size) {
            return;
        }
        self.expected = Some(size);
    }

    /// A frame of this size was presented. `true` where it is the expected
    /// size, which ends the transition.
    pub fn note_present_size(&mut self, size: (i32, i32)) -> (r: bool)
        ensures
            r == (old(self)@.expected == Some(size) && size.0 > 0),
            final(self)@ == (if r {
                GateView { expected: None, in_transition: false, ..old(self)@ }
            } else {
                old(self)@
            }),
    {
        if is_size(self.expected, size) && size.0 > 0 {
            self.expected = None;
            self.in_transition = false;
            return true;
        }
        false
    }

    pub fn main_present_decision(&mut self, frame: (i32, i32)) -> (r: PresentDecision)
        ensures
            r == decision(old(self)@, frame),
            final(self)@ == after_decision(old(self)@, frame),
    {
        if !self.in_transition {
            return PresentDecision::Present;
        }
        if frame.0 <= 0 || frame.1 <= 0 || is_size(self.captured, frame) {
            return PresentDecision::Reject;
        }
        self.end();
        PresentDecision::EndTransitionThenPresent
    }
}

impl Default for TransitionGate {
    fn default() -> (r: Self)
        ensures
            r@ == idle(),
    {
        TransitionGate::new()
    }
}

/// A transition cannot get stuck: the first frame with a size of its own ends
/// it, whether or not a size was expected.
pub proof fn new_size_ends_the_transition(g: GateView, frame: (i32, i32))
    requires
        g.in_transition,
        frame.0 > 0,
        frame.1 > 0,
        g.captured != Some(frame),
    ensures
        decision(g, frame) is EndTransitionThenPresent,
        !after_decision(g, frame).in_transition,
        decision(after_decision(g, frame), frame) is Present,
{
}

/// No frame of the size that a transition started from is shown while it runs,
/// however often it comes.
pub proof fn old_size_never_shows(g: GateView, size: (i32, i32))
    requires
        g.in_transition,
        g.captured == Some(size),
    ensures
        decision(g, size) is Reject,
        after_decision(g, size) == g,
{
}

/// Frames pass while the window keeps its size, and no frame that is shown or
/// turned away then changes anything.
pub proof fn frames_pass_between_transitions(g: GateView, frame: (i32, i32))
    ensures
        !g.in_transition ==> decision(g, frame) is Present && after_decision(g, frame) == g,
        g.in_transition ==> !(decision(g, frame) is Present),
        g.in_transition && (frame.0 <= 0 || frame.1 <= 0) ==> decision(g, frame) is Reject,
        decision(g, frame) is Reject ==> after_decision(g, frame) == g,
        !idle().in_transition && idle().expected is None && idle().captured is None,
        decision(g, frame) is EndTransitionThenPresent ==> !after_decision(g, frame).in_transition
            && after_decision(g, frame).expected is None && after_decision(g, frame).captured
            is None,
{
}

/// A transition starts from the size it captured and ends at the one expected:
/// no frame of the first ends it, and one of the second does.
pub proof fn transitions_end_at_the_expected_size(
    g: &mut TransitionGate,
    from: (i32, i32),
    to: (i32, i32),
    h: &mut TransitionGate,
    i: &mut TransitionGate,
    still: PresentDecision,
    j: &mut TransitionGate,
    ended: bool,
    running: bool,
)
    requires
        from != to,
        to.0 > 0,
        call_ensures(TransitionGate::begin_capturing, (g, from), ()),
        *old(h) == *final(g),
        call_ensures(TransitionGate::set_expected, (h, to), ()),
        *old(i) == *final(h),
        call_ensures(TransitionGate::main_present_decision, (i, from), still),
        *old(j) == *final(i),
        call_ensures(TransitionGate::note_present_size, (j, to), ended),
        call_ensures(TransitionGate::in_transition, (&*final(j),), running),
    ensures
        final(g)@.in_transition,
        still is Reject,
        ended,
        !running,
{
}

/// The size that a transition starts from is never what it is expected to end
/// at.
pub proof fn the_old_size_is_not_expected(
    g: &mut TransitionGate,
    from: (i32, i32),
    h: &mut TransitionGate,
)
    requires
        call_ensures(TransitionGate::begin_capturing, (g, from), ()),
        *old(h) == *final(g),
        call_ensures(TransitionGate::set_expected, (h, from), ()),
    ensures
        final(h)@.expected == old(g)@.expected,
        final(h)@.in_transition,
{
}

/// A transition that begins without a size to start from holds back the empty
/// frames and is ended by any other, and what it waits for is as before.
pub proof fn uncaptured_transitions_end_with_content(
    fresh: TransitionGate,
    g: &mut TransitionGate,
    h: &mut TransitionGate,
    frame: (i32, i32),
    before: Option<(i32, i32)>,
    after: Option<(i32, i32)>,
    r: PresentDecision,
)
    requires
        call_ensures(TransitionGate::new, (), fresh),
        *old(g) == fresh,
        call_ensures(TransitionGate::expected, (&*old(g),), before),
        call_ensures(TransitionGate::begin, (g,), ()),
        call_ensures(TransitionGate::expected, (&*final(g),), after),
        *old(h) == *final(g),
        call_ensures(TransitionGate::main_present_decision, (h, frame), r),
    ensures
        before is None && after is None,
        r is Reject <==> frame.0 <= 0 || frame.1 <= 0,
        r is EndTransitionThenPresent <==> frame.0 > 0 && frame.1 > 0,
{
}

/// The size that was asked for last is the one that is waited for, unless the
/// running transition started from it.
pub proof fn the_last_size_asked_for_is_expected(
    g: &mut TransitionGate,
    size: (i32, i32),
    after: Option<(i32, i32)>,
)
    requires
        call_ensures(TransitionGate::set_expected, (g, size), ()),
        call_ensures(TransitionGate::expected, (&*final(g),), after),
    ensures
        !(old(g)@.in_transition && old(g)@.captured == Some(size)) ==> after == Some(size),
        final(g)@.in_transition == old(g)@.in_transition,
        final(g)@.captured == old(g)@.captured,
{
}

} // verus!
