use jellium::compositor::stack::SurfaceStack;
use jellium::compositor::transition::{PresentDecision, TransitionGate};

fn h(n: usize) -> usize {
    n
}

#[test]
fn empty_has_no_main() {
    let s: SurfaceStack<usize> = SurfaceStack::new();
    assert!(!s.is_main(h(1)));
    assert!(s.stack().is_empty());
}

#[test]
fn macos_replace_stack_tracks_first_as_main() {
    let mut s = SurfaceStack::new();
    s.replace_stack(&[h(10), h(11), h(12)]);
    assert!(s.is_main(h(10)));
    assert_eq!(s.stack(), &[h(10), h(11), h(12)]);

    s.replace_stack(&[h(11), h(12)]);
    assert!(s.is_main(h(11)));
}

#[test]
fn macos_replace_stack_empty_clears_main() {
    let mut s = SurfaceStack::new();
    s.replace_stack(&[h(10)]);
    s.replace_stack(&[]);
    assert!(!s.is_main(h(10)));
}

#[test]
fn register_never_sets_main() {
    let mut s = SurfaceStack::new();
    s.register(h(1));
    assert!(!s.is_main(h(1)));
    assert_eq!(s.live(), &[h(1)]);
}

#[test]
fn deregister_rederives_main_from_stack_only() {
    let mut s = SurfaceStack::new();
    s.register(h(1));
    s.register(h(2));
    s.replace_stack(&[h(1)]);
    s.deregister(h(1));
    assert!(!s.is_main(h(1)));
    assert!(!s.is_main(h(2)));
    assert!(s.stack().is_empty());
    assert_eq!(s.live(), &[h(2)]);
}

#[test]
fn deregister_keeps_main_equal_to_stack_first() {
    let mut s = SurfaceStack::new();
    s.register(h(1));
    s.register(h(2));
    s.replace_stack(&[h(1), h(2)]);
    s.deregister(h(1));
    assert!(s.is_main(h(2)));
}

#[test]
fn macos_take_stack_resets() {
    let mut s = SurfaceStack::new();
    s.replace_stack(&[h(10), h(11)]);
    let drained = s.take_stack();
    assert_eq!(drained, vec![h(10), h(11)]);
    assert!(!s.is_main(h(10)));
}

#[test]
fn deregistering_removes_every_copy_of_a_handle() {
    let mut s = SurfaceStack::new();
    s.register(h(3));
    s.register(h(3));
    s.register(h(4));
    s.replace_stack(&[h(3), h(4), h(3)]);
    s.deregister(h(3));
    assert_eq!(s.live(), &[h(4)]);
    assert_eq!(s.stack(), &[h(4)]);
    assert!(s.is_main(h(4)));
}

#[test]
fn default_is_idle() {
    let g = TransitionGate::new();
    assert!(!g.in_transition());
    assert_eq!(g.expected(), None);
    assert_eq!(TransitionGate::default(), g);
}

#[test]
fn macos_expected_clears_gate_on_match() {
    let mut g = TransitionGate::new();
    g.begin();
    g.set_expected((1920, 1080));
    assert!(g.in_transition());
    assert!(!g.note_present_size((1280, 720)));
    assert!(g.in_transition());
    assert!(g.note_present_size((1920, 1080)));
    assert!(!g.in_transition());
    assert_eq!(g.expected(), None);
}

#[test]
fn macos_note_present_ignores_unset_and_zero_expected() {
    let mut g = TransitionGate::new();
    assert!(!g.note_present_size((1920, 1080)));
    g.set_expected((0, 0));
    assert!(!g.note_present_size((0, 0)));
}

#[test]
fn macos_set_expected_always_stores_without_capture() {
    let mut g = TransitionGate::new();
    g.begin();
    g.set_expected((800, 600));
    assert_eq!(g.expected(), Some((800, 600)));
}

#[test]
fn x11_present_recovers_without_expected_armed() {
    let mut g = TransitionGate::new();
    g.begin_capturing((1280, 720));
    assert_eq!(
        g.main_present_decision((1920, 1080)),
        PresentDecision::EndTransitionThenPresent
    );
    assert!(!g.in_transition());
}

#[test]
fn x11_rejects_frame_matching_captured_size() {
    let mut g = TransitionGate::new();
    g.begin_capturing((1280, 720));
    assert_eq!(
        g.main_present_decision((1280, 720)),
        PresentDecision::Reject
    );
    assert!(g.in_transition());
}

#[test]
fn x11_rejects_non_positive_frame_during_transition() {
    let mut g = TransitionGate::new();
    g.begin_capturing((1280, 720));
    assert_eq!(g.main_present_decision((0, 1080)), PresentDecision::Reject);
    assert!(g.in_transition());
}

#[test]
fn x11_matching_post_resize_frame_ends_then_presents() {
    let mut g = TransitionGate::new();
    g.begin_capturing((1280, 720));
    g.set_expected((1920, 1080));
    assert_eq!(
        g.main_present_decision((1920, 1080)),
        PresentDecision::EndTransitionThenPresent
    );
    assert!(!g.in_transition());
    assert_eq!(g.expected(), None);
}

#[test]
fn x11_set_expected_guard_ignores_captured_size() {
    let mut g = TransitionGate::new();
    g.begin_capturing((1280, 720));
    g.set_expected((1280, 720));
    assert_eq!(g.expected(), None);
    g.set_expected((1920, 1080));
    assert_eq!(g.expected(), Some((1920, 1080)));
}

#[test]
fn x11_present_passes_through_when_idle() {
    let mut g = TransitionGate::new();
    assert_eq!(
        g.main_present_decision((1920, 1080)),
        PresentDecision::Present
    );
}

#[test]
fn end_is_idempotent() {
    let mut g = TransitionGate::new();
    g.begin_capturing((100, 100));
    g.set_expected((200, 200));
    g.end();
    g.end();
    assert!(!g.in_transition());
    assert_eq!(g.expected(), None);
}

#[test]
fn any_frame_but_the_old_size_ends_the_transition() {
    let mut g = TransitionGate::new();
    g.begin_capturing((1280, 720));
    g.set_expected((1920, 1080));
    assert_eq!(
        g.main_present_decision((1600, 900)),
        PresentDecision::EndTransitionThenPresent
    );
    assert_eq!(g, TransitionGate::new());
}

#[test]
fn a_cloned_stack_stands_on_its_own() {
    let mut stack: SurfaceStack<u64> = SurfaceStack::new();
    stack.register(3);
    stack.register(5);
    stack.replace_stack(&[5, 3]);
    let copy = stack.clone();
    stack.deregister(5);
    assert_eq!(copy.live(), &[3, 5]);
    assert_eq!(copy.stack(), &[5, 3]);
    assert!(copy.is_main(5));
}
