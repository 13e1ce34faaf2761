use jellium::input::dispatch::{
    cef_button, jfn_input_copy, jfn_input_cut, jfn_input_dispatch_char,
    jfn_input_dispatch_char_sys, jfn_input_dispatch_history_nav, jfn_input_dispatch_key_full,
    jfn_input_dispatch_keyboard_focus, jfn_input_dispatch_mouse_button,
    jfn_input_dispatch_mouse_move, jfn_input_dispatch_scroll, jfn_input_dispatch_scroll_precise,
    jfn_input_dispatch_text, jfn_input_paste, jfn_input_redo, jfn_input_select_all,
    jfn_input_undo, Delivery, KeyOutcome, PointRoute, ShellCall, ShellHit, Target, TextDelivery,
    WebCall, BTN_LEFT, BTN_MIDDLE, BTN_RIGHT, EVENTFLAG_PRECISION_SCROLLING_DELTA, KEYEVENT_CHAR,
    KEYEVENT_KEYUP, KEYEVENT_RAWKEYDOWN, MBT_LEFT, MBT_MIDDLE, MBT_RIGHT,
};
use jellium::input::key::{logical_char, KeyReport, PhysicalKey};
use jellium::input::sink::{
    drop_subscription, field_edit, on_shell_state_scoped, publish_field_edit, publish_shell_state,
    set_window_focused, shell_state, web_became_live, EditCommand, FieldEdit, Hub, ShellState,
};
use jellium::platform::LogicalPoint;

#[test]
fn an_uppercase_letter_lowercases() {
    assert_eq!(logical_char(u32::from(b'C')), Some('c'));
}

#[test]
fn a_control_codepoint_has_no_character() {
    assert_eq!(logical_char(0x0D), None);
    assert_eq!(logical_char(0), None);
}

#[test]
fn a_surrogate_has_no_character() {
    assert_eq!(logical_char(0xD800), None);
}

#[test]
fn a_cyrillic_letter_lowercases() {
    assert_eq!(logical_char(0x0421), Some('\u{0441}'));
}

#[test]
fn every_codepoint_has_the_character_of_its_lowercase() {
    for n in (0..0x11_0010u32).chain([u32::MAX]) {
        let expected = char::from_u32(n)
            .filter(|c| !c.is_control())
            .and_then(|c| c.to_lowercase().next());
        assert_eq!(logical_char(n), expected, "{n:x}");
    }
}

#[test]
fn the_shell_is_told_less_of_a_key_than_the_web() {
    let report = KeyReport {
        pressed: true,
        modifiers: 5,
        windows_key_code: 65,
        native_key_code: 38,
        is_system_key: false,
        character: 97,
        unmodified_character: 97,
        logical: Some('a'),
        physical: PhysicalKey::Xkb(38),
    };
    let key = report.shell_key();
    assert!(key.pressed);
    assert_eq!(key.modifiers, 5);
    assert_eq!(key.windows_key_code, 65);
    assert_eq!(key.logical, Some('a'));
    assert_eq!(key.physical, PhysicalKey::Xkb(38));
}

fn modal(open: bool) -> ShellState {
    ShellState {
        modal_open: open,
        ..ShellState::default()
    }
}

/// A hub with a browser that may be alive, and what it took.
struct Stage {
    hub: Hub,
    alive: bool,
    taken: Vec<bool>,
}

impl Stage {
    fn new() -> Self {
        Stage {
            hub: Hub::new(),
            alive: false,
            taken: Vec::new(),
        }
    }

    fn belief(&self) -> bool {
        self.hub.focus.window && !self.hub.focus.modal_open
    }

    fn publish(&mut self, state: ShellState) {
        let belief = self.hub.focus.window && !state.modal_open;
        let p = publish_shell_state(&mut self.hub, state, belief, self.alive);
        self.taken.extend(p.web_focus);
    }

    fn live(&mut self) {
        let belief = self.belief();
        let focus = web_became_live(&mut self.hub, belief, self.alive);
        self.taken.extend(focus);
    }
}

#[test]
fn a_focus_no_live_sink_took_is_handed_to_the_next_live_one() {
    let mut stage = Stage::new();

    stage.publish(modal(true));
    assert!(stage.taken.is_empty());

    stage.alive = true;
    stage.live();
    assert_eq!(stage.taken, [false]);

    stage.publish(modal(true));
    assert_eq!(stage.taken, [false]);

    stage.publish(modal(false));
    assert_eq!(stage.taken, [false, true]);
}

#[test]
fn a_belief_no_live_sink_took_is_handed_on_at_the_next_report() {
    let mut stage = Stage::new();

    stage.publish(modal(true));
    assert!(stage.taken.is_empty());

    stage.alive = true;
    stage.publish(modal(true));
    assert_eq!(stage.taken, [false]);
}

#[test]
fn a_recreated_browser_is_handed_the_focus_its_predecessor_took() {
    let mut stage = Stage::new();

    stage.alive = true;
    stage.live();
    assert_eq!(stage.taken, [true]);

    stage.publish(modal(false));
    assert_eq!(stage.taken, [true]);

    stage.live();
    assert_eq!(stage.taken, [true, true]);
}

#[test]
fn a_window_that_loses_the_focus_takes_it_from_the_web() {
    let mut hub = Hub::new();
    assert_eq!(web_became_live(&mut hub, true, true), Some(true));
    assert_eq!(set_window_focused(&mut hub, false, false, true), Some(false));
    assert!(!hub.focus.window);
    assert_eq!(set_window_focused(&mut hub, false, false, true), None);
}

#[test]
fn dropped_listeners_are_not_told() {
    let mut hub = Hub::new();
    let (first, seed) = on_shell_state_scoped(&mut hub);
    assert_eq!(seed, None);
    let state = ShellState {
        reserved_strip: 32,
        ..modal(false)
    };
    let told = publish_shell_state(&mut hub, state, true, false);
    assert_eq!(told.listeners, vec![first]);
    let (second, seed) = on_shell_state_scoped(&mut hub);
    assert_eq!(seed, Some(state));
    assert_eq!(shell_state(&hub), Some(state));
    drop_subscription(&mut hub, first);
    let told = publish_shell_state(&mut hub, state, true, false);
    assert_eq!(told.listeners, vec![second]);
}

#[test]
fn the_focused_field_says_what_it_can_do() {
    let mut hub = Hub::new();
    assert_eq!(field_edit(&hub), None);
    let edit = FieldEdit {
        undo: true,
        redo: false,
        cut: true,
        copy: true,
        select_all: false,
    };
    publish_field_edit(&mut hub, Some(edit));
    assert_eq!(field_edit(&hub), Some(edit));
    publish_field_edit(&mut hub, None);
    assert_eq!(field_edit(&hub), None);
}

fn p(x: i32, y: i32) -> LogicalPoint {
    LogicalPoint { x, y }
}

fn web(at: LogicalPoint) -> Option<PointRoute> {
    Some(PointRoute {
        target: Target::Web,
        hit: ShellHit::Miss,
        web_point: at,
    })
}

fn shell(hit: ShellHit) -> Option<PointRoute> {
    Some(PointRoute {
        target: Target::Shell,
        hit,
        web_point: p(-1, -1),
    })
}

#[test]
fn moves_go_where_they_are_routed() {
    let d = jfn_input_dispatch_mouse_move(web(p(10, 0)), 10, 32, 4, false);
    assert_eq!(d.cursor_owner, Target::Web);
    assert_eq!(
        d.delivery,
        Delivery::Web(WebCall::MouseMove {
            at: p(10, 0),
            modifiers: 4,
            leave: false
        })
    );
    let d = jfn_input_dispatch_mouse_move(shell(ShellHit::Widget), 10, 32, 4, true);
    assert_eq!(d.cursor_owner, Target::Shell);
    assert_eq!(
        d.delivery,
        Delivery::Shell(ShellCall::MouseMove {
            at: p(10, 32),
            modifiers: 4,
            leave: true
        })
    );
    let d = jfn_input_dispatch_mouse_move(None, 10, 32, 4, false);
    assert_eq!(d.cursor_owner, Target::Nobody);
    assert_eq!(d.delivery, Delivery::Nobody);
}

#[test]
fn buttons_have_the_engines_numbers() {
    assert_eq!(cef_button(BTN_LEFT), Some(MBT_LEFT));
    assert_eq!(cef_button(BTN_RIGHT), Some(MBT_RIGHT));
    assert_eq!(cef_button(BTN_MIDDLE), Some(MBT_MIDDLE));
    assert_eq!(cef_button(0x113), None);
    assert_eq!(
        jfn_input_dispatch_mouse_button(web(p(0, 0)), 0x113, true, 0, 0, 0),
        None
    );
}

fn pressed(route: Option<PointRoute>, button: u32, down: bool) -> Delivery {
    match jfn_input_dispatch_mouse_button(route, button, down, 5, 6, 1) {
        Some(d) => d.delivery,
        None => panic!("a known button"),
    }
}

#[test]
fn presses_on_the_overlay_move_the_window_or_raise_the_menu() {
    assert_eq!(
        pressed(web(p(5, 1)), BTN_LEFT, true),
        Delivery::Web(WebCall::MouseClick {
            at: p(5, 1),
            modifiers: 1,
            button: MBT_LEFT,
            mouse_up: false,
            click_count: 1
        })
    );
    assert_eq!(
        pressed(shell(ShellHit::Drag), BTN_RIGHT, true),
        Delivery::Shell(ShellCall::ContextMenu { at: p(5, 6) })
    );
    assert_eq!(
        pressed(shell(ShellHit::Grip(3)), BTN_LEFT, true),
        Delivery::Shell(ShellCall::WindowGesture {
            hit: ShellHit::Grip(3)
        })
    );
    assert_eq!(
        pressed(shell(ShellHit::Drag), BTN_LEFT, true),
        Delivery::Shell(ShellCall::WindowGesture {
            hit: ShellHit::Drag
        })
    );
    let release = Delivery::Shell(ShellCall::MouseClick {
        at: p(5, 6),
        modifiers: 1,
        button: MBT_LEFT,
        mouse_up: true,
        click_count: 1,
    });
    assert_eq!(pressed(shell(ShellHit::Drag), BTN_LEFT, false), release);
    assert_eq!(
        pressed(shell(ShellHit::Widget), BTN_MIDDLE, true),
        Delivery::Shell(ShellCall::MouseClick {
            at: p(5, 6),
            modifiers: 1,
            button: MBT_MIDDLE,
            mouse_up: false,
            click_count: 1,
        })
    );
    assert_eq!(pressed(None, BTN_LEFT, true), Delivery::Nobody);
}

#[test]
fn precise_deltas_are_flagged() {
    let plain = jfn_input_dispatch_scroll(web(p(1, 2)), 1, 2, 3, -4, 8);
    assert_eq!(
        plain.delivery,
        Delivery::Web(WebCall::MouseWheel {
            at: p(1, 2),
            modifiers: 8,
            delta_x: 3,
            delta_y: -4
        })
    );
    assert_eq!(
        jfn_input_dispatch_scroll_precise(web(p(1, 2)), 1, 2, 3, -4, 8, false),
        plain
    );
    let precise = jfn_input_dispatch_scroll_precise(shell(ShellHit::Widget), 1, 2, 3, -4, 8, true);
    assert_eq!(
        precise.delivery,
        Delivery::Shell(ShellCall::MouseWheel {
            at: p(1, 2),
            modifiers: 8 | EVENTFLAG_PRECISION_SCROLLING_DELTA,
            delta_x: 3,
            delta_y: -4
        })
    );
}

#[test]
fn history_is_the_webs_alone() {
    assert_eq!(
        jfn_input_dispatch_history_nav(Target::Web, true),
        Delivery::Web(WebCall::NavigateHistory { forward: true })
    );
    assert_eq!(
        jfn_input_dispatch_history_nav(Target::Shell, true),
        Delivery::Nobody
    );
    assert_eq!(
        jfn_input_dispatch_keyboard_focus(Target::Shell, false),
        Delivery::Shell(ShellCall::SetFocus { focus: false })
    );
    assert_eq!(
        jfn_input_dispatch_keyboard_focus(Target::Web, true),
        Delivery::Web(WebCall::SetFocus { focus: true })
    );
    assert_eq!(
        jfn_input_dispatch_keyboard_focus(Target::Nobody, true),
        Delivery::Nobody
    );
}

fn char_event(codepoint: i32, unit: u16, native: i32, system: bool) -> Delivery {
    Delivery::Web(WebCall::KeyEvent {
        event_type: KEYEVENT_CHAR,
        modifiers: 2,
        windows_key_code: codepoint,
        native_key_code: native,
        is_system_key: system,
        character: unit,
        unmodified_character: unit,
    })
}

#[test]
fn characters_reach_the_web_as_code_units() {
    assert_eq!(
        jfn_input_dispatch_char_sys(Target::Web, 0x61, 2, 38, true, false),
        char_event(0x61, 0x61, 38, true)
    );
    assert_eq!(
        jfn_input_dispatch_char(Target::Web, 0x1F600, 2, 0, true),
        char_event(0x1F600, 0xF600, 0, false)
    );
    assert_eq!(
        jfn_input_dispatch_char(Target::Web, 0xD800, 2, 0, false),
        char_event(0xD800, 0xD800, 0, false)
    );
    for bad in [0, 0x10_FFFF, u32::MAX] {
        assert_eq!(
            jfn_input_dispatch_char(Target::Web, bad, 2, 0, true),
            Delivery::Nobody
        );
    }
}

#[test]
fn the_shell_takes_whole_characters_that_are_text() {
    assert_eq!(
        jfn_input_dispatch_char(Target::Shell, 0x1F600, 2, 0, true),
        Delivery::Shell(ShellCall::Character { ch: '\u{1F600}' })
    );
    assert_eq!(
        jfn_input_dispatch_char(Target::Shell, 0x61, 2, 0, false),
        Delivery::Nobody
    );
    assert_eq!(
        jfn_input_dispatch_char(Target::Shell, 0xD800, 2, 0, true),
        Delivery::Nobody
    );
    assert_eq!(
        jfn_input_dispatch_char(Target::Nobody, 0x61, 2, 0, true),
        Delivery::Nobody
    );
}

#[test]
fn composed_text_is_split_for_the_web_only() {
    assert!(matches!(
        jfn_input_dispatch_text(Target::Shell, "é\u{1F600}", 2),
        TextDelivery::Shell(s) if s == "é\u{1F600}"
    ));
    match jfn_input_dispatch_text(Target::Web, "é\u{1F600}", 2) {
        TextDelivery::Web(events) => assert_eq!(
            events,
            vec![
                char_event(0xE9, 0xE9, 0, false),
                char_event(0x1F600, 0xF600, 0, false)
            ]
        ),
        other => panic!("{other:?}"),
    }
    assert!(matches!(
        jfn_input_dispatch_text(Target::Nobody, "x", 2),
        TextDelivery::Nobody
    ));
}

#[test]
fn hotkeys_act_on_the_press_alone() {
    let press = |hotkey| {
        jfn_input_dispatch_key_full(Target::Web, hotkey, true, 70, 41, 4, 102, 102, false)
    };
    assert_eq!(press(1), KeyOutcome::Shutdown);
    assert_eq!(press(2), KeyOutcome::ToggleFullscreen);
    assert_eq!(
        press(0),
        KeyOutcome::Deliver(Delivery::Web(WebCall::KeyEvent {
            event_type: KEYEVENT_RAWKEYDOWN,
            modifiers: 4,
            windows_key_code: 70,
            native_key_code: 41,
            is_system_key: false,
            character: 102,
            unmodified_character: 102,
        }))
    );
    assert_eq!(
        jfn_input_dispatch_key_full(Target::Web, 1, false, 70, 41, 4, 102, 102, true),
        KeyOutcome::Deliver(Delivery::Web(WebCall::KeyEvent {
            event_type: KEYEVENT_KEYUP,
            modifiers: 4,
            windows_key_code: 70,
            native_key_code: 41,
            is_system_key: true,
            character: 102,
            unmodified_character: 102,
        }))
    );
    assert_eq!(
        jfn_input_dispatch_key_full(Target::Shell, 0, true, 70, 41, 4, 102, 103, false),
        KeyOutcome::Deliver(Delivery::Shell(ShellCall::Key {
            pressed: true,
            modifiers: 4,
            windows_key_code: 70,
            character: 102,
        }))
    );
}

#[test]
fn edit_commands_follow_the_keys() {
    let commands = [
        (jfn_input_undo(Target::Web), EditCommand::Undo),
        (jfn_input_redo(Target::Web), EditCommand::Redo),
        (jfn_input_cut(Target::Web), EditCommand::Cut),
        (jfn_input_copy(Target::Web), EditCommand::Copy),
        (jfn_input_paste(Target::Web), EditCommand::Paste),
        (jfn_input_select_all(Target::Web), EditCommand::SelectAll),
    ];
    for (delivery, command) in commands {
        assert_eq!(delivery, Delivery::Web(WebCall::Edit { command }));
    }
    assert_eq!(
        jfn_input_paste(Target::Shell),
        Delivery::Shell(ShellCall::Edit {
            command: EditCommand::Paste
        })
    );
    assert_eq!(jfn_input_paste(Target::Nobody), Delivery::Nobody);
}

#[test]
fn a_listener_hears_every_state_until_it_is_dropped() {
    let mut hub = Hub::new();
    let seed = modal(true);
    publish_shell_state(&mut hub, seed, false, false);
    let (me, first) = on_shell_state_scoped(&mut hub);
    let mut told: Vec<ShellState> = first.into_iter().collect();
    let mut expected = vec![seed];
    for width in 1..5 {
        let (other, _) = on_shell_state_scoped(&mut hub);
        let state = ShellState {
            width,
            ..modal(false)
        };
        let publication = publish_shell_state(&mut hub, state, true, false);
        let times = publication.listeners.iter().filter(|l| **l == me).count();
        told.extend(vec![state; times]);
        expected.push(state);
        drop_subscription(&mut hub, other);
    }
    assert_eq!(told, expected);
    drop_subscription(&mut hub, me);
    let (other, _) = on_shell_state_scoped(&mut hub);
    assert_ne!(other, me);
    let publication = publish_shell_state(&mut hub, seed, false, false);
    assert_eq!(publication.listeners, vec![other]);
}

#[test]
fn a_field_starts_with_nothing_to_edit() {
    assert_eq!(
        FieldEdit::default(),
        FieldEdit {
            undo: false,
            redo: false,
            cut: false,
            copy: false,
            select_all: false,
        }
    );
}
