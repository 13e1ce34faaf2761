use std::collections::VecDeque;

use jellium::gpu::error::{Kind, SurfaceLost};
use jellium::gpu::types::Presented;
use jellium::input::sink::EditCommand;
use jellium::platform::{
    LogicalPoint, LogicalSize, PhysicalSize, Scale, Visibility, WindowExtent,
};
use jellium::shell::actor::{
    await_received, await_target, begin_update, ignored_key, initial_extent, join_outcome, paint,
    retained_settings, settled, update_ui, AcquireOutcome, ChromeInputs, Color, Cursor, Deadline,
    Effect, Flow, JoinOutcome, Loop, LoopStartError, Painted, PassEnd, Position, Received,
    RedrawRequest, Scene, ShellEvent, TargetWait, Transition, UiState, Wait, Work, INTERACTION_NONE, TARGET_WAIT,
};
use jellium::shell::connection::{Connection, DeliveryStep, Phase, Request, Screen, FADE, SPINNER_FLOOR};
use jellium::shell::edit::{
    caret_anchor, focused, named, publish_primary, queue_edit, raise_menu, resolve_deferred, Act,
    Apply, Deferred, EditEffect, FieldSnapshot, Press, Reader, Site, Target,
};
use jellium::shell::focus::{
    focus_after_rebuild, Direction, FocusMemory, FocusStep, Id, Identity, IgnoredKey, Key,
    OverlayRestoration, Restoration, ScrollOffset, Tab,
};
use jellium::shell::messages::{
    settings_overlay_dismiss_last, Message, ModalMessage, SettingsMessage, SettingsOverlayMessage,
};
use jellium::time::{Duration, Instant};
use jellium::web::navigation::{Navigation, NavigationPresented, WebEvent};

const SERVER: &str = "https://server/jellyfin";

fn now() -> Instant {
    Instant::from_nanos(50_000_000_000)
}

fn later(at: Instant, nanos: u64) -> Instant {
    at.after(Duration::from_nanos(nanos))
}

fn probing() -> (Connection, u64, Instant) {
    let connection = Connection::new(SERVER.into(), now(), SERVER);
    let (cycle, since) = match connection.phase {
        Phase::Probing { cycle, since, .. } => (cycle, since),
        _ => unreachable!(),
    };
    (connection, cycle, since)
}

fn loading(navigation: Navigation) -> Connection {
    let mut connection = Connection::new(String::new(), now(), "");
    connection.phase = Phase::Loading {
        base: SERVER.into(),
        navigation,
        since: now(),
    };
    connection
}

#[test]
fn startup_retains_work_until_an_overlay_is_available() {
    let (mut connection, cycle, _) = probing();
    assert!(connection.flush_requests().is_empty());
    assert!(
        matches!(connection.requests.as_slice(), [Request::Probe { cycle: id, .. }] if *id == cycle)
    );
    connection.cancel();
    assert!(matches!(connection.screen(), Screen::Form { .. }));
    assert!(matches!(
        connection.requests.as_slice(),
        [Request::Probe { .. }, Request::CancelProbe]
    ));
    connection.probe_resolved(cycle, "https://stale".into(), now());
    connection.probe_failed(cycle, now());
    assert!(matches!(connection.screen(), Screen::Form { .. }));
}

#[test]
fn retry_ignores_the_previous_probes_result() {
    let (mut connection, old, _) = probing();
    connection.cancel();
    connection.connect(now(), SERVER);
    let cycle = match connection.phase {
        Phase::Probing { cycle, .. } => cycle,
        _ => unreachable!(),
    };
    assert_ne!(old, cycle);
    connection.probe_resolved(old, "https://stale".into(), now());
    connection.probe_failed(old, now());
    assert!(matches!(
        connection.phase,
        Phase::Probing {
            unresolved: false,
            ..
        }
    ));
    assert!(connection.deadline().is_none());
}

#[test]
fn probe_failure_waits_for_spinner_floor_then_restores_the_url() {
    let (mut connection, cycle, since) = probing();
    connection.probe_failed(cycle, since);
    assert!(matches!(connection.screen(), Screen::Working { .. }));
    assert_eq!(connection.deadline(), Some(later(since, SPINNER_FLOOR)));
    connection.tick(later(since, SPINNER_FLOOR));
    assert!(matches!(connection.screen(), Screen::Failed));
    connection.dismiss_failure();
    assert!(
        matches!(connection.screen(), Screen::Form { url } if url == "https://server/jellyfin")
    );
}

#[test]
fn cancel_and_failure_abandon_the_document_and_ignore_late_frames() {
    for cancel in [true, false] {
        let id = Navigation::new(1);
        let mut connection = loading(id);
        connection.navigation_failed(Navigation::new(2));
        assert!(matches!(connection.phase, Phase::Loading { .. }));
        if cancel {
            connection.cancel();
        } else {
            connection.navigation_failed(id);
        }
        assert!(
            matches!(connection.requests.as_slice(), [Request::Abandon { navigation }] if *navigation == id)
        );
        assert!(!connection.finish_navigation(id, now()));
        assert!(matches!(
            connection.screen(),
            Screen::Form { .. } | Screen::Failed
        ));
    }
}

#[test]
fn only_the_current_navigation_can_start_the_fade() {
    let id = Navigation::new(1);
    let mut connection = loading(id);
    let now = now();
    assert!(!connection.finish_navigation(Navigation::new(2), now));
    assert!(matches!(connection.screen(), Screen::Working { .. }));
    assert!(connection.finish_navigation(id, now));
    assert!(!connection.finish_navigation(id, later(now, 1_000_000)));
    assert_eq!(connection.deadline(), Some(later(now, FADE)));
    connection.tick(later(now, FADE - 1_000_000));
    assert!(matches!(connection.screen(), Screen::Retiring { .. }));
    connection.tick(later(now, FADE));
    assert!(matches!(connection.screen(), Screen::Gone));
    assert!(connection.requests.is_empty());
}

#[test]
fn a_blank_address_is_not_probed() {
    let connection = Connection::new("  ".into(), now(), "");
    assert!(matches!(&connection.phase, Phase::Editing { url } if url == "  "));
    assert!(connection.requests.is_empty());
}

#[test]
fn a_found_server_is_navigated_to() {
    let (mut connection, cycle, since) = probing();
    connection.attach();
    assert_eq!(connection.flush_requests().len(), 1);
    assert!(connection.probe_resolved(cycle, "https://found".into(), later(since, 5)));
    assert!(matches!(
        &connection.phase,
        Phase::Loading { base, navigation, since: s }
            if base == "https://found" && *navigation == Navigation::new(1) && *s == since
    ));
    let requests = connection.flush_requests();
    assert!(matches!(
        requests.as_slice(),
        [Request::CancelProbe, Request::Navigate { navigation, url }]
            if *navigation == Navigation::new(1) && url == "https://found"
    ));
    assert!(connection.requests.is_empty());
}

#[test]
fn a_late_probe_failure_shows_at_once() {
    let (mut connection, cycle, since) = probing();
    connection.probe_failed(cycle, later(since, SPINNER_FLOOR));
    assert!(matches!(connection.screen(), Screen::Failed));
    assert!(matches!(connection.screen().clone(), Screen::Failed));
}

#[test]
fn undelivered_requests_fail_what_they_asked_for() {
    let (mut connection, cycle, since) = probing();
    connection.delivery_failed(
        &Request::Probe {
            cycle,
            url: SERVER.into(),
        },
        later(since, SPINNER_FLOOR),
    );
    assert!(matches!(connection.screen(), Screen::Failed));
    let id = Navigation::new(1);
    let mut connection = loading(id);
    let request = Request::Navigate {
        navigation: id,
        url: SERVER.into(),
    };
    connection.delivery_failed(&request.clone(), now());
    assert!(matches!(connection.screen(), Screen::Failed));
}

#[test]
fn delivery_goes_on_until_a_request_is_not_taken() {
    let (mut connection, cycle, since) = probing();
    let request = Request::Probe {
        cycle,
        url: SERVER.into(),
    };
    let at = later(since, SPINNER_FLOOR);
    assert_eq!(
        connection.deliver(&request, true, at),
        DeliveryStep::Continue
    );
    assert!(matches!(connection.phase, Phase::Probing { .. }));
    assert_eq!(
        connection.deliver(&request, false, at),
        DeliveryStep::ShutDown
    );
    assert!(matches!(connection.screen(), Screen::Failed));

    let mut connection = loading(Navigation::new(1));
    assert_eq!(
        connection.deliver(&Request::CancelProbe, false, now()),
        DeliveryStep::ShutDown
    );
    assert!(matches!(connection.phase, Phase::Loading { .. }));
}

#[test]
fn exhausted_counters_leave_the_rest_of_the_connection_usable() {
    let mut connection = loading(Navigation::new(u64::MAX));
    connection.cycles = u64::MAX;
    connection.navigations = u64::MAX;
    connection.navigation_failed(Navigation::new(u64::MAX));
    assert!(matches!(connection.screen(), Screen::Failed));
    connection.dismiss_failure();
    connection.edit_url("https://other".into());
    assert!(matches!(connection.screen(), Screen::Form { url } if url == "https://other"));
}

#[test]
fn targets_and_readers_compare_by_the_field_they_name() {
    let target = Target::Named(Id::new("server"));
    assert!(target == target.clone());
    assert!(target != Target::Named(Id::new("device")));
    assert!(target != Target::Focused);
    let reader = Reader::Field(Id::new("server"));
    assert!(reader == reader.clone());
    assert!(reader != Reader::Iced);
    assert!(Reader::Iced == Reader::Iced);
}

#[test]
fn web_events_are_cloned_whole() {
    let event = WebEvent::ProbeFinished {
        cycle: 3,
        base: Some(SERVER.into()),
    };
    assert!(
        matches!(event.clone(), WebEvent::ProbeFinished { cycle: 3, base: Some(b) } if b == SERVER)
    );
}

#[test]
fn editing_a_connected_address_abandons_its_document() {
    let id = Navigation::new(4);
    let mut connection = loading(id);
    assert!(connection.frame_presented(
        NavigationPresented::witnessed(id, Presented::issued()),
        now()
    ));
    connection.tick(later(now(), FADE));
    connection.edit_url("https://other".into());
    assert!(matches!(connection.screen(), Screen::Form { url } if url == "https://other"));
    assert!(
        matches!(connection.requests.as_slice(), [Request::Abandon { navigation }] if *navigation == id)
    );
    connection.connect(now(), SERVER);
    connection.edit_url("https://ignored".into());
    assert!(matches!(&connection.phase, Phase::Probing { url, .. } if url == "https://other"));
}

fn settings_message(message: SettingsMessage) -> Message {
    Message::Modal(ModalMessage::SettingsOverlay(
        SettingsOverlayMessage::Settings(message),
    ))
}

fn dismiss() -> Message {
    Message::Modal(ModalMessage::SettingsOverlay(
        SettingsOverlayMessage::Dismiss,
    ))
}

fn device(name: &str) -> Message {
    settings_message(SettingsMessage::DeviceNameEdited(name.to_owned()))
}

fn audio(name: &str) -> Message {
    settings_message(SettingsMessage::AudioPassthroughEdited(name.to_owned()))
}

#[test]
fn settings_dismiss_is_applied_after_final_edits_without_reordering_ordinary_messages() {
    let messages = vec![
        dismiss(),
        device("final device"),
        settings_message(SettingsMessage::CommitDeviceName),
        audio("first audio"),
        audio("final audio"),
    ];
    let ordered = settings_overlay_dismiss_last(messages.clone());
    assert_eq!(
        ordered,
        vec![
            device("final device"),
            settings_message(SettingsMessage::CommitDeviceName),
            audio("first audio"),
            audio("final audio"),
            dismiss(),
        ]
    );
}

#[test]
fn settings_reset_is_applied_after_final_edits_without_reordering_ordinary_messages() {
    let reset = || settings_message(SettingsMessage::ResetSavedServer);
    let ordered = settings_overlay_dismiss_last(vec![
        reset(),
        device("first device"),
        audio("first audio"),
        device("final device"),
        audio("final audio"),
    ]);
    assert_eq!(
        ordered,
        vec![
            device("first device"),
            audio("first audio"),
            device("final device"),
            audio("final audio"),
            reset(),
        ]
    );
}

#[test]
fn a_dismissal_and_a_reset_keep_their_order() {
    let reset = settings_message(SettingsMessage::ResetSavedServer);
    let both = settings_overlay_dismiss_last(vec![dismiss(), reset, Message::Chrome(1)]);
    assert_eq!(both, vec![
            Message::Chrome(1),
            dismiss(),
            settings_message(SettingsMessage::ResetSavedServer),
        ]);
}

#[test]
fn settings_messages_preserve_the_current_focus_target() {
    let focused = Id::new("focused-setting");
    assert_eq!(
        focus_after_rebuild(
            Some(Identity::SettingsOverlay),
            Some(Identity::SettingsOverlay),
            Some(Tab::Settings),
            Some(Tab::Settings),
            Some(Id::new("initial")),
            Some(focused),
            false,
        ),
        None
    );
}

#[test]
fn tab_changes_choose_the_active_tabs_initial_target() {
    let initial = Id::new("new-initial");
    assert_eq!(
        focus_after_rebuild(
            Some(Identity::SettingsOverlay),
            Some(Identity::SettingsOverlay),
            Some(Tab::About),
            Some(Tab::Settings),
            Some(initial.clone()),
            Some(Id::new("old-focus")),
            true,
        ),
        Some(initial)
    );
}

#[test]
fn resize_or_cache_loss_restores_the_prior_target() {
    let prior = Id::new("prior-focus");
    assert_eq!(
        focus_after_rebuild(
            Some(Identity::SettingsOverlay),
            Some(Identity::SettingsOverlay),
            Some(Tab::Settings),
            Some(Tab::Settings),
            Some(Id::new("initial")),
            Some(prior.clone()),
            true,
        ),
        Some(prior)
    );
}

#[test]
fn fresh_overlay_uses_the_active_tabs_initial_target() {
    let initial = Id::new("fresh-initial");
    assert_eq!(
        focus_after_rebuild(
            None,
            Some(Identity::SettingsOverlay),
            None,
            Some(Tab::Settings),
            Some(initial.clone()),
            None,
            true,
        ),
        Some(initial)
    );
}

fn key(key: Key, shift: bool) -> ShellEvent {
    ShellEvent::KeyPressed { key, shift }
}

#[test]
fn tab_directions_are_forward_and_backward_in_settings() {
    let identity = Some(Identity::SettingsOverlay);
    assert_eq!(
        ignored_key(&key(Key::Tab, false), true, identity),
        Some(IgnoredKey::Focus(Direction::Forward))
    );
    assert_eq!(
        ignored_key(&key(Key::Tab, true), true, identity),
        Some(IgnoredKey::Focus(Direction::Backward))
    );
}

#[test]
fn keys_mean_nothing_without_a_modal_view() {
    assert_eq!(ignored_key(&key(Key::Escape, false), false, None), None);
    assert_eq!(
        ignored_key(&key(Key::Escape, false), true, Some(Identity::SettingsOverlay)),
        Some(IgnoredKey::Escape)
    );
    assert_eq!(
        ignored_key(&key(Key::Other(5), false), true, Some(Identity::SettingsOverlay)),
        None
    );
    assert_eq!(
        ignored_key(
            &ShellEvent::CursorLeft,
            true,
            Some(Identity::SettingsOverlay)
        ),
        None
    );
}

/// Waits for a window against a queue of work and a clock that stands still
/// until the queue is empty.
fn wait_on(
    queue: &mut VecDeque<Work>,
    pending: &mut Vec<Work>,
    start: Instant,
    deadline: Instant,
    mut query: impl FnMut() -> Option<u32>,
) -> Option<u32> {
    loop {
        let target = query();
        match await_target(target.is_some(), start, deadline) {
            TargetWait::Found => return target,
            TargetWait::GiveUp => return None,
            TargetWait::WaitFor(_) => {}
        }
        let received = match queue.pop_front() {
            Some(work) => Received::Work(work),
            None => Received::TimedOut,
        };
        if await_received(pending, received) == Flow::Stop {
            return None;
        }
    }
}

#[test]
fn target_wait_preserves_work_and_observes_readiness() {
    let mut queue = VecDeque::from([Work::OpenAbout]);
    let mut pending = Vec::new();
    let mut queries = 0;
    let target = wait_on(
        &mut queue,
        &mut pending,
        now(),
        later(now(), TARGET_WAIT),
        || {
            queries += 1;
            (queries == 2).then_some(42)
        },
    );
    assert_eq!(target, Some(42));
    assert!(matches!(pending.as_slice(), [Work::OpenAbout]));
}

#[test]
fn target_wait_stops_on_shutdown_or_deadline() {
    let mut queue = VecDeque::from([Work::Shutdown]);
    let mut pending = Vec::new();
    assert_eq!(
        wait_on(
            &mut queue,
            &mut pending,
            now(),
            later(now(), TARGET_WAIT),
            || None
        ),
        None
    );
    queue.push_back(Work::Redraw);
    assert_eq!(
        wait_on(&mut queue, &mut pending, now(), now(), || None),
        None
    );
    assert!(pending.is_empty());
}

#[test]
fn a_thread_that_ended_was_joined() {
    assert_eq!(join_outcome(true, Some(true)), JoinOutcome::Terminated);
    assert_eq!(join_outcome(true, Some(false)), JoinOutcome::Panicked);
    assert_eq!(join_outcome(true, None), JoinOutcome::TimedOut);
    assert_eq!(join_outcome(false, None), JoinOutcome::JoinerUnavailable);
    assert!(JoinOutcome::Terminated.terminated());
    assert!(JoinOutcome::Panicked.terminated());
    assert!(!JoinOutcome::TimedOut.terminated());
    assert!(!JoinOutcome::JoinerUnavailable.terminated());
}

#[test]
fn deadlines_merge_to_the_earlier() {
    let a = Deadline::at(Instant::from_nanos(5));
    let b = Deadline::at(Instant::from_nanos(9));
    assert_eq!(a.merge(b), a);
    assert_eq!(b.merge(a), a);
    assert_eq!(a.merge(Deadline::none()), a);
    assert_eq!(Deadline::none().merge(b), b);
    assert!(!Deadline::none().elapsed(now()));
    assert!(b.elapsed(Instant::from_nanos(9)));
    assert!(!b.elapsed(Instant::from_nanos(8)));
    assert_eq!(
        b.wait_for(Instant::from_nanos(2)),
        Some(Duration::from_nanos(7))
    );
    assert_eq!(Deadline::none().wait_for(now()), None);
}

fn extent(w: i32, h: i32) -> WindowExtent {
    WindowExtent {
        physical: PhysicalSize { w, h },
        scale: Scale {
            bits: 1.0f64.to_bits(),
        },
        logical: LogicalSize { w, h },
    }
}

const BLACK: Color = Color {
    r_bits: 0,
    g_bits: 0,
    b_bits: 0,
    a_bits: 0,
};

fn started(server: &str) -> Loop {
    match Loop::start(
        true,
        Some(extent(640, 480)),
        Ok(()),
        server,
        ChromeInputs {
            titlebar_shown: true,
        },
        BLACK,
        now(),
    ) {
        Ok(l) => l,
        Err(e) => panic!("{}", e.message()),
    }
}

fn start_error(gpu: bool, size: Option<WindowExtent>, painter: Result<(), SurfaceLost>) -> String {
    let inputs = ChromeInputs {
        titlebar_shown: false,
    };
    match Loop::start(gpu, size, painter, "", inputs, BLACK, now()) {
        Ok(_) => panic!("the loop came up"),
        Err(e) => e.message(),
    }
}

#[test]
fn a_loop_that_cannot_start_says_why() {
    assert_eq!(start_error(false, None, Ok(())), "GPU device unavailable");
    assert_eq!(start_error(true, None, Ok(())), "window extent unavailable");
    let lost = SurfaceLost {
        kind: Kind::SurfaceUnsupported,
    };
    assert_eq!(
        start_error(true, Some(extent(1, 1)), Err(lost)),
        "swapchain creation failed: adapter does not support requested surface"
    );
    assert_eq!(
        LoopStartError::NoTarget.message(),
        "window target unavailable or startup canceled"
    );
    assert_eq!(
        initial_extent(None, Some(extent(2, 2))),
        Some(extent(2, 2))
    );
    assert_eq!(
        initial_extent(Some(extent(3, 3)), Some(extent(2, 2))),
        Some(extent(3, 3))
    );
}

#[test]
fn the_loop_waits_for_the_nearest_deadline() {
    let mut l = started("");
    assert_eq!(l.wait(Deadline::none(), now()), Wait::Block);
    assert_eq!(
        l.wait(Deadline::at(later(now(), 10)), now()),
        Wait::Timeout(Duration::from_nanos(10))
    );
    assert_eq!(l.wait(Deadline::at(now()), now()), Wait::Proceed);
    l.adopt(vec![Work::Redraw]);
    assert_eq!(l.wait(Deadline::none(), now()), Wait::Proceed);
    assert_eq!(l.on_received(Received::Work(Work::OpenAbout)), Flow::Continue);
    assert_eq!(l.on_received(Received::TimedOut), Flow::Continue);
    let batch = l.begin_turn();
    assert!(matches!(
        batch.as_slice(),
        [Work::Redraw, Work::OpenAbout]
    ));
    assert!(!l.immediate);
    assert_eq!(l.on_received(Received::Disconnected), Flow::Stop);
}

#[test]
fn work_is_taken_in_piece_by_piece() {
    let mut l = started("");
    let at = Position {
        x_bits: 1,
        y_bits: 2,
    };
    l.focus.cache_lost = false;
    let moved = ShellEvent::CursorMoved { position: at };
    assert!(matches!(
        l.absorb(Work::Event(moved), now()),
        Effect::Nothing
    ));
    assert_eq!(l.cursor, Cursor::Available(at));
    l.absorb(Work::Event(ShellEvent::CursorLeft), now());
    assert_eq!(l.cursor, Cursor::Unavailable);
    assert_eq!(l.events.len(), 2);
    assert!(!l.focus.cache_lost);
    assert!(matches!(
        l.absorb(
            Work::Resize {
                extent: extent(10, 20)
            },
            now()
        ),
        Effect::ResizePainter(e) if e == extent(10, 20)
    ));
    assert_eq!(l.current, extent(10, 20));
    assert!(l.focus.cache_lost);
    assert!(matches!(
        l.absorb(Work::OpenClientSettings, now()),
        Effect::Transition(Transition::OpenClientSettings)
    ));
    l.absorb(
        Work::SelectionText {
            reader: Reader::Field(Id::new("name")),
            text: Some("pasted".into()),
        },
        now(),
    );
    assert!(matches!(
        l.queued.as_slice(),
        [Apply::Act { field, act: Act::Paste(text) }] if field.name == "name" && text == "pasted"
    ));
    l.absorb(
        Work::SelectionText {
            reader: Reader::Iced,
            text: Some("typed".into()),
        },
        now(),
    );
    assert!(matches!(l.events.last(), Some(ShellEvent::ClipboardText(t)) if t == "typed"));
    l.absorb(Work::EditMenuAtCaret, now());
    assert!(matches!(l.deferred.as_slice(), [Deferred::EditMenuAtCaret]));
    assert!(matches!(l.absorb(Work::Shutdown, now()), Effect::Stop));
}

#[test]
fn a_found_server_is_saved_and_loaded() {
    let mut l = started(SERVER);
    match l.absorb(Work::WebAttached, now()) {
        Effect::Deliver {
            requests,
            save_server: None,
            connect_dismissed: false,
        } => match requests.as_slice() {
            [Request::Probe { cycle, url }] => {
                assert_eq!(*cycle, 1);
                assert_eq!(url, SERVER);
            }
            other => panic!("{other:?}"),
        },
        other => panic!("{other:?}"),
    }
    let found = Work::WebEvent(WebEvent::ProbeFinished {
        cycle: 1,
        base: Some("https://found".into()),
    });
    match l.absorb(found, now()) {
        Effect::Deliver {
            requests,
            save_server,
            connect_dismissed: false,
        } => {
            assert_eq!(save_server.as_deref(), Some("https://found"));
            assert_eq!(requests.len(), 2);
        }
        other => panic!("{other:?}"),
    }
    let presented = NavigationPresented::witnessed(Navigation::new(1), Presented::issued());
    assert!(matches!(
        l.absorb(Work::WebEvent(WebEvent::FramePresented(presented)), now()),
        Effect::Deliver {
            connect_dismissed: true,
            ..
        }
    ));
    assert!(l.begin_pass(later(now(), 1)).is_empty());
    assert!(matches!(l.model.screen, Screen::Retiring { .. }));
    assert_eq!(l.pending, Deadline::at(later(now(), FADE)));
    l.begin_pass(later(now(), FADE));
    assert!(matches!(l.model.screen, Screen::Gone));
}

#[test]
fn a_modal_view_covers_the_titlebar() {
    let l = started("");
    assert_eq!(l.model.scene(true), Scene::Modal);
    assert_eq!(l.model.scene(false), Scene::Titlebar);
    assert_eq!(l.model.visibility(false), Visibility::Shown);
    let mut hidden = started("");
    hidden.model.inputs.titlebar_shown = false;
    assert_eq!(hidden.model.scene(false), Scene::Nothing);
    assert_eq!(hidden.model.visibility(false), Visibility::Hidden);
    assert_eq!(hidden.model.visibility(true), Visibility::Shown);
}

#[test]
fn an_update_keeps_what_no_widget_took() {
    let mut events = vec![key(Key::Tab, false), key(Key::Escape, false)];
    begin_update(&mut events, now());
    let updated = update_ui(
        &mut events,
        &vec![true, false, true],
        vec![Message::Chrome(1)],
        UiState::Updated {
            interaction: 3,
            redraw: RedrawRequest::NextFrame,
            copied: Some("c".into()),
            wants_clipboard: true,
        },
        now(),
    );
    assert!(events.is_empty());
    assert!(matches!(
        updated.ignored.as_slice(),
        [ShellEvent::KeyPressed {
            key: Key::Escape,
            shift: false
        }]
    ));
    assert_eq!(updated.redraw, Deadline::at(now()));
    assert_eq!(updated.interaction, 3);
    assert_eq!(updated.copied.as_deref(), Some("c"));
    assert!(!settled(&updated, false, None));
    let mut none = Vec::new();
    let outdated = update_ui(&mut none, &Vec::new(), Vec::new(), UiState::Outdated, now());
    assert!(outdated.outdated);
    assert_eq!(outdated.interaction, INTERACTION_NONE);
    assert_eq!(outdated.redraw, Deadline::none());
    assert!(!settled(&outdated, false, None));
}

#[test]
fn a_pass_settles_once_nothing_is_left() {
    let mut events = vec![key(Key::Escape, false)];
    let state = || UiState::Updated {
        interaction: 0,
        redraw: RedrawRequest::Wait,
        copied: None,
        wants_clipboard: false,
    };
    let updated = update_ui(&mut events, &vec![false], Vec::new(), state(), now());
    assert!(settled(&updated, false, None));
    assert!(!settled(&updated, true, Some(Identity::SettingsOverlay)));
    let mut l = started("");
    assert_eq!(
        l.on_ignored(
            &updated.ignored[0],
            true,
            Some(Identity::SettingsOverlay)
        ),
        Some(Transition::Escape)
    );
    assert_eq!(
        l.on_ignored(&key(Key::Tab, true), true, Some(Identity::SettingsOverlay)),
        None
    );
    assert_eq!(l.focus.pending_move, Some(Direction::Backward));
    let ordered = l.unsettled(vec![dismiss(), Message::Chrome(2)]);
    assert_eq!(ordered, vec![Message::Chrome(2), dismiss()]);
    assert!(l.immediate);
}

#[test]
fn a_pass_paints_or_comes_again() {
    let state = |redraw| UiState::Updated {
        interaction: 0,
        redraw,
        copied: None,
        wants_clipboard: false,
    };
    let mut l = started("");
    l.immediate = false;
    let messages = vec![dismiss(), Message::Chrome(2)];
    let mut events = vec![key(Key::Tab, false)];
    let wait = state(RedrawRequest::Wait);
    let updated = update_ui(&mut events, &vec![false], messages, wait, now());
    match l.pass(updated, Some(Id::new("f")), false, None) {
        PassEnd::Again { messages, ignored } => {
            assert_eq!(messages, vec![Message::Chrome(2), dismiss()]);
            assert_eq!(ignored.len(), 1);
        }
        PassEnd::Paint { .. } => panic!("messages are left"),
    }
    assert!(l.immediate && l.drew_nothing_yet);
    assert_eq!(l.focus.prior, Some(Id::new("f")));
    l.immediate = false;
    for first in [true, false] {
        let mut events = Vec::new();
        let next = state(RedrawRequest::NextFrame);
        let updated = update_ui(&mut events, &Vec::new(), Vec::new(), next, now());
        match l.pass(updated, None, false, None) {
            PassEnd::Paint { wait_for_fonts } => assert_eq!(wait_for_fonts, first),
            PassEnd::Again { .. } => panic!("nothing is left"),
        }
    }
    assert!(!l.immediate);
    assert_eq!(l.pending, Deadline::at(now()));
}

#[test]
fn painting_waits_for_a_frame() {
    let at = later(now(), 16);
    assert_eq!(
        paint(Visibility::Hidden, AcquireOutcome::Frame),
        Painted::Hidden
    );
    assert_eq!(
        paint(Visibility::Shown, AcquireOutcome::Frame),
        Painted::Shown
    );
    assert_eq!(
        paint(Visibility::Shown, AcquireOutcome::Deferred(None)),
        Painted::Requested
    );
    let deferred = paint(Visibility::Shown, AcquireOutcome::Deferred(Some(at)));
    assert_eq!(deferred, Painted::Deferred(at));
    let mut l = started("");
    assert!(l.first_paint());
    assert!(!l.first_paint());
    l.on_painted(deferred);
    assert_eq!(l.pending, Deadline::at(at));
    l.after_update(Deadline::at(now()), Some(Id::new("f")));
    assert_eq!(l.pending, Deadline::at(now()));
    assert_eq!(l.focus.prior, Some(Id::new("f")));
}

fn offset(x: f32, y: f32) -> ScrollOffset {
    ScrollOffset {
        x_bits: x.to_bits(),
        y_bits: y.to_bits(),
    }
}

#[test]
fn only_the_settings_tab_retains_its_place() {
    let at = offset(3.0, 142.0);
    let kept = retained_settings(Some(Tab::Settings), Some(Id::new("a")), Some(at));
    assert_eq!(kept, Some((Some(Id::new("a")), at)));
    assert_eq!(
        retained_settings(Some(Tab::About), Some(Id::new("a")), Some(at)),
        None
    );
    assert_eq!(retained_settings(Some(Tab::Settings), None, None), None);
    assert_eq!(retained_settings(None, None, Some(at)), None);
}

#[test]
fn a_lost_cache_restores_the_settings_place() {
    let mut memory = FocusMemory::default();
    memory.cache_lost = true;
    let overlay = OverlayRestoration {
        active: Tab::Settings,
        stored: None,
        current: Restoration {
            focus: Some(Id::new("device")),
            scroll: offset(0.0, 9.0),
        },
    };
    let plan = memory.plan(
        Some(Identity::SettingsOverlay),
        Some(Tab::Settings),
        Some(Id::new("initial")),
        Some(overlay),
    );
    assert_eq!(plan.target, Some(Id::new("initial")));
    assert!(!plan.consumed);
    assert!(!memory.cache_lost);
    let steps = memory.apply(plan);
    assert!(matches!(
        steps.as_slice(),
        [FocusStep::Focus(first), FocusStep::Focus(second), FocusStep::RestoreScroll(o)]
            if first.name == "initial" && second.name == "device" && *o == offset(0.0, 9.0)
    ));
    memory.pending_move = Some(Direction::Forward);
    let plan = memory.plan(
        Some(Identity::SettingsOverlay),
        Some(Tab::Settings),
        Some(Id::new("initial")),
        None,
    );
    assert_eq!(plan.target, None);
    assert!(matches!(
        memory.apply(plan).as_slice(),
        [FocusStep::MoveFocus(Direction::Forward)]
    ));
    assert!(memory.moved(true));
    assert!(memory.settings_chain);
}

fn field(name: &str, has_focus: bool, generation: u64) -> FieldSnapshot {
    FieldSnapshot {
        id: Id::new(name),
        focused: has_focus,
        caret: LogicalPoint { x: 4, y: 5 },
        selection: Some(format!("{name} text")),
        selection_generation: generation,
    }
}

#[test]
fn edits_are_queued_for_their_field() {
    let fields = vec![field("a", false, 1), field("b", true, 1)];
    assert_eq!(focused(&fields), Some(1));
    assert_eq!(named(&fields, &Id::new("a")), Some(0));
    assert_eq!(named(&fields, &Id::new("c")), None);
    assert_eq!(caret_anchor(&fields[0]), LogicalPoint { x: 4, y: 5 });
    let mut queued = Vec::new();
    assert!(queue_edit(&fields, &Target::Focused, EditCommand::Cut, &mut queued).is_none());
    assert!(matches!(
        queued.as_slice(),
        [Apply::Act { field, act: Act::Cut }] if field.name == "b"
    ));
    let named_a = Target::Named(Id::new("a"));
    assert!(matches!(
        queue_edit(&fields, &named_a, EditCommand::Paste, &mut queued),
        Some(EditEffect::ReadClipboard(id)) if id.name == "a"
    ));
    let missing = Target::Named(Id::new("c"));
    assert!(queue_edit(&fields, &missing, EditCommand::Undo, &mut queued).is_none());
    assert_eq!(queued.len(), 1);
}

#[test]
fn a_press_beside_every_field_opens_the_application_menu() {
    let fields = vec![field("a", false, 1)];
    let at = LogicalPoint { x: 1, y: 2 };
    let mut queued = Vec::new();
    let nowhere = Site {
        field: None,
        press: None,
    };
    assert!(matches!(
        raise_menu(&fields, at, nowhere, &mut queued, true),
        (Some(EditEffect::OpenMenu { at: p, restricted: true }), None) if p == at
    ));
    let focusing = Site {
        field: Some(0),
        press: Some(Press {
            caret: Some(Act::Caret(3)),
            focuses: true,
        }),
    };
    let (effect, anchor) = raise_menu(&fields, at, focusing, &mut queued, true);
    assert!(effect.is_none());
    assert_eq!(anchor, Some(at));
    assert!(matches!(
        queued.as_slice(),
        [Apply::Focus { field, caret: Some(Act::Caret(3)) }] if field.name == "a"
    ));
}

#[test]
fn the_first_menu_request_wins() {
    let fields = vec![field("a", true, 1)];
    let at = LogicalPoint { x: 1, y: 2 };
    let over = || Site {
        field: Some(0),
        press: Some(Press {
            caret: None,
            focuses: false,
        }),
    };
    let mut queued = Vec::new();
    let resolved = resolve_deferred(
        &fields,
        vec![
            (Deferred::ContextMenu(at), over()),
            (Deferred::EditMenuAtCaret, over()),
            (Deferred::PrimaryPaste(at), over()),
        ],
        &mut queued,
        false,
    );
    assert_eq!(resolved.menu_anchor, Some(at));
    assert!(matches!(
        resolved.effects.as_slice(),
        [EditEffect::ReadPrimary(id)] if id.name == "a"
    ));
    assert!(queued.is_empty());
}

#[test]
fn a_selection_is_published_once() {
    let mut last = None;
    let fields = vec![field("a", true, 1)];
    assert_eq!(publish_primary(&fields, &mut last).as_deref(), Some("a text"));
    assert_eq!(publish_primary(&fields, &mut last), None);
    let changed = vec![field("a", true, 2)];
    assert_eq!(
        publish_primary(&changed, &mut last).as_deref(),
        Some("a text")
    );
    assert_eq!(publish_primary(&Vec::new(), &mut last), None);
}

#[test]
fn a_fresh_loop_probes_the_configured_server() {
    let l = started(SERVER);
    assert!(!l.model.connection.attached);
    assert!(matches!(
        l.model.connection.requests.as_slice(),
        [Request::Probe { cycle: 1, url }] if url == SERVER
    ));
    assert!(l.focus.cache_lost && l.focus.prior.is_none());
    let blank = started("  ");
    assert!(blank.model.connection.requests.is_empty());
    assert!(matches!(&blank.model.connection.phase, Phase::Editing { url } if url == "  "));
}
