use jellium::menu::engine::{
    next_generation, on_layout, on_pixels, request_paint, row_height, step, take_job, view_ph,
    Job, Layout, MenuClose, MenuEffect, MenuEvent, MenuMetrics, MenuRequest, MenuState, Phase,
    RenderJob, Row, SurfaceOp, MENU_DISMISSED,
};

#[test]
fn shape_supersedes_a_queued_paint() {
    let mut s = MenuState::default();
    request_paint(&mut s);
    s.job = Some(s.job.map_or(RenderJob::Shape, |j| j.max(RenderJob::Shape)));
    assert_eq!(s.job, Some(RenderJob::Shape));
    request_paint(&mut s);
    assert_eq!(s.job, Some(RenderJob::Shape));
}

#[test]
fn content_sized_menus_are_never_clamped() {
    assert_eq!(view_ph(500, 20, 0, Some(100), 0), 500);
    assert_eq!(view_ph(500, 20, 120, None, 0), 500);
}

#[test]
fn width_constrained_menu_clamps_to_the_window_bottom() {
    assert_eq!(view_ph(500, 20, 120, Some(400), 100), 300);
    assert_eq!(view_ph(200, 20, 120, Some(400), 100), 200);
}

#[test]
fn a_bottom_anchor_keeps_one_row() {
    assert_eq!(view_ph(500, 20, 120, Some(400), 400), 20);
    assert_eq!(view_ph(500, 20, 120, Some(400), 900), 20);
}

#[test]
fn generations_start_at_one_and_never_hit_zero() {
    let mut s = MenuState::default();
    assert_eq!(next_generation(&mut s), 1);
    assert_eq!(next_generation(&mut s), 2);
    s.next_generation = u64::MAX;
    assert_eq!(next_generation(&mut s), 1);
}

const ROW: i32 = 28;

/// The pixels that a wheel delta scrolls, at 120 per detent.
fn scroll_step(dy: i32, row_h: i32) -> i32 {
    (dy as f32 / 120.0 * row_h as f32).round() as i32
}

fn layout(rows: usize) -> Layout {
    Layout {
        rows: (0..rows)
            .map(|i| Row {
                item: i,
                y: i as i32 * ROW,
                h: ROW,
                separator: false,
            })
            .collect(),
        width: 200,
        height: rows as i32 * ROW,
    }
}

const ONE: u32 = 0x3F80_0000;

fn request(width: i32, initial: i32) -> MenuRequest {
    MenuRequest {
        items: 11,
        on_selected: 22,
        x: 5,
        y: 0,
        width,
        initial,
    }
}

/// A menu of ten rows in a window that shows four of them.
fn shown(initial: i32) -> MenuState {
    let mut s = MenuState::default();
    s.open(request(120, initial));
    let generation = match take_job(&mut s) {
        Some(Job::Shape { generation, .. }) => generation,
        other => panic!("{other:?}"),
    };
    let metrics = MenuMetrics {
        scale_bits: ONE,
        clamp_ph: Some(4 * ROW),
    };
    on_layout(&mut s, generation, layout(10), metrics, 0);
    s.on_ready(generation);
    on_pixels(&mut s, generation, vec![0; 4]);
    s
}

fn scrolled(s: &MenuState) -> i32 {
    match &s.menu {
        Some(m) => m.scroll,
        None => panic!("no menu"),
    }
}

#[test]
fn one_detent_scrolls_one_row() {
    assert_eq!(scroll_step(120, 28), 28);
    assert_eq!(scroll_step(-120, 28), -28);
    assert_eq!(scroll_step(0, 28), 0);
    let mut s = shown(0);
    assert_eq!(s.menu.as_ref().map(row_height), Some(ROW));
    s.scroll(scroll_step(-120, ROW));
    assert_eq!(scrolled(&s), ROW);
    s.scroll(scroll_step(120, ROW));
    assert_eq!(scrolled(&s), 0);
}

#[test]
fn scrolling_stops_at_both_ends() {
    let mut s = shown(0);
    s.scroll(50);
    assert_eq!(scrolled(&s), 0);
    s.scroll(-10_000);
    assert_eq!(scrolled(&s), 6 * ROW);
    assert_eq!(s.job, Some(RenderJob::Paint));
}

#[test]
fn the_initial_choice_is_scrolled_into_view() {
    assert_eq!(scrolled(&shown(9)), 6 * ROW);
    assert_eq!(scrolled(&shown(4)), ROW);
    assert_eq!(scrolled(&shown(3)), 0);
}

#[test]
fn an_armed_popup_is_empty_until_its_menu_comes() {
    let mut s = MenuState::default();
    let out = s.arm(3, 4, 77);
    match out.ops.as_slice() {
        [SurfaceOp::Create {
            generation: 1,
            place,
            serial: 77,
        }] => assert_eq!((place.x, place.y, place.pw, place.ph), (3, 4, 1, 1)),
        other => panic!("{other:?}"),
    }
    assert!(out.fire.is_none());
    assert!(s.is_engaged());
    assert!(!s.is_active());
    assert!(!s.has_menu());
    s.on_ready(1);
    assert_eq!(s.phase, Phase::Placeholder);
    assert!(s.open(request(0, MENU_DISMISSED)).fire.is_none());
    assert_eq!(s.anchor(), Some((5, 0)));
    assert!(matches!(
        take_job(&mut s),
        Some(Job::Shape {
            generation: 1,
            items: 11,
            width: 0
        })
    ));
    let metrics = MenuMetrics {
        scale_bits: ONE,
        clamp_ph: Some(50),
    };
    let out = on_layout(&mut s, 1, layout(3), metrics, 0);
    match out.ops.as_slice() {
        [SurfaceOp::Present(blank), SurfaceOp::Reposition {
            generation: 1,
            place,
        }] => {
            assert_eq!(blank.pixels, vec![0u8; 4]);
            assert_eq!((place.pw, place.ph), (200, 3 * ROW));
        }
        other => panic!("{other:?}"),
    }
    assert_eq!(s.phase, Phase::AwaitMenu);
    assert!(s.is_active());
    let out = s.on_ready(1);
    assert!(matches!(out.ops.as_slice(), [SurfaceOp::Reposition { .. }]));
    assert_eq!(s.phase, Phase::Shown);
    assert!(matches!(
        take_job(&mut s),
        Some(Job::Paint {
            generation: 1,
            items: 11,
            active: -1
        })
    ));
}

#[test]
fn answers_of_an_earlier_popup_are_ignored() {
    let mut s = MenuState::default();
    s.arm(0, 0, 1);
    s.arm(0, 0, 2);
    assert!(s.on_ready(1).ops.is_empty());
    assert_eq!(s.phase, Phase::AwaitPlaceholder);
    assert!(s.on_done(1).ops.is_empty());
    let out = s.on_done(2);
    assert!(matches!(
        out.ops.as_slice(),
        [SurfaceOp::Destroy {
            generation: 2,
            reason: MenuClose::External
        }]
    ));
    assert_eq!(s.phase, Phase::Idle);
    assert!(on_pixels(&mut s, 2, Vec::new()).ops.is_empty());
}

#[test]
fn a_speculative_popup_goes_without_a_menu() {
    let mut s = MenuState::default();
    assert!(s.dismiss_if_speculative().ops.is_empty());
    s.arm(0, 0, 1);
    let out = s.dismiss_if_speculative();
    assert!(matches!(
        out.ops.as_slice(),
        [SurfaceOp::Destroy {
            generation: 1,
            reason: MenuClose::Speculative
        }]
    ));
    let mut with_menu = shown(0);
    assert!(with_menu.dismiss_if_speculative().ops.is_empty());
    assert!(with_menu.has_menu());
}

#[test]
fn a_second_menu_dismisses_the_first() {
    let mut s = shown(0);
    let out = s.open(MenuRequest {
        on_selected: 33,
        ..request(0, 0)
    });
    assert_eq!(out.fire, Some((22, MENU_DISMISSED)));
    let out = s.arm(0, 0, 1);
    assert_eq!(out.fire, Some((33, MENU_DISMISSED)));
}

#[test]
fn input_reaches_a_menu_that_is_on_the_screen() {
    let mut s = shown(9);
    assert_eq!(
        s.motion(3, 4),
        Some(MenuEvent::Motion {
            x: 3,
            y: 4 + 6 * ROW
        })
    );
    assert_eq!(
        s.press(3, 4),
        Some(MenuEvent::Press {
            x: 3,
            y: 4 + 6 * ROW
        })
    );
    assert_eq!(s.key(65), Some(MenuEvent::Key(65)));
    assert_eq!(s.dismiss(), Some(MenuEvent::Dismiss));
    assert!(s.takes_input());
    s.job = None;
    s.expose();
    assert_eq!(s.job, Some(RenderJob::Paint));
    let unmapped = MenuState::default();
    assert_eq!(unmapped.motion(0, 0), None);
    assert_eq!(unmapped.press(0, 0), None);
    assert_eq!(unmapped.key(65), None);
    assert_eq!(unmapped.dismiss(), None);
    assert!(!unmapped.takes_input());
}

#[test]
fn a_key_scrolls_to_the_row_it_highlights() {
    let mut s = shown(0);
    s.job = None;
    let out = step(&mut s, MenuEvent::Key(0), 7, &vec![MenuEffect::Redraw]);
    assert!(out.ops.is_empty());
    assert_eq!(scrolled(&s), 4 * ROW);
    assert_eq!(s.job, Some(RenderJob::Paint));
    let out = step(
        &mut s,
        MenuEvent::Motion { x: 0, y: 0 },
        0,
        &Vec::new(),
    );
    assert!(out.fire.is_none());
    assert_eq!(scrolled(&s), 4 * ROW);
}

#[test]
fn a_choice_closes_the_menu_with_its_answer() {
    let mut s = shown(0);
    let out = step(
        &mut s,
        MenuEvent::Press { x: 0, y: 0 },
        2,
        &vec![MenuEffect::Close(2), MenuEffect::Redraw],
    );
    assert_eq!(out.fire, Some((22, 2)));
    assert!(matches!(
        out.ops.as_slice(),
        [SurfaceOp::Destroy {
            reason: MenuClose::Finished,
            ..
        }]
    ));
    assert!(!s.has_menu());
    assert_eq!(s.job, None);
}

#[test]
fn hiding_answers_nobody_and_shutting_down_dismisses() {
    let mut s = shown(0);
    let out = s.hide_menu();
    assert!(out.fire.is_none());
    assert!(matches!(
        out.ops.as_slice(),
        [SurfaceOp::Destroy {
            reason: MenuClose::Finished,
            ..
        }]
    ));
    assert!(s.hide_menu().ops.is_empty());
    let mut s = shown(0);
    assert_eq!(s.shut_down().fire, Some((22, MENU_DISMISSED)));
    assert!(s.shutdown);
}

#[test]
fn only_the_highlighted_row_has_to_add_up() {
    let mut s = MenuState::default();
    s.open(request(0, MENU_DISMISSED));
    let mut wild = layout(10);
    wild.rows[0].h = i32::MAX;
    wild.rows[0].y = i32::MAX;
    let metrics = MenuMetrics {
        scale_bits: ONE,
        clamp_ph: Some(i32::MIN),
    };
    on_layout(&mut s, 1, wild, metrics, i32::MAX);
    match &s.menu {
        Some(m) => assert_eq!((m.view_ph, m.scroll), (m.ph, 0)),
        None => panic!("no menu"),
    }
}
