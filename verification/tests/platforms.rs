use jellium::linux::{default_window_decorations, WindowDecorations};
use jellium::macos::{
    color_channels, first_flagged, frame_presented, idle_assertion_made,
    jfn_macos_compositor_cleanup, macos_alloc_surface, macos_apply_stack, macos_free_surface,
    macos_set_idle_inhibit, macos_surface_window_target, menu_spec, present_frame,
    software_frame_usable, window_wait, FrameGate, LinkStart, LinkState, MacCompositor, MenuItem,
    WindowWait, NULL_ASSERTION, WINDOW_WAIT,
};
use jellium::menu::engine::MENU_DISMISSED;
use jellium::paths::directory_of;
use jellium::time::{Duration, Instant};

#[test]
fn a_window_is_waited_for_until_the_deadline() {
    let started = Instant::from_nanos(1_000);
    let deadline = started.after(Duration::from_nanos(WINDOW_WAIT));
    assert_eq!(
        window_wait(false, started, deadline),
        WindowWait::Pump(Duration::from_nanos(5_000_000_000))
    );
    let late = Instant::from_nanos(deadline.nanos - 1);
    assert_eq!(
        window_wait(false, late, deadline),
        WindowWait::Pump(Duration::from_nanos(1))
    );
    assert_eq!(window_wait(false, deadline, deadline), WindowWait::GiveUp);
    assert_eq!(window_wait(true, deadline, deadline), WindowWait::Adopt);
}

#[test]
fn kde_draws_its_own_frames() {
    for (desktop, expected) in [
        (Some("KDE"), WindowDecorations::ServerThemed),
        (Some("kde"), WindowDecorations::ServerThemed),
        (Some("ubuntu:GNOME"), WindowDecorations::Csd),
        (Some("X-Cinnamon:KdE"), WindowDecorations::ServerThemed),
        (Some("KDE:GNOME"), WindowDecorations::ServerThemed),
        (Some("KDEX"), WindowDecorations::Csd),
        (Some(" KDE"), WindowDecorations::Csd),
        (Some("::"), WindowDecorations::Csd),
        (Some(""), WindowDecorations::Csd),
        (None, WindowDecorations::Csd),
    ] {
        assert_eq!(default_window_decorations(desktop), expected, "{desktop:?}");
    }
}

#[test]
fn engine_files_lie_beside_the_program() {
    let p = jellium::linux::cef_paths("/opt/jellium/bin/jellium", None);
    assert_eq!(
        p.browser_subprocess_path.as_deref(),
        Some("/opt/jellium/bin/jellium")
    );
    assert_eq!(p.resources_dir_path.as_deref(), Some("/opt/jellium/bin"));
    assert_eq!(
        p.locales_dir_path.as_deref(),
        Some("/opt/jellium/bin/locales")
    );
    assert_eq!(p.framework_dir_path, None);
    let fixed = jellium::linux::cef_paths("/opt/x", Some("/usr/share/cef"));
    assert_eq!(fixed.resources_dir_path.as_deref(), Some("/usr/share/cef"));
    assert_eq!(
        fixed.locales_dir_path.as_deref(),
        Some("/usr/share/cef/locales")
    );
    let nowhere = jellium::linux::cef_paths("", None);
    assert_eq!(nowhere.resources_dir_path.as_deref(), Some(""));
    assert_eq!(nowhere.locales_dir_path.as_deref(), Some("/locales"));
}

#[test]
fn a_bundle_holds_its_framework() {
    let p = jellium::macos::cef_paths("/Applications/J.app/Contents/MacOS/j");
    assert_eq!(
        p.framework_dir_path.as_deref(),
        Some("/Applications/J.app/Contents/Frameworks/Chromium Embedded Framework.framework")
    );
    assert_eq!(p.resources_dir_path, None);
    let shallow = jellium::macos::cef_paths("/j");
    assert_eq!(
        shallow.framework_dir_path.as_deref(),
        Some("/j/Frameworks/Chromium Embedded Framework.framework")
    );
    let unresolved = jellium::macos::cef_paths("");
    assert_eq!(
        unresolved.framework_dir_path.as_deref(),
        Some("Frameworks/Chromium Embedded Framework.framework")
    );
}

#[test]
fn directories_are_those_of_the_system() {
    for path in ["/", "/a", "/a/b", "/a/b/c.d", ""] {
        let expected = std::path::Path::new(path)
            .parent()
            .map(|p| p.to_string_lossy().into_owned());
        assert_eq!(directory_of(path), expected, "{path}");
    }
}

#[test]
fn only_live_surfaces_of_our_own_are_painted() {
    let mut c = MacCompositor::new();
    assert_eq!(present_frame(&c, 8), FrameGate::Drop);
    macos_alloc_surface(&mut c, 8);
    macos_alloc_surface(&mut c, 16);
    assert_eq!(present_frame(&c, 8), FrameGate::Present { main: false });
    assert_eq!(macos_apply_stack(&mut c, &[8, 99, 16]), vec![8, 16]);
    assert_eq!(present_frame(&c, 8), FrameGate::Present { main: true });
    c.gate.begin();
    c.gate.set_expected((640, 480));
    assert_eq!(present_frame(&c, 8), FrameGate::Drop);
    assert_eq!(present_frame(&c, 16), FrameGate::Present { main: false });
    frame_presented(&mut c, false, 640, 480);
    assert_eq!(present_frame(&c, 8), FrameGate::Drop);
    frame_presented(&mut c, true, 640, 480);
    assert_eq!(present_frame(&c, 8), FrameGate::Present { main: true });
    assert!(macos_surface_window_target(&mut c, 16));
    assert!(!macos_surface_window_target(&mut c, 99));
    assert!(!macos_surface_window_target(&mut c, 0));
    assert_eq!(present_frame(&c, 16), FrameGate::Drop);
    assert!(!macos_free_surface(&mut c, 0));
    assert!(macos_free_surface(&mut c, 8));
    assert_eq!(present_frame(&c, 8), FrameGate::Drop);
    assert_eq!(jfn_macos_compositor_cleanup(&mut c), vec![16]);
    assert!(c.stack.stack().is_empty());
    assert!(software_frame_usable(4, 1, 1));
    assert!(!software_frame_usable(0, 1, 1));
    assert!(!software_frame_usable(4, 0, 1));
}

#[test]
fn a_new_idle_level_replaces_the_old() {
    let mut held = NULL_ASSERTION;
    let plan = macos_set_idle_inhibit(&mut held, 2);
    assert_eq!(plan.release, None);
    assert_eq!(plan.create, Some("PreventUserIdleDisplaySleep"));
    idle_assertion_made(&mut held, true, 7);
    assert_eq!(held, 7);
    let plan = macos_set_idle_inhibit(&mut held, 1);
    assert_eq!(plan.release, Some(7));
    assert_eq!(plan.create, Some("PreventUserIdleSystemSleep"));
    idle_assertion_made(&mut held, false, 9);
    assert_eq!(held, NULL_ASSERTION);
    let plan = macos_set_idle_inhibit(&mut held, 0);
    assert_eq!((plan.release, plan.create), (None, None));
}

fn item(id: i32, separator: bool) -> MenuItem {
    MenuItem {
        id,
        label: format!("item {id}"),
        enabled: id != 2,
        separator,
    }
}

#[test]
fn a_native_menu_checks_its_initial_choice() {
    assert!(matches!(
        menu_spec(&Vec::new(), 1, 2, 0, 0),
        Err(MENU_DISMISSED)
    ));
    let spec = match menu_spec(&vec![item(1, false), item(2, false), item(1, true)], 3, 4, 50, 1) {
        Ok(spec) => spec,
        Err(id) => panic!("{id}"),
    };
    let checked: Vec<bool> = spec.entries.iter().map(|e| e.checked).collect();
    assert_eq!(checked, vec![true, false, false]);
    assert_eq!(spec.entries[1].title, "item 2");
    assert!(!spec.entries[1].enabled);
    assert_eq!((spec.x, spec.y), (3, 4));
    assert_eq!(spec.positioning_tag, Some(1));
    assert_eq!(spec.min_width, Some(50));
    let plain = match menu_spec(&vec![item(1, false)], 0, 0, 0, -1) {
        Ok(spec) => spec,
        Err(id) => panic!("{id}"),
    };
    assert_eq!(plain.positioning_tag, None);
    assert_eq!(plain.min_width, None);
}

#[test]
fn the_display_link_survives_a_failed_restart() {
    let mut link = LinkState {
        window: true,
        link: None,
        driver: false,
    };
    assert!(!link.ticks(false));
    assert_eq!(link.start_frame_driver(), LinkStart::Build);
    assert!(link.link_built(Some(1)));
    assert_eq!(link.start_frame_driver(), LinkStart::Running);
    assert!(link.ticks(false));
    assert!(!link.ticks(true));
    assert!(link.wants_restart(false));
    assert!(!link.wants_restart(true));
    assert_eq!(link.restarted(None), None);
    assert_eq!(link.link, Some(1));
    assert_eq!(link.restarted(Some(2)), Some(1));
    assert_eq!(link.stop_frame_driver(), Some(2));
    assert!(!link.ticks(false));
    assert!(!link.link_built(None));
}

#[test]
fn small_choices_on_macos() {
    assert_eq!(first_flagged(&vec![false, true, true]), Some(1));
    assert_eq!(first_flagged(&vec![false]), None);
    assert_eq!(color_channels(0x12_34_56), (0x12, 0x34, 0x56));
    assert_eq!(color_channels(0xFF12_3456), (0x12, 0x34, 0x56));
}
