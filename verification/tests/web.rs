use jellium::gpu::refresh::RefreshRate;
use jellium::gpu::types::{FrameSize, Presented};
use jellium::input::sink::ShellState;
use jellium::platform::{LogicalSize, PhysicalSize, Scale, WindowExtent, WindowSnapshot};
use jellium::web::app_menu::{
    dispatch, entries, Command, MENU_ID_ABOUT, MENU_ID_EXIT, MENU_ID_TOGGLE_FULLSCREEN,
};
use jellium::web::client::{
    navigate_history, on_before_popup, paste_script, recreates, request_frame, Client,
    CreatedPlan, FrameRequest, HistoryStep, Lifecycle, LoadAction, Painting, BLANK,
};
use jellium::web::frame_rate::FrameRate;
use jellium::web::init::{
    cef_settings, init_outcome, jfn_cef_initialize, jfn_cef_shutdown, platform_switches,
    undo_steps, CefPaths, DebuggingPort, DisplayBackend, InitError, InitStep, PendingSwitch,
};
use jellium::web::navigation::{Navigation, NavigationPresented};
use jellium::web::overlay::{ShutdownStep, WebOverlay};
use jellium::web::paint::{
    acquire, extents, frame_outcome, on_accelerated_paint, on_paint, software_pixels, ColorType,
    DmabufFormat, FrameOutcome, PaintRoute,
};
use jellium::web::settings::{apply_setting_value, js_text_accepted, SettingChange};
use jellium::web::size::{view_size, ViewSize};
use jellium::web::user_scripts::{host_of, injected_script, is_jellyfin_host, wants_script};

const SUBPATH_BASE: &str = "https://host/jellyfin";

/// A page of a base is the base itself or lies below it.
fn is_page_of(base: &str, url: &str) -> bool {
    url == base || url.starts_with(&format!("{base}/"))
}

fn awaiting(base: &str) -> Painting {
    Painting::Awaiting {
        navigation: Navigation::new(1),
        base: base.to_owned(),
    }
}

fn page(painting: &Painting, url: &str) -> bool {
    match painting.base() {
        Some(base) => is_page_of(base, url),
        None => false,
    }
}

#[test]
fn a_subpath_hosted_navigation_is_promoted_by_its_own_page() {
    let painting = awaiting(SUBPATH_BASE);
    let is_page = page(&painting, "https://host/jellyfin/web/index.html");
    let painting = painting.loaded(is_page);
    assert_eq!(painting.witness(), Some(Navigation::new(1)));
}

#[test]
fn a_page_of_another_base_promotes_nothing() {
    let painting = awaiting(SUBPATH_BASE);
    let is_page = page(&painting, "https://host/web/index.html");
    let painting = painting.loaded(is_page);
    assert_eq!(painting.witness(), None);
}

#[test]
fn a_failed_load_of_a_subpath_hosted_page_charges_its_navigation() {
    let painting = awaiting(SUBPATH_BASE);
    let is_page = page(&painting, "https://host/jellyfin/web/index.html");
    assert_eq!(painting.navigation_of(is_page), Some(Navigation::new(1)));
}

fn extent(physical: PhysicalSize, scale: f64, logical: LogicalSize) -> WindowExtent {
    WindowExtent {
        physical,
        scale: Scale {
            bits: scale.to_bits(),
        },
        logical,
    }
}

/// An extent whose logical size is its physical size divided by the scale.
fn derived(physical: PhysicalSize, scale: f64) -> WindowExtent {
    let logical = LogicalSize {
        w: (physical.w as f64 / scale).round() as i32,
        h: (physical.h as f64 / scale).round() as i32,
    };
    extent(physical, scale, logical)
}

fn snap(extent: Option<WindowExtent>) -> WindowSnapshot {
    WindowSnapshot {
        extent,
        maximized: false,
        fullscreen: false,
    }
}

#[test]
fn exact_logical_wins_over_division() {
    let extent = extent(
        PhysicalSize { w: 1497, h: 843 },
        2.5,
        LogicalSize { w: 598, h: 337 },
    );
    let size = match view_size(&snap(Some(extent)), 0) {
        Some(size) => size,
        None => panic!("expected size"),
    };
    assert_eq!(size.logical, LogicalSize { w: 598, h: 337 });
    assert_eq!(size.physical, PhysicalSize { w: 1497, h: 843 });
}

#[test]
fn derived_logical_divides_by_extent_scale() {
    let extent = derived(PhysicalSize { w: 1196, h: 636 }, 2.0);
    let size = match view_size(&snap(Some(extent)), 0) {
        Some(size) => size,
        None => panic!("expected size"),
    };
    assert_eq!(size.logical, LogicalSize { w: 598, h: 318 });
}

#[test]
fn missing_or_degenerate_extent_is_none() {
    assert!(view_size(&snap(None), 0).is_none());
    let zero = derived(PhysicalSize { w: 0, h: 720 }, 1.0);
    assert!(view_size(&snap(Some(zero)), 0).is_none());
}

#[test]
fn the_reserved_strip_comes_off_the_top_in_both_spaces() {
    let extent = derived(PhysicalSize { w: 1280, h: 720 }, 2.0);
    let size = match view_size(&snap(Some(extent)), 32) {
        Some(size) => size,
        None => panic!("expected size"),
    };
    assert_eq!(size.logical_top, 32);
    assert_eq!(size.physical_top, 64);
    assert_eq!(size.logical, LogicalSize { w: 640, h: 328 });
    assert_eq!(size.physical, PhysicalSize { w: 1280, h: 656 });
}

#[test]
fn a_strip_that_leaves_no_content_is_none() {
    let extent = derived(PhysicalSize { w: 640, h: 32 }, 1.0);
    assert!(view_size(&snap(Some(extent)), 32).is_none());
    assert!(view_size(&snap(Some(extent)), 64).is_none());
}

fn size_of(h: i32) -> ViewSize {
    match view_size(&snap(Some(derived(PhysicalSize { w: 640, h }, 1.0))), 0) {
        Some(size) => size,
        None => panic!("a size"),
    }
}

#[test]
fn a_size_is_recorded_only_for_a_live_browser() {
    let mut c = Client::new();
    assert!(c.apply_view_size(size_of(480)));
    assert!(c.apply_view_size(size_of(480)));
    assert_eq!(c.view_top(), 0);
    c.browser = true;
    let strip = ViewSize {
        logical_top: 32,
        physical_top: 32,
        ..size_of(480)
    };
    assert!(c.apply_view_size(strip));
    assert!(!c.apply_view_size(strip));
    assert_eq!(c.view_top(), 32);
    assert!(c.apply_view_size(size_of(500)));
}

#[test]
fn an_abandoned_navigation_leaves_a_blank_page() {
    let mut c = Client::new();
    let id = Navigation::new(3);
    c.set_navigation(id, SUBPATH_BASE);
    assert!(c.painting.names(id));
    assert_eq!(c.painting.base(), Some(SUBPATH_BASE));
    assert_eq!(c.witness_navigation(), None);
    c.note_main_frame_loaded(false);
    assert_eq!(c.witness_navigation(), None);
    c.note_main_frame_loaded(true);
    assert_eq!(c.witness_navigation(), Some(id));
    assert_eq!(c.load_navigation(true), Some(id));
    assert_eq!(c.load_navigation(false), None);
    assert!(c.abandon_navigation(Navigation::new(4)).is_none());
    assert_eq!(c.witness_navigation(), Some(id));
    c.has_browser = true;
    assert!(matches!(
        c.abandon_navigation(id),
        Some(LoadAction::Load(url)) if url == BLANK
    ));
    assert_eq!(c.witness_navigation(), None);
}

#[test]
fn an_address_waits_for_the_browser() {
    let mut c = Client::new();
    assert!(matches!(c.load_url("https://a"), LoadAction::Queued));
    assert!(matches!(c.load_url("https://b"), LoadAction::Queued));
    match c.handle_on_after_created(false) {
        CreatedPlan::Run { load } => assert_eq!(load.as_deref(), Some("https://b")),
        other => panic!("{other:?}"),
    }
    assert!(matches!(c.load_url("https://c"), LoadAction::Load(u) if u == "https://c"));
}

#[test]
fn a_browser_made_during_shutdown_is_closed() {
    let mut c = Client::new();
    assert!(matches!(
        c.handle_on_after_created(true),
        CreatedPlan::Close
    ));
}

#[test]
fn a_reset_closes_the_browser_and_makes_it_anew() {
    let mut c = Client::new();
    c.state = Lifecycle::PendingReset;
    c.pending_internal_reset = true;
    assert!(matches!(
        c.handle_on_after_created(false),
        CreatedPlan::ResizeThenClose
    ));
    let closed = c.handle_on_before_close();
    assert!(closed.recreate);
    assert!(recreates(closed, false));
    assert!(!recreates(closed, true));
    assert!(c.closed);
    assert_eq!(c.applied, None);
    assert!(matches!(
        c.handle_on_after_created(false),
        CreatedPlan::Run { load: None }
    ));
    assert_eq!(c.state, Lifecycle::Normal);
    assert!(!c.handle_on_before_close().recreate);
}

#[test]
fn frames_are_asked_for_only_while_there_is_a_browser() {
    assert_eq!(request_frame(false, true), FrameRequest::Nothing);
    assert_eq!(request_frame(true, false), FrameRequest::Invalidate);
    assert_eq!(request_frame(true, true), FrameRequest::InvalidateAndBegin);
}

#[test]
fn popups_open_outside_unless_they_look_like_options() {
    assert_eq!(on_before_popup("https://x").as_deref(), Some("https://x"));
    assert_eq!(on_before_popup(""), None);
    assert_eq!(on_before_popup("--new-window"), None);
}

#[test]
fn history_moves_only_where_there_is_some() {
    assert_eq!(
        navigate_history(true, true, false),
        Some(HistoryStep::Forward)
    );
    assert_eq!(navigate_history(true, false, true), None);
    assert_eq!(
        navigate_history(false, false, true),
        Some(HistoryStep::Back)
    );
    assert_eq!(navigate_history(false, true, false), None);
}

#[test]
fn pasted_text_is_handed_over_as_a_literal() {
    let script = paste_script(Some("\"a\\\"b\""));
    assert!(script.contains("\"a\\\"b\""), "{script}");
    assert_ne!(paste_script(None), script);
}

#[test]
fn sightings_name_their_navigation() {
    let presented = NavigationPresented::witnessed(Navigation::new(9), Presented::issued());
    assert_eq!(presented.navigation(), Navigation::new(9));
    assert_eq!(
        frame_outcome(true, true, Some(Navigation::new(9))),
        FrameOutcome::Presented(Some(Navigation::new(9)))
    );
    assert_eq!(
        frame_outcome(false, true, Some(Navigation::new(9))),
        FrameOutcome::Superseded
    );
    assert_eq!(
        frame_outcome(true, false, None),
        FrameOutcome::Superseded
    );
}

#[test]
fn unusable_frames_are_dropped() {
    assert_eq!(software_pixels(true, 3, 2), Some(24));
    assert_eq!(software_pixels(false, 3, 2), None);
    assert_eq!(software_pixels(true, 0, 2), None);
    assert_eq!(software_pixels(true, 3, -2), None);
    assert_eq!(
        on_paint(true, true, 3, 2, false, false, true),
        PaintRoute::Main
    );
    assert_eq!(
        on_paint(false, true, 3, 2, false, false, true),
        PaintRoute::Drop
    );
    assert_eq!(
        on_paint(true, true, 0, 2, false, false, true),
        PaintRoute::Drop
    );
    assert_eq!(
        on_paint(true, true, 3, 2, true, true, false),
        PaintRoute::Popup
    );
    assert_eq!(
        on_paint(true, true, 3, 2, true, false, true),
        PaintRoute::Drop
    );
    assert_eq!(
        on_accelerated_paint(true, false, false, false),
        PaintRoute::Drop
    );
    assert_eq!(
        on_accelerated_paint(true, false, false, true),
        PaintRoute::Main
    );
    assert_eq!(
        on_accelerated_paint(true, true, true, false),
        PaintRoute::Popup
    );
}

fn frame(w: i32, h: i32) -> FrameSize {
    FrameSize { w, h }
}

#[test]
fn shared_frames_have_a_known_format_and_a_plane() {
    let plan = match acquire(ColorType::Rgba8888, frame(8, 4), frame(-1, 3), 5, 4) {
        Some(plan) => plan,
        None => panic!("usable"),
    };
    assert_eq!(plan.format, DmabufFormat::Rgba8);
    assert_eq!(plan.coded, frame(8, 4));
    assert_eq!(plan.visible, frame(0, 3));
    assert_eq!(plan.planes, 4);
    assert!(acquire(ColorType::Other, frame(8, 4), frame(8, 4), 1, 4).is_none());
    assert!(acquire(ColorType::Bgra8888, frame(8, 0), frame(8, 4), 1, 4).is_none());
    assert!(acquire(ColorType::Bgra8888, frame(8, 4), frame(8, 4), 0, 4).is_none());
    assert!(acquire(ColorType::Bgra8888, frame(8, 4), frame(8, 4), -3, 4).is_none());
    assert_eq!(
        extents(frame(8, 4), frame(6, -4)),
        Some((frame(8, 4), frame(6, 0)))
    );
    assert_eq!(extents(frame(0, 4), frame(6, 4)), None);
}

#[test]
fn frame_rates_are_whole_and_positive() {
    let rate = |mhz| match RefreshRate::from_millihertz(mhz) {
        Some(r) => FrameRate::from_refresh(r),
        None => panic!("{mhz}"),
    };
    assert_eq!(rate(59_940).get(), 60);
    assert_eq!(rate(59_499).get(), 59);
    assert_eq!(rate(1).get(), 1);
    assert_eq!(rate(60_000).times(2).get(), 120);
    assert_eq!(rate(60_000).times(u32::MAX).get(), i32::MAX);
}

#[test]
fn hosts_are_read_out_of_addresses() {
    for (url, host) in [
        ("https://Example.ORG:8096/web?x#y", Some("example.org")),
        ("example.org/path", Some("example.org")),
        ("http://a?q", Some("a")),
        ("about:blank", Some("about")),
        ("https:///x", None),
        ("", None),
        ("x://y://z", Some("y")),
        ("https://É.org", Some("É.org")),
    ] {
        assert_eq!(host_of(url).as_deref(), host, "{url}");
    }
}

#[test]
fn the_servers_own_pages_get_no_script() {
    assert!(is_jellyfin_host("jf.local", "https://JF.local:8096"));
    assert!(!is_jellyfin_host("jf.local", ""));
    assert!(wants_script("https://other/x", "https://jf.local"));
    assert!(!wants_script("https://jf.local/x", "https://jf.local"));
    assert!(!wants_script("", "https://jf.local"));
    assert_eq!(
        injected_script("go('__SERVER_URL__','__SERVER_URL__')", "S").as_deref(),
        Some("go('S','S')")
    );
    assert_eq!(
        injected_script("____SERVER_URL____", "S"),
        Some("____SERVER_URL____".replace("__SERVER_URL__", "S"))
    );
    assert_eq!(injected_script(" \n", "S"), None);
}

#[test]
fn the_application_menu_has_three_commands() {
    let all: Vec<(i32, &str)> = entries().iter().map(|e| (e.id, e.label)).collect();
    assert_eq!(
        all,
        vec![
            (MENU_ID_TOGGLE_FULLSCREEN, "Toggle Fullscreen"),
            (MENU_ID_ABOUT, "About"),
            (MENU_ID_EXIT, "Exit"),
        ]
    );
    assert_eq!(
        dispatch(MENU_ID_TOGGLE_FULLSCREEN),
        Some(Command::ToggleFullscreen)
    );
    assert_eq!(dispatch(MENU_ID_ABOUT), Some(Command::About));
    assert_eq!(dispatch(MENU_ID_EXIT), Some(Command::Exit));
    assert_eq!(dispatch(-1), None);
}

#[test]
fn settings_go_by_their_keys() {
    assert!(matches!(
        apply_setting_value("windowDecorations", None),
        (SettingChange::WindowDecorations(None), true)
    ));
    assert!(matches!(
        apply_setting_value("hwdec", None),
        (SettingChange::MissingValue, false)
    ));
    assert!(matches!(
        apply_setting_value("hwdec", Some("auto")),
        (SettingChange::Hwdec(v), true) if v == "auto"
    ));
    assert!(matches!(
        apply_setting_value("audioExclusive", Some("true")),
        (SettingChange::AudioExclusive(true), true)
    ));
    assert!(matches!(
        apply_setting_value("audioExclusive", Some("TRUE")),
        (SettingChange::AudioExclusive(false), true)
    ));
    assert!(matches!(
        apply_setting_value("deviceName", Some("tv")),
        (SettingChange::DeviceName(v), true) if v == "tv"
    ));
    assert!(matches!(
        apply_setting_value("nope", Some("x")),
        (SettingChange::Unknown, true)
    ));
    assert!(js_text_accepted("x"));
}

fn pairs(switches: &[PendingSwitch]) -> Vec<(&str, Option<&str>)> {
    switches
        .iter()
        .map(|s| (s.name, s.value.as_deref()))
        .collect()
}

#[test]
fn each_backend_has_its_switches() {
    assert_eq!(
        pairs(&platform_switches(DisplayBackend::Wayland, None)),
        vec![
            ("ozone-platform", Some("wayland")),
            ("disable-features", Some("WaylandFractionalScaleV1")),
        ]
    );
    assert_eq!(
        pairs(&platform_switches(DisplayBackend::X11, None)),
        vec![("ozone-platform", Some("x11"))]
    );
    assert_eq!(
        pairs(&platform_switches(DisplayBackend::MacOS, None)),
        vec![
            ("single-process", None),
            ("use-mock-keychain", None),
            ("password-store", Some("basic")),
        ]
    );
    assert_eq!(
        pairs(&platform_switches(
            DisplayBackend::Windows,
            Some(0x0000_0007_0000_0009)
        )),
        vec![
            ("use-angle", Some("d3d11")),
            ("use-adapter-luid", Some("7,9")),
        ]
    );
}

#[test]
fn a_failed_start_is_undone() {
    let plan = jfn_cef_initialize(DisplayBackend::X11, None, true, true, false);
    assert_eq!(
        pairs(&plan.switches),
        vec![
            ("ozone-platform", Some("x11")),
            ("disable-gpu-compositing", None),
        ]
    );
    assert_eq!(
        plan.steps,
        vec![InitStep::PumpInit, InitStep::Initialize, InitStep::PostReady]
    );
    assert!(!plan.full_argv);
    assert_eq!(init_outcome(true, true), Ok(()));
    assert_eq!(init_outcome(false, true), Err(InitError::Native));
    assert_eq!(init_outcome(true, false), Err(InitError::Readiness));
    assert_eq!(
        undo_steps(true, InitError::Readiness),
        vec![
            InitStep::PumpShutdown,
            InitStep::StopReady,
            InitStep::Shutdown
        ]
    );
    assert_eq!(
        undo_steps(false, InitError::Native),
        vec![InitStep::StopReady]
    );
    assert_eq!(
        jfn_cef_shutdown(true),
        vec![InitStep::PumpShutdown, InitStep::Shutdown]
    );
    assert_eq!(jfn_cef_shutdown(false), vec![InitStep::Shutdown]);
}

#[test]
fn the_engine_is_pumped_by_its_host() {
    let paths = || CefPaths {
        browser_subprocess_path: Some("/opt/j".into()),
        framework_dir_path: None,
        resources_dir_path: Some("/opt".into()),
        locales_dir_path: Some("/opt/locales".into()),
    };
    let s = cef_settings(false, 2, 9222, "1.2.3", "/cache", paths());
    assert!(s.no_sandbox && s.windowless_rendering_enabled && s.disable_signal_handlers);
    assert!(s.multi_threaded_message_loop && !s.external_message_pump);
    assert_eq!(s.locale, "en-US");
    assert_eq!(s.user_agent, "Mozilla/5.0 jellium-desktop/1.2.3");
    assert_eq!(s.root_cache_path, "/cache");
    assert_eq!(s.log_severity, 2);
    assert_eq!(s.remote_debugging_port, 9222);
    assert_eq!(s.browser_subprocess_path, "/opt/j");
    assert_eq!(s.framework_dir_path, "");
    assert_eq!(s.locales_dir_path, "/opt/locales");
    let hosted = cef_settings(true, 0, 0, "", "", paths());
    assert!(!hosted.multi_threaded_message_loop && hosted.external_message_pump);
}

#[test]
fn debugging_ports_are_the_unprivileged_ones() {
    assert_eq!(
        DebuggingPort::from_number(0),
        Some(DebuggingPort::Disabled)
    );
    for bad in [1, 1023, 65536, -1] {
        assert_eq!(DebuggingPort::from_number(bad), None, "{bad}");
    }
    for good in [1024, 9222, 65535] {
        assert_eq!(
            DebuggingPort::from_number(good).map(|p| i64::from(p.number())),
            Some(good)
        );
    }
    assert_eq!(DebuggingPort::Disabled.number(), 0);
}

#[test]
fn the_overlay_makes_its_browser_once() {
    let mut o = WebOverlay::new(Some(7));
    let window = snap(Some(derived(PhysicalSize { w: 640, h: 480 }, 1.0)));
    assert!(o.sync_on_ui(None, &window).is_none());
    let state = ShellState {
        reserved_strip: 32,
        ..ShellState::default()
    };
    let plan = match o.sync_on_ui(Some(state), &window) {
        Some(plan) => plan,
        None => panic!("a size"),
    };
    assert!(plan.resize && plan.create);
    assert_eq!(plan.size.logical, LogicalSize { w: 640, h: 448 });
    let again = match o.sync_on_ui(Some(state), &window) {
        Some(plan) => plan,
        None => panic!("a size"),
    };
    assert!(!again.create);
    assert!(!o.ensure_browser());
    assert!(o.close_blocking());
    assert_eq!(
        o.shutdown(),
        vec![
            ShutdownStep::HideSurface,
            ShutdownStep::CloseBrowser,
            ShutdownStep::FreeSurface(7)
        ]
    );
}

#[test]
fn an_overlay_without_a_browser_closes_none() {
    let o = WebOverlay::new(None);
    assert!(!o.close_blocking());
}
