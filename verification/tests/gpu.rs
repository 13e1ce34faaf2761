use jellium::gpu::context::{
    any_adapter, can_import_shared, enumerated, is_hardware, pick_adapter, pipeline, AdapterEntry,
    DeviceType,
};
use jellium::gpu::error::{Kind, SurfaceLost};
use jellium::gpu::painter::{
    check_buffer, clip_rect, configure_needed, frame_extent, pick_alpha_mode, texels, AlphaMode,
    AlphaSource, ConfigureSite, PresentFailed, PresentPolicy, SizePolicy, TextureWrite,
    UploadTexture,
};
use jellium::gpu::refresh::{
    current_refresh_rate, refresh_interval, report_refresh, subscribe, unsubscribe, RefreshBoard,
    RefreshRate, RefreshSource,
};
use jellium::gpu::surface::{
    acquire_failure, acquire_frame, draw_and_present, AcquireStatus, AcquireStep, DrawStep, Surface,
};
use jellium::gpu::swapchain::Swapchain;
use jellium::gpu::types::{DamageRect, Deferred, FrameSize, PaintMode, Pixels, WindowTarget};
use jellium::time::{Duration, Instant};

fn xcb() -> WindowTarget {
    WindowTarget::Xcb {
        connection: 8,
        window: 1,
        screen: 0,
        visual: 0,
    }
}

fn wayland() -> WindowTarget {
    WindowTarget::Wayland {
        display: 8,
        surface: 8,
    }
}

fn composition_visual() -> WindowTarget {
    WindowTarget::CompositionVisual { visual: 8 }
}

fn core_animation_layer() -> WindowTarget {
    WindowTarget::CoreAnimationLayer { layer: 8 }
}

#[test]
fn size_policy_follows_the_window_target() {
    assert_eq!(SizePolicy::for_target(&xcb()), SizePolicy::FollowTarget);
    assert_eq!(SizePolicy::for_target(&wayland()), SizePolicy::FollowFrame);
    assert_eq!(
        SizePolicy::for_target(&composition_visual()),
        SizePolicy::FollowFrame
    );
    assert_eq!(
        SizePolicy::for_target(&core_animation_layer()),
        SizePolicy::FollowTarget
    );
}

#[test]
fn alpha_source_follows_the_window_target() {
    assert_eq!(AlphaSource::for_target(&xcb()), AlphaSource::Premultiplied);
    assert_eq!(
        AlphaSource::for_target(&wayland()),
        AlphaSource::Premultiplied
    );
    assert_eq!(
        AlphaSource::for_target(&composition_visual()),
        AlphaSource::Premultiplied
    );
    assert_eq!(
        AlphaSource::for_target(&core_animation_layer()),
        AlphaSource::Straight
    );
}

#[test]
fn present_policy_follows_the_window_target() {
    assert_eq!(PresentPolicy::for_target(&xcb()), PresentPolicy::Fifo);
    assert_eq!(PresentPolicy::for_target(&wayland()), PresentPolicy::Fifo);
    assert_eq!(
        PresentPolicy::for_target(&composition_visual()),
        PresentPolicy::Mailbox
    );
    assert_eq!(
        PresentPolicy::for_target(&core_animation_layer()),
        PresentPolicy::Fifo
    );
}

#[test]
fn configure_site_follows_the_window_target() {
    assert_eq!(ConfigureSite::for_target(&xcb()), ConfigureSite::Painter);
    assert_eq!(
        ConfigureSite::for_target(&wayland()),
        ConfigureSite::Painter
    );
    assert_eq!(
        ConfigureSite::for_target(&composition_visual()),
        ConfigureSite::Painter
    );
    assert_eq!(
        ConfigureSite::for_target(&core_animation_layer()),
        ConfigureSite::Owner
    );
}

#[test]
fn content_detached_forces_a_configure_at_an_unchanged_extent() {
    assert!(!configure_needed(false, false));
    assert!(configure_needed(false, true));
    assert!(configure_needed(true, false));
}

#[test]
fn clip_rect_clamps_negative_origin() {
    assert_eq!(clip_rect(-2, -2, 4, 4, 10, 10), (0, 0, 2, 2));
}

#[test]
fn clip_rect_clamps_overflow() {
    assert_eq!(clip_rect(8, 8, 10, 10, 10, 10), (8, 8, 2, 2));
}

#[test]
fn clip_rect_passes_through_in_bounds() {
    assert_eq!(clip_rect(1, 2, 3, 4, 10, 10), (1, 2, 3, 4));
}

#[test]
fn clip_rect_collapses_fully_off_frame() {
    assert_eq!(clip_rect(10, 0, 4, 4, 10, 10), (9, 0, 0, 4));
    assert_eq!(clip_rect(0, 10, 4, 4, 10, 10), (0, 9, 4, 0));
}

fn rect(x: i32, y: i32, w: i32, h: i32) -> DamageRect {
    DamageRect { x, y, w, h }
}

#[test]
fn clamped_clamps_negative_origin() {
    assert_eq!(rect(-2, -2, 4, 4).clamped(10, 10), Some(rect(0, 0, 2, 2)));
}

#[test]
fn clamped_clamps_overflow() {
    assert_eq!(rect(8, 8, 10, 10).clamped(10, 10), Some(rect(8, 8, 2, 2)));
}

#[test]
fn clamped_rejects_zero_and_off_screen() {
    assert_eq!(rect(0, 0, 0, 5).clamped(10, 10), None);
    assert_eq!(rect(10, 0, 4, 4).clamped(10, 10), None);
}

#[test]
fn clamped_passes_through_in_bounds() {
    assert_eq!(rect(1, 2, 3, 4).clamped(10, 10), Some(rect(1, 2, 3, 4)));
}

#[test]
fn clamped_survives_extreme_extent() {
    assert_eq!(
        rect(1, 1, i32::MAX, i32::MAX).clamped(10, 10),
        Some(rect(1, 1, 9, 9))
    );
}

#[test]
fn clamping_twice_is_clamping_once() {
    for r in [rect(-5, 3, 9, 20), rect(2, 2, 3, 3), rect(-1, -1, 400, 1)] {
        let once = r.clamped(12, 8);
        assert_eq!(once.and_then(|c| c.clamped(12, 8)), once);
    }
}

/// The rate of a frequency in hertz.
fn from_hz(hz: f64) -> Option<RefreshRate> {
    if !hz.is_finite() || hz <= 0.0 {
        return None;
    }
    let scaled = hz * 1000.0;
    let floor = scaled.floor() as i128;
    RefreshRate::from_scaled_hz(floor, scaled - floor as f64 >= 0.5)
}

#[test]
fn sixty_hertz_and_sixty_thousand_millihertz_name_one_period() {
    assert_eq!(
        from_hz(60.0).map(RefreshRate::period),
        RefreshRate::from_millihertz(60_000).map(RefreshRate::period)
    );
    assert_eq!(
        from_hz(60.0).map(RefreshRate::period),
        Some(Duration::from_nanos(16_666_667))
    );
}

#[test]
fn a_rate_whose_period_is_under_a_nanosecond_is_rejected() {
    assert_eq!(from_hz(1e9 + 1.0), None);
    assert_eq!(from_hz(0.0), None);
    assert_eq!(from_hz(f64::NAN), None);
    assert_eq!(RefreshRate::from_millihertz(0), None);
    assert_eq!(RefreshRate::from_millihertz(-1), None);
}

#[test]
fn half_a_millihertz_rounds_up() {
    assert_eq!(
        RefreshRate::from_scaled_hz(59_940, false).map(RefreshRate::millihertz),
        Some(59_940)
    );
    assert_eq!(
        RefreshRate::from_scaled_hz(59_940, true).map(RefreshRate::millihertz),
        Some(59_941)
    );
    assert_eq!(
        RefreshRate::from_scaled_hz(0, true).map(RefreshRate::millihertz),
        Some(1)
    );
    assert_eq!(RefreshRate::from_scaled_hz(-1, false), None);
    assert_eq!(
        RefreshRate::from_millihertz(1).map(RefreshRate::period),
        Some(Duration::from_nanos(1_000_000_000_000))
    );
}

fn mhz(n: i32) -> RefreshRate {
    match RefreshRate::from_millihertz(n) {
        Some(r) => r,
        None => panic!("{n}"),
    }
}

#[test]
fn a_weightier_source_keeps_its_rate() {
    let mut board = RefreshBoard::new();
    assert_eq!(current_refresh_rate(&board), None);
    assert_eq!(refresh_interval(&board), None);
    assert!(report_refresh(&mut board, RefreshSource::MpvDisplayFps, mhz(60_000)));
    assert!(!report_refresh(&mut board, RefreshSource::MpvDisplayFps, mhz(60_000)));
    assert!(report_refresh(&mut board, RefreshSource::OutputMode, mhz(144_000)));
    assert!(!report_refresh(&mut board, RefreshSource::MpvDisplayFps, mhz(30_000)));
    assert_eq!(current_refresh_rate(&board), Some(mhz(144_000)));
    assert_eq!(
        refresh_interval(&board),
        Some(Duration::from_nanos(6_944_444))
    );
}

#[test]
fn subscribers_come_and_go_by_number() {
    let mut board = RefreshBoard::new();
    let a = subscribe(&mut board);
    let b = subscribe(&mut board);
    assert_ne!(a, b);
    unsubscribe(&mut board, a);
    assert_eq!(board.subscribers, vec![b]);
    let c = subscribe(&mut board);
    assert_ne!(c, a);
    assert_eq!(board.subscribers, vec![b, c]);
}

#[test]
fn a_deferred_frame_is_tried_one_interval_later() {
    let now = Instant::from_nanos(1_000);
    assert_eq!(Deferred::new().retry_at(now, None), None);
    assert_eq!(
        Deferred::new().retry_at(now, Some(Duration::from_nanos(16))),
        Some(Instant::from_nanos(1_016))
    );
}

#[test]
fn alpha_modes_are_tried_from_premultiplied_down() {
    assert_eq!(
        pick_alpha_mode(&vec![AlphaMode::Opaque, AlphaMode::PreMultiplied]),
        AlphaMode::PreMultiplied
    );
    assert_eq!(
        pick_alpha_mode(&vec![AlphaMode::Opaque, AlphaMode::Inherit]),
        AlphaMode::Inherit
    );
    assert_eq!(pick_alpha_mode(&vec![AlphaMode::Auto]), AlphaMode::Auto);
    assert_eq!(pick_alpha_mode(&Vec::new()), AlphaMode::Auto);
}

fn size(w: i32, h: i32) -> FrameSize {
    FrameSize { w, h }
}

#[test]
fn frames_have_positive_sides_within_the_limit() {
    assert_eq!(texels(size(3, 4)), Some((3, 4)));
    assert_eq!(texels(size(0, 4)), None);
    assert_eq!(texels(size(3, -4)), None);
    assert!(matches!(frame_extent(size(8, 8), 8), Ok((8, 8))));
    match frame_extent(size(9, 8), 8) {
        Err(lost) => assert_eq!(lost.message(), "invalid frame dimensions: 9x8"),
        Ok(e) => panic!("{e:?}"),
    }
}

fn pixels<'a>(w: i32, h: i32, bytes: &'a [u8], dirty: &'a [DamageRect]) -> Pixels<'a> {
    Pixels {
        size: size(w, h),
        stride: w as u32 * 4,
        bgra: bytes,
        dirty,
    }
}

#[test]
fn a_buffer_has_to_cover_its_frame() {
    let bytes = vec![0u8; 4 * 2 * 3];
    assert!(check_buffer(&pixels(2, 3, &bytes, &[]), 2, 3).is_ok());
    match check_buffer(&pixels(2, 3, &bytes[1..], &[]), 2, 3) {
        Err(lost) => assert_eq!(
            lost.message(),
            "frame buffer does not cover 2x3 at stride 8: 23 bytes"
        ),
        Ok(()) => panic!("one byte short"),
    }
    let narrow = Pixels {
        size: size(2, 1),
        stride: 7,
        bgra: &bytes,
        dirty: &[],
    };
    assert!(check_buffer(&narrow, 2, 1).is_err());
    let padded = Pixels {
        size: size(1, 2),
        stride: 20,
        bgra: &bytes,
        dirty: &[],
    };
    assert!(check_buffer(&padded, 1, 2).is_ok());
}

#[test]
fn the_first_upload_is_whole_and_later_ones_are_the_damage() {
    let bytes = vec![0u8; 4 * 10 * 10];
    let damage = [rect(1, 2, 3, 4), rect(20, 20, 1, 1), rect(8, 9, 5, 5)];
    let mut upload = UploadTexture {
        w: 10,
        h: 10,
        needs_base: true,
    };
    let first = upload.write(&pixels(10, 10, &bytes, &damage), 10, 10);
    assert_eq!(
        first,
        vec![TextureWrite {
            x: 0,
            y: 0,
            w: 10,
            h: 10,
            start: 0,
            end: 400,
        }]
    );
    assert!(!upload.needs_base);
    let second = upload.write(&pixels(10, 10, &bytes, &damage), 10, 10);
    assert_eq!(
        second,
        vec![
            TextureWrite {
                x: 1,
                y: 2,
                w: 3,
                h: 4,
                start: 84,
                end: 84 + 3 * 40 + 12,
            },
            TextureWrite {
                x: 8,
                y: 9,
                w: 2,
                h: 1,
                start: 392,
                end: 400,
            },
        ]
    );
    let all = upload.write(&pixels(10, 10, &bytes, &[]), 10, 10);
    assert_eq!(all, first);
}

fn surface(target: &WindowTarget) -> Surface {
    match Surface::new(
        target,
        size(100, 50),
        4096,
        Ok(true),
        &vec![AlphaMode::PreMultiplied],
    ) {
        Ok(s) => s,
        Err(e) => panic!("{}", e.message()),
    }
}

#[test]
fn a_surface_needs_a_frame_size_and_support() {
    let offered = vec![AlphaMode::Opaque];
    let no_size = Surface::new(&wayland(), size(0, 1), 10, Ok(true), &offered);
    assert!(matches!(
        no_size,
        Err(SurfaceLost {
            kind: Kind::BadDimensions(_)
        })
    ));
    let too_large = Surface::new(&wayland(), size(11, 1), 10, Ok(true), &offered);
    assert!(matches!(
        too_large,
        Err(SurfaceLost {
            kind: Kind::BadDimensions(_)
        })
    ));
    let unsupported = Surface::new(&wayland(), size(1, 1), 10, Ok(false), &offered);
    assert!(matches!(
        unsupported,
        Err(SurfaceLost {
            kind: Kind::SurfaceUnsupported
        })
    ));
    let lost = SurfaceLost {
        kind: Kind::SurfaceCreate("gone".to_owned()),
    };
    match Surface::new(&wayland(), size(1, 1), 10, Err(lost), &offered) {
        Err(e) => assert_eq!(e.message(), "surface creation failed: gone"),
        Ok(s) => panic!("{s:?}"),
    }
}

#[test]
fn a_fresh_surface_is_configured_once() {
    let mut s = surface(&wayland());
    assert_eq!((s.config.width, s.config.height), (100, 50));
    assert!(s.take_configured());
    assert!(!s.take_configured());
}

#[test]
fn a_surface_keeps_to_one_kind_of_frame() {
    let mut s = surface(&wayland());
    assert!(s.latch(PaintMode::Copied).is_ok());
    assert!(s.latch(PaintMode::Copied).is_ok());
    match s.present_shared(size(100, 50)) {
        Err(e) => assert_eq!(e.message(), "frame kind changed on a live surface"),
        Ok(p) => panic!("{p:?}"),
    }
}

#[test]
fn a_wayland_surface_follows_its_frames() {
    let bytes = vec![0u8; 4 * 60 * 40];
    let mut s = surface(&wayland());
    assert!(!s.resize(size(80, 80)));
    let plan = match s.present_pixels(&pixels(60, 40, &bytes, &[])) {
        Ok(p) => p,
        Err(e) => panic!("{}", e.message()),
    };
    assert_eq!((plan.width, plan.height), (60, 40));
    assert!(plan.configure);
    assert!(plan.fresh_texture);
    let again = match s.present_pixels(&pixels(60, 40, &bytes, &[])) {
        Ok(p) => p,
        Err(e) => panic!("{}", e.message()),
    };
    assert!(!again.configure);
    assert!(!again.fresh_texture);
    s.content_detached();
    let detached = match s.present_pixels(&pixels(60, 40, &bytes, &[])) {
        Ok(p) => p,
        Err(e) => panic!("{}", e.message()),
    };
    assert!(detached.configure);
    assert!(!detached.fresh_texture);
}

#[test]
fn an_x11_surface_follows_its_window() {
    let mut s = surface(&xcb());
    assert!(!s.resize(size(80, 60)));
    let plan = match s.present_shared(size(100, 50)) {
        Ok(p) => p,
        Err(e) => panic!("{}", e.message()),
    };
    assert_eq!((plan.width, plan.height), (80, 60));
    assert_eq!(plan.viewport, Some((80, 50)));
    assert!(plan.configure);
}

#[test]
fn a_layer_is_configured_by_its_owner() {
    let mut s = surface(&core_animation_layer());
    assert!(s.resize(size(80, 60)));
    assert!(!s.resize(size(0, 60)));
    let plan = match s.present_shared(size(100, 50)) {
        Ok(p) => p,
        Err(e) => panic!("{}", e.message()),
    };
    assert_eq!((plan.width, plan.height), (80, 60));
    assert!(!plan.configure);
    assert_eq!(plan.viewport, Some((80, 50)));
}

#[test]
fn a_binding_is_kept_while_its_import_is() {
    let mut s = surface(&wayland());
    assert!(matches!(s.bind_shared(Some(true)), Ok(false)));
    assert!(matches!(s.bind_shared(Some(true)), Ok(true)));
    assert!(matches!(s.bind_shared(Some(false)), Ok(false)));
    assert!(matches!(s.bind_shared(Some(true)), Ok(true)));
    assert!(matches!(s.bind_shared(None), Err(PresentFailed::Import)));
    assert!(matches!(s.bind_shared(Some(true)), Ok(true)));
}

#[test]
fn a_frame_that_cannot_be_acquired_says_why() {
    assert!(acquire_failure(AcquireStep::Use { suboptimal: true }).is_none());
    assert!(acquire_failure(AcquireStep::Reconfigure).is_none());
    assert!(matches!(
        acquire_failure(AcquireStep::Defer),
        Some(PresentFailed::Deferred)
    ));
    match acquire_failure(AcquireStep::Fail) {
        Some(PresentFailed::Lost(lost)) => {
            assert!(matches!(lost.kind, Kind::Acquire("validation")));
            assert_eq!(lost.message(), "swapchain acquire failed: validation");
        }
        _ => panic!("the surface is lost"),
    }
}

#[test]
fn acquiring_configures_at_most_once() {
    let p = ConfigureSite::Painter;
    let o = ConfigureSite::Owner;
    assert_eq!(
        acquire_frame(p, false, AcquireStatus::Success),
        AcquireStep::Use { suboptimal: false }
    );
    assert_eq!(
        acquire_frame(p, false, AcquireStatus::Suboptimal),
        AcquireStep::Use { suboptimal: true }
    );
    assert_eq!(
        acquire_frame(o, false, AcquireStatus::Suboptimal),
        AcquireStep::Defer
    );
    assert_eq!(
        acquire_frame(p, false, AcquireStatus::Lost),
        AcquireStep::Reconfigure
    );
    assert_eq!(
        acquire_frame(p, true, AcquireStatus::Lost),
        AcquireStep::Defer
    );
    assert_eq!(
        acquire_frame(o, false, AcquireStatus::Outdated),
        AcquireStep::Defer
    );
    assert_eq!(
        acquire_frame(p, false, AcquireStatus::Timeout),
        AcquireStep::Defer
    );
    assert_eq!(
        acquire_frame(p, false, AcquireStatus::Occluded),
        AcquireStep::Defer
    );
    assert_eq!(
        acquire_frame(p, false, AcquireStatus::Validation),
        AcquireStep::Fail
    );
}

#[test]
fn drawing_ends_with_the_frame_on_the_screen() {
    let alpha = AlphaSource::Straight;
    assert_eq!(
        draw_and_present(alpha, None, None, false),
        vec![
            DrawStep::Draw {
                alpha,
                viewport: None
            },
            DrawStep::NotifyPresent,
            DrawStep::Present,
        ]
    );
    assert_eq!(
        draw_and_present(alpha, Some(7), Some((80, 50)), true),
        vec![
            DrawStep::AcquireBarrier(7),
            DrawStep::Draw {
                alpha,
                viewport: Some((80, 50))
            },
            DrawStep::NotifyPresent,
            DrawStep::Present,
            DrawStep::Configure,
        ]
    );
}

#[test]
fn failures_say_what_failed() {
    assert_eq!(
        PresentFailed::Deferred.message(),
        "swapchain deferred the frame"
    );
    assert_eq!(PresentFailed::Import.message(), "shared frame import failed");
    let lost = SurfaceLost {
        kind: Kind::Acquire("validation"),
    };
    assert_eq!(
        PresentFailed::Lost(lost).message(),
        "swapchain acquire failed: validation"
    );
    for (kind, message) in [
        (Kind::NoAdapter, "no usable adapter available"),
        (
            Kind::DeviceRequest("x".to_owned()),
            "device request failed: x",
        ),
        (
            Kind::SurfaceUnsupported,
            "adapter does not support requested surface",
        ),
    ] {
        assert_eq!(SurfaceLost { kind }.message(), message);
    }
}

#[test]
fn a_swapchain_follows_its_window() {
    let offered = vec![AlphaMode::PreMultiplied];
    let mut s = match Swapchain::new(&wayland(), size(100, 50), 4096, Ok(true), &offered) {
        Ok(s) => s,
        Err(e) => panic!("{}", e.message()),
    };
    assert!(!s.resize(size(100, 50)));
    assert!(s.resize(size(120, 50)));
    assert_eq!((s.config.width, s.config.height), (120, 50));
    assert!(!s.resize(size(-1, 50)));
    assert_eq!(
        s.acquire(false, AcquireStatus::Success),
        AcquireStep::Use { suboptimal: false }
    );
}

fn adapter(device_type: DeviceType, matches_producer: bool) -> AdapterEntry {
    AdapterEntry {
        device_type,
        matches_producer,
    }
}

#[test]
fn hardware_is_preferred_and_the_producers_above_all() {
    let cpu = adapter(DeviceType::Cpu, false);
    let integrated = adapter(DeviceType::IntegratedGpu, false);
    let discrete = adapter(DeviceType::DiscreteGpu, true);
    assert!(is_hardware(DeviceType::DiscreteGpu));
    assert!(!is_hardware(DeviceType::Cpu));
    assert!(!any_adapter(&Vec::new()));
    assert!(any_adapter(&vec![integrated]));
    assert_eq!(
        pick_adapter(&vec![integrated, discrete], true),
        Some((1, true))
    );
    let elsewhere = adapter(DeviceType::DiscreteGpu, false);
    let virtual_gpu = adapter(DeviceType::VirtualGpu, true);
    assert_eq!(
        pick_adapter(&vec![elsewhere, virtual_gpu], true),
        Some((1, true))
    );
    assert_eq!(
        pick_adapter(&vec![elsewhere, virtual_gpu], false),
        Some((0, true))
    );
    assert_eq!(
        pick_adapter(&vec![integrated, elsewhere, elsewhere, cpu], true),
        Some((2, false))
    );
    assert_eq!(pick_adapter(&Vec::new(), true), None);
    let other = adapter(DeviceType::Other, true);
    assert_eq!(
        enumerated(&vec![cpu, integrated, other, virtual_gpu]),
        vec![integrated, virtual_gpu]
    );
    assert!(can_import_shared(true, true));
    assert!(!can_import_shared(false, true));
    assert!(!can_import_shared(true, false));
    assert_eq!(pipeline(AlphaSource::Premultiplied), "fs_main");
    assert_eq!(pipeline(AlphaSource::Straight), "fs_main_premultiplied");
}

#[test]
fn only_damage_that_is_uploaded_has_to_add_up() {
    let bytes = vec![0u8; 4 * 60 * 40];
    let wild = [DamageRect {
        x: i32::MAX,
        y: 0,
        w: i32::MAX,
        h: 1,
    }];
    let mut s = surface(&wayland());
    let frame = pixels(60, 40, &bytes, &wild);
    assert!(!s.uploads_damage(&frame));
    match s.present_pixels(&frame) {
        Ok(plan) => assert_eq!(plan.writes.len(), 1),
        Err(e) => panic!("{}", e.message()),
    }
    assert!(s.uploads_damage(&frame));
    let short = pixels(60, 40, &bytes[1..], &wild);
    assert!(!s.uploads_damage(&short));
    assert!(s.present_pixels(&short).is_err());
    let larger = vec![0u8; 4 * 61 * 40];
    assert!(!s.uploads_damage(&pixels(61, 40, &larger, &wild)));
}

#[test]
fn every_configuration_is_noted() {
    let mut s = surface(&wayland());
    assert!(s.take_configured());
    assert!(!s.take_configured());
    s.configured_now();
    assert!(s.take_configured());
}
