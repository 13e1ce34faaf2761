//! What becomes of a frame that the browser produced.

use vstd::prelude::*;

use crate::gpu::types::FrameSize;
use crate::web::navigation::Navigation;

verus! {

/// Where a frame goes.
#[derive(Clone, Copy, Debug, PartialEq, Eq, Structural)]
pub enum PaintRoute {
    Drop,
    /// The dropdown's surface.
    Popup,
    /// The overlay's own surface.
    Main,
}

/// The route of a frame, once it is known to be usable. A dropdown is painted
/// only where the platform composes it; the overlay itself only while there is
/// a platform.
pub open spec fn route(
    has_surface: bool,
    usable: bool,
    is_popup: bool,
    dropdown_composited: bool,
    has_platform: bool,
) -> PaintRoute {
    if !has_surface || !usable {
        PaintRoute::Drop
    } else if is_popup {
        if dropdown_composited {
            PaintRoute::Popup
        } else {
            PaintRoute::Drop
        }
    } else if has_platform {
        PaintRoute::Main
    } else {
        PaintRoute::Drop
    }
}

/// The length of a tightly packed frame in bytes, where it has one.
pub open spec fn packed_len(has_buffer: bool, w: i32, h: i32) -> Option<int> {
    if has_buffer && w > 0 && h > 0 && w * h * 4 <= usize::MAX {
        Some(w * h * 4)
    } else {
        None
    }
}

/// How many bytes a software frame holds: four for each pixel. None where there
/// is no buffer, where a side is not positive, and where the length is beyond
/// what memory can hold.
pub fn software_pixels(has_buffer: bool, w: i32, h: i32) -> (r: Option<usize>)
    ensures
        match r {
            Some(len) => packed_len(has_buffer, w, h) == Some(len as int),
            None => packed_len(has_buffer, w, h) is None,
        },
{
    if !has_buffer || w <= 0 || h <= 0 {
        return None;
    }
    assert(0 < w * h <= 0x7FFF_FFFF * 0x7FFF_FFFF) by (nonlinear_arith)
        requires
            0 < w <= 0x7FFF_FFFF,
            0 < h <= 0x7FFF_FFFF,
    ;
    let len: u64 = w as u64 * h as u64 * 4;
    if len > usize::MAX as u64 {
        return None;
    }
    Some(len as usize)
}

/// The route of a software frame.
pub fn on_paint(
    has_surface: bool,
    has_buffer: bool,
    w: i32,
    h: i32,
    is_popup: bool,
    dropdown_composited: bool,
    has_platform: bool,
) -> (r: PaintRoute)
    ensures
        r == route(
            has_surface,
            packed_len(has_buffer, w, h) is Some,
            is_popup,
            dropdown_composited,
            has_platform,
        ),
{
    if !has_surface {
        return PaintRoute::Drop;
    }
    if software_pixels(has_buffer, w, h).is_none() {
        return PaintRoute::Drop;
    }
    gate(is_popup, dropdown_composited, has_platform)
}

fn gate(is_popup: bool, dropdown_composited: bool, has_platform: bool) -> (r: PaintRoute)
    ensures
        r == route(true, true, is_popup, dropdown_composited, has_platform),
{
    if is_popup {
        if dropdown_composited {
            PaintRoute::Popup
        } else {
            PaintRoute::Drop
        }
    } else if has_platform {
        PaintRoute::Main
    } else {
        PaintRoute::Drop
    }
}

/// The route of a shared frame. Taking hold of its texture costs a descriptor
/// for each plane, so that is tried only once the route is not `Drop`.
pub fn on_accelerated_paint(
    has_surface: bool,
    is_popup: bool,
    dropdown_composited: bool,
    has_platform: bool,
) -> (r: PaintRoute)
    ensures
        r == route(has_surface, true, is_popup, dropdown_composited, has_platform),
{
    if !has_surface {
        return PaintRoute::Drop;
    }
    gate(is_popup, dropdown_composited, has_platform)
}

/// What a frame on the overlay's own surface came to.
#[derive(Clone, Copy, Debug, PartialEq, Eq, Structural)]
pub enum FrameOutcome {
    /// A newer frame takes its place.
    Superseded,
    /// It is on the screen, and shows the document of this navigation, if any.
    Presented(Option<Navigation>),
}

/// A frame is presented where the scheduler lets it and the surface takes it.
pub open spec fn outcome_of(
    scheduled: bool,
    taken: bool,
    navigation: Option<Navigation>,
) -> FrameOutcome {
    if scheduled && taken {
        FrameOutcome::Presented(navigation)
    } else {
        FrameOutcome::Superseded
    }
}

/// What became of a frame. `navigation` is what it witnesses.
pub fn frame_outcome(scheduled: bool, taken: bool, navigation: Option<Navigation>) -> (r:
    FrameOutcome)
    ensures
        r == outcome_of(scheduled, taken, navigation),
{
    if scheduled && taken {
        FrameOutcome::Presented(navigation)
    } else {
        FrameOutcome::Superseded
    }
}

/// The colour layouts that a shared texture may have.
#[derive(Clone, Copy, Debug, PartialEq, Eq, Structural)]
pub enum ColorType {
    Bgra8888,
    Rgba8888,
    Other,
}

#[derive(Clone, Copy, Debug, PartialEq, Eq, Structural)]
pub enum DmabufFormat {
    Bgra8,
    Rgba8,
}

/// How to take hold of a shared texture.
#[derive(Clone, Copy, Debug, PartialEq, Eq, Structural)]
pub struct AcquirePlan {
    pub format: DmabufFormat,
    pub coded: FrameSize,
    pub visible: FrameSize,
    /// How many planes to take, from the first.
    pub planes: usize,
}

pub open spec fn at_least_zero(n: i32) -> i32 {
    if n < 0 {
        0
    } else {
        n
    }
}

/// The size of a shared texture and of the part that shows. None where it is
/// empty.
pub fn extents(coded: FrameSize, visible: FrameSize) -> (r: Option<(FrameSize, FrameSize)>)
    ensures
        r == (if coded.w <= 0 || coded.h <= 0 {
            None
        } else {
            Some((coded, FrameSize { w: at_least_zero(visible.w), h: at_least_zero(visible.h) }))
        }),
{
    if coded.w <= 0 || coded.h <= 0 {
        return None;
    }
    Some(
        (
            coded,
            FrameSize {
                w: if visible.w < 0 { 0 } else { visible.w },
                h: if visible.h < 0 { 0 } else { visible.h },
            },
        ),
    )
}

/// The planes to take: as many as are announced and there.
pub open spec fn plane_count(announced: i32, there: int) -> int {
    if announced < 0 {
        0
    } else if announced > there {
        there
    } else {
        announced as int
    }
}

/// How to take hold of a texture in `there` descriptors. None for a layout that
/// is not known, for an empty texture and for one without planes.
pub fn acquire(
    color: ColorType,
    coded: FrameSize,
    visible: FrameSize,
    announced: i32,
    there: usize,
) -> (r: Option<AcquirePlan>)
    requires
        there <= i32::MAX,
    ensures
        r is Some <==> !(color is Other) && coded.w > 0 && coded.h > 0 && plane_count(
            announced,
            there as int,
        ) >= 1,
        r matches Some(plan) ==> {
            &&& plan.format == (if color is Bgra8888 {
                DmabufFormat::Bgra8
            } else {
                DmabufFormat::Rgba8
            })
            &&& plan.coded == coded
            &&& plan.visible == (FrameSize {
                w: at_least_zero(visible.w),
                h: at_least_zero(visible.h),
            })
            &&& plan.planes == plane_count(announced, there as int)
            &&& plan.planes <= there
        },
{
    let format = match color {
        ColorType::Bgra8888 => DmabufFormat::Bgra8,
        ColorType::Rgba8888 => DmabufFormat::Rgba8,
        ColorType::Other => return None,
    };
    let (coded, visible) = match extents(coded, visible) {
        None => return None,
        Some(e) => e,
    };
    if announced < 1 || there < 1 {
        return None;
    }
    let planes: usize = if announced as usize > there { there } else { announced as usize };
    Some(AcquirePlan { format, coded, visible, planes })
}

/// A navigation is sighted exactly by a frame that it witnesses and that
/// reached the screen.
pub proof fn only_shown_frames_are_sightings(
    scheduled: bool,
    taken: bool,
    navigation: Option<Navigation>,
    n: Navigation,
)
    ensures
        outcome_of(scheduled, taken, navigation) == FrameOutcome::Presented(Some(n)) <==> scheduled
            && taken && navigation == Some(n),
{
}

/// A frame is shown where there is a surface for it and something to show: a
/// dropdown's only where the platform composes dropdowns, and any other only
/// while there is a platform.
pub proof fn frames_go_to_their_own_surface(
    has_surface: bool,
    usable: bool,
    is_popup: bool,
    dropdown_composited: bool,
    has_platform: bool,
)
    ensures
        route(has_surface, usable, is_popup, dropdown_composited, has_platform) is Popup
            <==> has_surface && usable && is_popup && dropdown_composited,
        route(has_surface, usable, is_popup, dropdown_composited, has_platform) is Main
            <==> has_surface && usable && !is_popup && has_platform,
{
}

/// A packed frame has four bytes for each of its pixels: as many as its rows
/// have together.
pub proof fn packed_frames_hold_every_pixel(w: i32, h: i32)
    ensures
        packed_len(true, w, h) matches Some(len) ==> w > 0 && h > 0 && len == h * (w * 4) && len
            <= usize::MAX,
        w <= 0 || h <= 0 ==> packed_len(true, w, h) is None,
        packed_len(false, w, h) is None,
        w > 0 && h > 0 && h * (w * 4) <= usize::MAX ==> packed_len(true, w, h) is Some,
{
    assert(h * (w * 4) == w * h * 4) by (nonlinear_arith);
}

/// A frame that the scheduler or the surface turned away is superseded.
pub proof fn turned_away_frames_are_superseded(
    scheduled: bool,
    taken: bool,
    navigation: Option<Navigation>,
)
    ensures
        outcome_of(scheduled, taken, navigation) is Superseded <==> !scheduled || !taken,
        scheduled && taken ==> outcome_of(scheduled, taken, navigation) == FrameOutcome::Presented(
            navigation,
        ),
{
}

/// No more planes are taken than are announced, nor than are there, and no
/// fewer than both.
pub proof fn announced_planes_are_taken(announced: i32, there: int)
    requires
        there >= 0,
    ensures
        0 <= plane_count(announced, there) <= there,
        announced >= 0 ==> plane_count(announced, there) <= announced,
        announced >= 0 ==> plane_count(announced, there) == announced || plane_count(
            announced,
            there,
        ) == there,
        announced <= 0 ==> plane_count(announced, there) == 0,
        forall|n: i32| n >= 0 ==> #[trigger] at_least_zero(n) == n,
        forall|n: i32| n <= 0 ==> #[trigger] at_least_zero(n) == 0,
{
}

/// A shared texture is taken in its own colour layout and its own sizes.
pub proof fn textures_keep_their_layout(
    color: ColorType,
    coded: FrameSize,
    visible: FrameSize,
    announced: i32,
    there: usize,
    r: Option<AcquirePlan>,
)
    requires
        call_ensures(acquire, (color, coded, visible, announced, there), r),
        there <= i32::MAX,
    ensures
        r is Some <==> !(color is Other) && coded.w >= 1 && coded.h >= 1 && announced >= 1 && there
            >= 1,
        r matches Some(plan) ==> {
            &&& color is Bgra8888 <==> plan.format is Bgra8
            &&& color is Rgba8888 <==> plan.format is Rgba8
            &&& plan.coded.w == coded.w && plan.coded.h == coded.h
            &&& visible.w >= 0 ==> plan.visible.w == visible.w
            &&& visible.h >= 0 ==> plan.visible.h == visible.h
            &&& visible.w < 0 ==> plan.visible.w == 0
            &&& visible.h < 0 ==> plan.visible.h == 0
            &&& plan.planes <= announced && plan.planes <= there
            &&& plan.planes == announced || plan.planes == there
        },
{
}

/// A frame painted in software needs its pixels; one that the GPU painted does
/// not. Either goes the same way otherwise.
pub proof fn both_kinds_of_frames_go_one_way(
    surface: bool,
    buffer: bool,
    w: i32,
    h: i32,
    popup: bool,
    composited: bool,
    platform: bool,
    software: PaintRoute,
    accelerated: PaintRoute,
)
    requires
        call_ensures(
            on_paint,
            (surface, buffer, w, h, popup, composited, platform),
            software,
        ),
        call_ensures(on_accelerated_paint, (surface, popup, composited, platform), accelerated),
    ensures
        !buffer || w <= 0 || h <= 0 ==> software is Drop,
        buffer && 0 < w <= 8_192 && 0 < h <= 8_192 ==> software == accelerated,
        !surface ==> accelerated is Drop,
{
    if buffer && 0 < w <= 8_192 && 0 < h <= 8_192 {
        assert(w * h * 4 <= 8_192 * 8_192 * 4) by (nonlinear_arith)
            requires
                0 < w <= 8_192,
                0 < h <= 8_192,
        ;
    }
}

/// A frame with pixels keeps its size, and shows what of it is visible; a part
/// that is less than nothing is nothing.
pub proof fn frames_show_their_visible_part(
    coded: FrameSize,
    visible: FrameSize,
    r: Option<(FrameSize, FrameSize)>,
)
    requires
        call_ensures(extents, (coded, visible), r),
    ensures
        r is Some <==> coded.w > 0 && coded.h > 0,
        r matches Some((of, shown)) ==> {
            &&& of == coded
            &&& visible.w >= 0 ==> shown.w == visible.w
            &&& visible.h >= 0 ==> shown.h == visible.h
            &&& visible.w < 0 ==> shown.w == 0
            &&& visible.h < 0 ==> shown.h == 0
        },
{
}

} // verus!
