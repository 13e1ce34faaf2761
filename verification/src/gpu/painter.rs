//! A surface that frames are painted on: how large it is, when it has to be
//! configured, what is uploaded and how a frame reaches the screen.

use vstd::prelude::*;

use crate::gpu::error::{Kind, SurfaceLost};
use crate::gpu::types::{DamageRect, FrameSize, PaintMode, Pixels, WindowTarget};

verus! {

/// Whether the surface takes its size from the frames or from the window.
#[derive(Clone, Copy, Debug, PartialEq, Eq, Structural)]
pub enum SizePolicy {
    FollowFrame,
    FollowTarget,
}

impl SizePolicy {
    pub open spec fn of(target: WindowTarget) -> SizePolicy {
        match target {
            WindowTarget::Xcb { .. } => SizePolicy::FollowTarget,
            WindowTarget::Wayland { .. } => SizePolicy::FollowFrame,
            WindowTarget::CompositionVisual { .. } => SizePolicy::FollowFrame,
            WindowTarget::CoreAnimationLayer { .. } => SizePolicy::FollowTarget,
        }
    }

    pub fn for_target(target: &WindowTarget) -> (r: Self)
        ensures
            r == SizePolicy::of(*target),
    {
        match target {
            WindowTarget::Xcb { .. } => SizePolicy::FollowTarget,
            WindowTarget::Wayland { .. } => SizePolicy::FollowFrame,
            WindowTarget::CompositionVisual { .. } => SizePolicy::FollowFrame,
            WindowTarget::CoreAnimationLayer { .. } => SizePolicy::FollowTarget,
        }
    }
}

/// How the window system reads the surface's alpha channel.
#[derive(Clone, Copy, Debug, PartialEq, Eq, Structural)]
pub enum AlphaSource {
    Premultiplied,
    Straight,
}

impl AlphaSource {
    pub open spec fn of(target: WindowTarget) -> AlphaSource {
        match target {
            WindowTarget::CoreAnimationLayer { .. } => AlphaSource::Straight,
            _ => AlphaSource::Premultiplied,
        }
    }

    pub fn for_target(target: &WindowTarget) -> (r: Self)
        ensures
            r == AlphaSource::of(*target),
    {
        match target {
            WindowTarget::Xcb { .. }
            | WindowTarget::Wayland { .. }
            | WindowTarget::CompositionVisual { .. } => AlphaSource::Premultiplied,
            WindowTarget::CoreAnimationLayer { .. } => AlphaSource::Straight,
        }
    }
}

/// Whether frames queue up for the screen or replace each other.
#[derive(Clone, Copy, Debug, PartialEq, Eq, Structural)]
pub enum PresentPolicy {
    Fifo,
    Mailbox,
}

impl PresentPolicy {
    pub open spec fn of(target: WindowTarget) -> PresentPolicy {
        match target {
            WindowTarget::CompositionVisual { .. } => PresentPolicy::Mailbox,
            _ => PresentPolicy::Fifo,
        }
    }

    pub fn for_target(target: &WindowTarget) -> (r: Self)
        ensures
            r == PresentPolicy::of(*target),
    {
        match target {
            WindowTarget::Xcb { .. }
            | WindowTarget::Wayland { .. }
            | WindowTarget::CoreAnimationLayer { .. } => PresentPolicy::Fifo,
            WindowTarget::CompositionVisual { .. } => PresentPolicy::Mailbox,
        }
    }
}

/// Who configures the surface: whoever paints on it, or whoever owns its
/// window.
#[derive(Clone, Copy, Debug, PartialEq, Eq, Structural)]
pub enum ConfigureSite {
    Painter,
    Owner,
}

impl ConfigureSite {
    pub open spec fn of(target: WindowTarget) -> ConfigureSite {
        match target {
            WindowTarget::CoreAnimationLayer { .. } => ConfigureSite::Owner,
            _ => ConfigureSite::Painter,
        }
    }

    pub fn for_target(target: &WindowTarget) -> (r: Self)
        ensures
            r == ConfigureSite::of(*target),
    {
        match target {
            WindowTarget::Xcb { .. }
            | WindowTarget::Wayland { .. }
            | WindowTarget::CompositionVisual { .. } => ConfigureSite::Painter,
            WindowTarget::CoreAnimationLayer { .. } => ConfigureSite::Owner,
        }
    }
}

/// How a surface is blended with what lies under it.
#[derive(Clone, Copy, Debug, PartialEq, Eq, Structural)]
pub enum AlphaMode {
    PreMultiplied,
    PostMultiplied,
    Inherit,
    Opaque,
    Auto,
}

/// The most preferred alpha mode on offer, and the automatic one where none is.
pub open spec fn preferred_alpha(offered: Seq<AlphaMode>) -> AlphaMode {
    if offered.contains(AlphaMode::PreMultiplied) {
        AlphaMode::PreMultiplied
    } else if offered.contains(AlphaMode::PostMultiplied) {
        AlphaMode::PostMultiplied
    } else if offered.contains(AlphaMode::Inherit) {
        AlphaMode::Inherit
    } else if offered.contains(AlphaMode::Opaque) {
        AlphaMode::Opaque
    } else {
        AlphaMode::Auto
    }
}

fn has_mode(modes: &Vec<AlphaMode>, mode: AlphaMode) -> (r: bool)
    ensures
        r == modes@.contains(mode),
{
    let mut i: usize = 0;
    while i < modes.len()
        invariant
            i <= modes@.len(),
            forall|j: int| 0 <= j < i ==> modes@[j] != mode,
        decreases modes@.len() - i,
    {
        if modes[i] == mode {
            assert(modes@[i as int] == mode);
            return true;
        }
        i += 1;
    }
    false
}

pub fn pick_alpha_mode(offered: &Vec<AlphaMode>) -> (r: AlphaMode)
    ensures
        r == preferred_alpha(offered@),
{
    if has_mode(offered, AlphaMode::PreMultiplied) {
        AlphaMode::PreMultiplied
    } else if has_mode(offered, AlphaMode::PostMultiplied) {
        AlphaMode::PostMultiplied
    } else if has_mode(offered, AlphaMode::Inherit) {
        AlphaMode::Inherit
    } else if has_mode(offered, AlphaMode::Opaque) {
        AlphaMode::Opaque
    } else {
        AlphaMode::Auto
    }
}

/// The surface's configuration.
#[derive(Clone, Copy, Debug, PartialEq, Eq, Structural)]
pub struct SurfaceConfig {
    pub width: u32,
    pub height: u32,
    pub present: PresentPolicy,
    pub alpha_mode: AlphaMode,
}

/// The texture that copied frames are uploaded to.
#[derive(Clone, Copy, Debug, PartialEq, Eq, Structural)]
pub struct UploadTexture {
    pub w: u32,
    pub h: u32,
    /// Nothing has been uploaded yet.
    pub needs_base: bool,
}

/// One rectangle of a frame to upload: its place in the texture, and the bytes
/// of the frame that hold it.
#[derive(Clone, Copy, Debug, PartialEq, Eq, Structural)]
pub struct TextureWrite {
    pub x: u32,
    pub y: u32,
    pub w: u32,
    pub h: u32,
    pub start: usize,
    pub end: usize,
}

#[derive(Debug)]
pub enum PresentFailed {
    Lost(SurfaceLost),
    /// The swapchain has no frame yet: it is owed a retry.
    Deferred,
    Import,
    Kind,
}

impl PresentFailed {
    pub fn message(&self) -> (r: String)
        ensures
            r@ == (match *self {
                PresentFailed::Lost(lost) => crate::gpu::error::kind_message(lost.kind),
                PresentFailed::Deferred => "swapchain deferred the frame"@,
                PresentFailed::Import => "shared frame import failed"@,
                PresentFailed::Kind => "frame kind changed on a live surface"@,
            }),
    {
        match self {
            PresentFailed::Lost(lost) => lost.message(),
            PresentFailed::Deferred => "swapchain deferred the frame".to_owned(),
            PresentFailed::Import => "shared frame import failed".to_owned(),
            PresentFailed::Kind => "frame kind changed on a live surface".to_owned(),
        }
    }
}

/// The size in texels, where both sides are positive.
pub open spec fn texel_size(size: FrameSize) -> Option<(u32, u32)> {
    if size.w > 0 && size.h > 0 {
        Some((size.w as u32, size.h as u32))
    } else {
        None
    }
}

pub fn texels(size: FrameSize) -> (r: Option<(u32, u32)>)
    ensures
        r == texel_size(size),
{
    if size.w > 0 && size.h > 0 {
        Some((size.w as u32, size.h as u32))
    } else {
        None
    }
}

/// A size that the GPU can make a texture of.
pub open spec fn paintable(size: FrameSize, max: u32) -> bool {
    size.w > 0 && size.h > 0 && size.w <= max && size.h <= max
}

/// The texels of a frame, refused where it is empty or larger than `max`.
pub fn frame_extent(size: FrameSize, max: u32) -> (r: Result<(u32, u32), SurfaceLost>)
    ensures
        r is Ok <==> paintable(size, max),
        r matches Ok(e) ==> e.0 == size.w && e.1 == size.h,
        r matches Err(e) ==> e.kind == Kind::BadDimensions(size),
{
    let (w, h) = match texels(size) {
        None => return Err(SurfaceLost { kind: Kind::BadDimensions(size) }),
        Some(wh) => wh,
    };
    if w > max || h > max {
        return Err(SurfaceLost { kind: Kind::BadDimensions(size) });
    }
    Ok((w, h))
}

/// The bytes that `h` rows of `w` pixels take, `stride` bytes apart.
pub open spec fn covered(w: int, h: int, stride: int) -> int {
    (h - 1) * stride + 4 * w
}

/// The buffer of a frame holds all of its pixels.
pub open spec fn buffer_holds(len: int, stride: int, fw: int, fh: int) -> bool {
    stride >= 4 * fw && len >= covered(fw, fh, stride)
}

pub fn check_buffer(frame: &Pixels<'_>, fw: u32, fh: u32) -> (r: Result<(), SurfaceLost>)
    requires
        fh > 0,
    ensures
        r is Ok <==> buffer_holds(
            frame.bgra@.len() as int,
            frame.stride as int,
            fw as int,
            fh as int,
        ),
        r matches Err(e) ==> e.kind == (Kind::BadPixelBuffer {
            size: frame.size,
            stride: frame.stride,
            len: frame.bgra@.len() as usize,
        }),
{
    let stride: u128 = frame.stride as u128;
    let row: u128 = fw as u128 * 4;
    assert((fh - 1) * stride <= 0x1_0000_0000 * 0x1_0000_0000) by (nonlinear_arith)
        requires
            0 < fh <= 0xFFFF_FFFF,
            0 <= stride <= 0xFFFF_FFFF,
    ;
    assert(0 <= (fh - 1) * stride) by (nonlinear_arith)
        requires
            0 < fh,
            0 <= stride,
    ;
    let rows: u128 = (fh - 1) as u128;
    let needed: u128 = rows * stride + row;
    let len: usize = frame.bgra.len();
    if stride < row || (len as u128) < needed {
        return Err(
            SurfaceLost {
                kind: Kind::BadPixelBuffer { size: frame.size, stride: frame.stride, len },
            },
        );
    }
    Ok(())
}

/// The sums that clipping forms stay within 32 bits.
pub open spec fn clip_fits(x: int, w: int, bound: int) -> bool {
    let n = if x < 0 {
        0
    } else {
        x
    };
    let m = if x < 0 {
        w + x
    } else {
        w
    };
    &&& i32::MIN <= m
    &&& i32::MIN <= n + m <= i32::MAX
    &&& n + m > bound ==> i32::MIN <= bound - n
    &&& n >= bound ==> i32::MIN <= bound - 1
}

/// One axis of a clipped rectangle: its start and its length. A rectangle that
/// starts beyond the bound collapses onto the last line.
pub open spec fn clipped_axis(x: int, w: int, bound: int) -> (int, int) {
    let start = if x < 0 {
        0
    } else {
        x
    };
    let end = if x + w < bound {
        x + w
    } else {
        bound
    };
    if start >= bound {
        (bound - 1, 0)
    } else if end <= start {
        (start, 0)
    } else {
        (start, end - start)
    }
}

/// Cuts a rectangle to `fw` by `fh`.
pub fn clip_rect(x: i32, y: i32, w: i32, h: i32, fw: i32, fh: i32) -> (r: (i32, i32, i32, i32))
    requires
        clip_fits(x as int, w as int, fw as int),
        clip_fits(y as int, h as int, fh as int),
    ensures
        (r.0 as int, r.2 as int) == clipped_axis(x as int, w as int, fw as int),
        (r.1 as int, r.3 as int) == clipped_axis(y as int, h as int, fh as int),
{
    let mut nx: i32 = if x < 0 { 0 } else { x };
    let mut ny: i32 = if y < 0 { 0 } else { y };
    let mut nw: i32 = if x < 0 { w + x } else { w };
    let mut nh: i32 = if y < 0 { h + y } else { h };
    if nx + nw > fw {
        nw = fw - nx;
    }
    if ny + nh > fh {
        nh = fh - ny;
    }
    if nw < 0 {
        nw = 0;
    }
    if nh < 0 {
        nh = 0;
    }
    if nx >= fw {
        nx = fw - 1;
        nw = 0;
    }
    if ny >= fh {
        ny = fh - 1;
        nh = 0;
    }
    (nx, ny, nw, nh)
}

/// Where something is left, clipping against the frame keeps the same
/// rectangle as clamping damage does; where nothing is left, so does it.
pub proof fn clip_rect_agrees_with_clamping(r: DamageRect, fw: i32, fh: i32)
    requires
        fw > 0,
        fh > 0,
    ensures
        ({
            let (nx, nw) = clipped_axis(r.x as int, r.w as int, fw as int);
            let (ny, nh) = clipped_axis(r.y as int, r.h as int, fh as int);
            match r.clip(fw, fh) {
                Some(c) => c.x == nx && c.y == ny && c.w == nw && c.h == nh,
                None => nw == 0 || nh == 0,
            }
        }),
{
}

/// A configuration is due where the size changed or the content was detached.
pub fn configure_needed(resized: bool, detached: bool) -> (r: bool)
    ensures
        r == (resized || detached),
{
    resized || detached
}

pub open spec fn clamped(n: u32, max: u32) -> u32 {
    let top = if max < 1 {
        1u32
    } else {
        max
    };
    if n < 1 {
        1
    } else if n > top {
        top
    } else {
        n
    }
}

/// The bytes of one rectangle of a frame.
pub open spec fn rect_bytes(x: int, y: int, w: int, h: int, stride: int) -> (int, int) {
    (y * stride + 4 * x, y * stride + 4 * x + covered(w, h, stride))
}

pub open spec fn write_of(x: int, y: int, w: int, h: int, stride: int) -> TextureWrite {
    TextureWrite {
        x: x as u32,
        y: y as u32,
        w: w as u32,
        h: h as u32,
        start: rect_bytes(x, y, w, h, stride).0 as usize,
        end: rect_bytes(x, y, w, h, stride).1 as usize,
    }
}

/// The uploads for the first `n` damaged rectangles.
pub open spec fn damage_writes(
    dirty: Seq<DamageRect>,
    bound_w: int,
    bound_h: int,
    stride: int,
) -> Seq<TextureWrite>
    decreases dirty.len(),
{
    if dirty.len() == 0 {
        seq![]
    } else {
        let front = damage_writes(dirty.drop_last(), bound_w, bound_h, stride);
        let r = dirty.last();
        let (x, w) = clipped_axis(r.x as int, r.w as int, bound_w);
        let (y, h) = clipped_axis(r.y as int, r.h as int, bound_h);
        if w <= 0 || h <= 0 {
            front
        } else {
            front.push(write_of(x, y, w, h, stride))
        }
    }
}

pub open spec fn smaller(a: int, b: int) -> int {
    if a < b {
        a
    } else {
        b
    }
}

/// What a frame uploads to a texture of `cw` by `ch`: all of it the first time
/// and where no damage is given, else the damaged rectangles.
pub open spec fn upload_writes(
    needs_base: bool,
    size: FrameSize,
    stride: int,
    dirty: Seq<DamageRect>,
    cw: u32,
    ch: u32,
) -> Seq<TextureWrite> {
    let bound_w = smaller(size.w as int, cw as int);
    let bound_h = smaller(size.h as int, ch as int);
    if needs_base || dirty.len() == 0 {
        seq![write_of(0, 0, bound_w, bound_h, stride)]
    } else {
        damage_writes(dirty, bound_w, bound_h, stride)
    }
}

proof fn lemma_rect_in_buffer(x: int, y: int, w: int, h: int, fw: int, fh: int, stride: int, len: int)
    requires
        0 <= x,
        0 <= y,
        0 < w,
        0 < h,
        x + w <= fw,
        y + h <= fh,
        buffer_holds(len, stride, fw, fh),
    ensures
        0 <= y * stride,
        0 <= (h - 1) * stride,
        y * stride + (h - 1) * stride + 4 * (x + w) <= len,
        rect_bytes(x, y, w, h, stride).0 == y * stride + 4 * x,
        rect_bytes(x, y, w, h, stride).1 == y * stride + 4 * x + (h - 1) * stride + 4 * w,
{
    assert(0 <= y * stride) by (nonlinear_arith)
        requires
            0 <= y,
            0 <= stride,
    ;
    assert(0 <= (h - 1) * stride) by (nonlinear_arith)
        requires
            0 < h,
            0 <= stride,
    ;
    assert(y * stride + (h - 1) * stride <= (fh - 1) * stride) by (nonlinear_arith)
        requires
            0 <= y,
            0 < h,
            y + h <= fh,
            0 <= stride,
    ;
}

fn texture_write(x: i32, y: i32, w: i32, h: i32, stride: u32, Ghost(dims): Ghost<(int, int, int)>) -> (r:
    TextureWrite)
    requires
        0 <= x,
        0 <= y,
        0 < w,
        0 < h,
        x + w <= dims.0,
        y + h <= dims.1,
        dims.2 <= usize::MAX,
        buffer_holds(dims.2, stride as int, dims.0, dims.1),
    ensures
        r == write_of(x as int, y as int, w as int, h as int, stride as int),
        r.start == rect_bytes(x as int, y as int, w as int, h as int, stride as int).0,
        r.end == rect_bytes(x as int, y as int, w as int, h as int, stride as int).1,
        r.end <= dims.2,
{
    proof {
        lemma_rect_in_buffer(
            x as int,
            y as int,
            w as int,
            h as int,
            dims.0,
            dims.1,
            stride as int,
            dims.2,
        );
    }
    let row: usize = stride as usize;
    assert(row == stride);
    let start: usize = (y as usize) * row + (x as usize) * 4;
    let end: usize = start + ((h - 1) as usize) * row + (w as usize) * 4;
    TextureWrite { x: x as u32, y: y as u32, w: w as u32, h: h as u32, start, end }
}

impl UploadTexture {
    /// The uploads of one frame, after which the texture holds a whole frame.
    /// Every one of them lies within the frame's buffer.
    pub fn write(&mut self, frame: &Pixels<'_>, cw: u32, ch: u32) -> (writes: Vec<TextureWrite>)
        requires
            frame.size.w > 0,
            frame.size.h > 0,
            0 < cw <= i32::MAX,
            0 < ch <= i32::MAX,
            buffer_holds(
                frame.bgra@.len() as int,
                frame.stride as int,
                frame.size.w as int,
                frame.size.h as int,
            ),
            !old(self).needs_base ==> forall|i: int|
                0 <= i < frame.dirty@.len() ==> clip_fits(
                    (#[trigger] frame.dirty@[i]).x as int,
                    frame.dirty@[i].w as int,
                    smaller(frame.size.w as int, cw as int),
                ) && clip_fits(
                    frame.dirty@[i].y as int,
                    frame.dirty@[i].h as int,
                    smaller(frame.size.h as int, ch as int),
                ),
        ensures
            writes@ == upload_writes(
                old(self).needs_base,
                frame.size,
                frame.stride as int,
                frame.dirty@,
                cw,
                ch,
            ),
            forall|i: int|
                0 <= i < writes@.len() ==> (#[trigger] writes@[i]).start <= writes@[i].end
                    <= frame.bgra@.len(),
            *final(self) == (UploadTexture { needs_base: false, ..*old(self) }),
    {
        let bound_w: i32 = if frame.size.w < cw as i32 { frame.size.w } else { cw as i32 };
        let bound_h: i32 = if frame.size.h < ch as i32 { frame.size.h } else { ch as i32 };
        let ghost dims = (frame.size.w as int, frame.size.h as int, frame.bgra@.len() as int);
        assert(frame.bgra.len() <= usize::MAX);
        let mut writes: Vec<TextureWrite> = Vec::new();
        if self.needs_base || frame.dirty.len() == 0 {
            writes.push(texture_write(0, 0, bound_w, bound_h, frame.stride, Ghost(dims)));
            self.needs_base = false;
        } else {
            let mut i: usize = 0;
            while i < frame.dirty.len()
                invariant
                    i <= frame.dirty@.len(),
                    frame.size.w > 0,
                    frame.size.h > 0,
                    0 < bound_w <= frame.size.w,
                    0 < bound_h <= frame.size.h,
                    bound_w == smaller(frame.size.w as int, cw as int),
                    bound_h == smaller(frame.size.h as int, ch as int),
                    dims == (
                        frame.size.w as int,
                        frame.size.h as int,
                        frame.bgra@.len() as int,
                    ),
                    dims.2 <= usize::MAX,
                    buffer_holds(dims.2, frame.stride as int, dims.0, dims.1),
                    forall|i: int|
                        0 <= i < frame.dirty@.len() ==> clip_fits(
                            (#[trigger] frame.dirty@[i]).x as int,
                            frame.dirty@[i].w as int,
                            bound_w as int,
                        ) && clip_fits(
                            frame.dirty@[i].y as int,
                            frame.dirty@[i].h as int,
                            bound_h as int,
                        ),
                    writes@ == damage_writes(
                        frame.dirty@.take(i as int),
                        bound_w as int,
                        bound_h as int,
                        frame.stride as int,
                    ),
                    forall|j: int|
                        0 <= j < writes@.len() ==> (#[trigger] writes@[j]).start <= writes@[j].end
                            <= frame.bgra@.len(),
                decreases frame.dirty@.len() - i,
            {
                let rect = frame.dirty[i];
                proof {
                    assert(frame.dirty@.take(i + 1).drop_last() =~= frame.dirty@.take(i as int));
                    assert(rect == frame.dirty@[i as int]);
                }
                let (x, y, w, h) = clip_rect(rect.x, rect.y, rect.w, rect.h, bound_w, bound_h);
                if w > 0 && h > 0 {
                    writes.push(texture_write(x, y, w, h, frame.stride, Ghost(dims)));
                }
                i += 1;
            }
            assert(frame.dirty@.take(i as int) =~= frame.dirty@);
        }
        writes
    }
}

/// Each window system has its surfaces painted its own way. Only X11's windows
/// and macOS's layers have sizes of their own; only macOS reads alpha unmixed
/// and configures its layers itself; only Windows replaces frames that wait.
pub proof fn targets_are_painted_their_own_way(target: WindowTarget)
    ensures
        SizePolicy::of(target) is FollowTarget <==> target is Xcb || target is CoreAnimationLayer,
        AlphaSource::of(target) is Straight <==> target is CoreAnimationLayer,
        ConfigureSite::of(target) is Owner <==> target is CoreAnimationLayer,
        PresentPolicy::of(target) is Mailbox <==> target is CompositionVisual,
{
}

/// The alpha mode is one that is offered, and none that is preferred to it is:
/// mixed beforehand, mixed afterwards, inherited, opaque.
pub proof fn the_preferred_mode_is_taken(offered: Seq<AlphaMode>)
    ensures
        ({
            let mode = preferred_alpha(offered);
            &&& mode is Auto || offered.contains(mode)
            &&& offered.contains(AlphaMode::PreMultiplied) ==> mode is PreMultiplied
            &&& offered.contains(AlphaMode::PostMultiplied) ==> mode is PreMultiplied
                || mode is PostMultiplied
            &&& offered.contains(AlphaMode::Inherit) ==> !(mode is Opaque) && !(mode is Auto)
            &&& offered.contains(AlphaMode::Opaque) ==> !(mode is Auto)
        }),
{
}

/// A frame that can be painted has both sides, and neither beyond what the GPU
/// can do.
pub proof fn paintable_frames_fit_the_gpu(size: FrameSize, max: u32)
    ensures
        paintable(size, max) <==> 1 <= size.w <= max && 1 <= size.h <= max,
        texel_size(size) is Some <==> size.w >= 1 && size.h >= 1,
        texel_size(size) matches Some(t) ==> t.0 == size.w && t.1 == size.h,
{
}

/// A buffer holds a frame where each of its pixels has four bytes of its own in
/// it: rows do not run into each other, and the last pixel ends in it.
pub proof fn buffers_hold_every_pixel(
    len: int,
    stride: int,
    fw: int,
    fh: int,
    px: int,
    py: int,
)
    requires
        fw > 0,
        fh > 0,
        stride >= 0,
    ensures
        buffer_holds(len, stride, fw, fh) && 0 <= px < fw && 0 <= py < fh ==> py * stride + 4 * px
            + 4 <= len && 4 * px + 4 <= stride,
        4 * fw <= stride && (fh - 1) * stride + 4 * (fw - 1) + 4 <= len ==> buffer_holds(
            len,
            stride,
            fw,
            fh,
        ),
{
    if 0 <= py < fh {
        assert(py * stride <= (fh - 1) * stride) by (nonlinear_arith)
            requires
                0 <= py <= fh - 1,
                stride >= 0,
        ;
    }
}

/// A rectangle's bytes go from its first pixel to the end of its last one.
pub proof fn rectangles_span_their_pixels(x: int, y: int, w: int, h: int, stride: int)
    ensures
        rect_bytes(x, y, w, h, stride).0 == y * stride + 4 * x,
        rect_bytes(x, y, w, h, stride).1 == (y + h - 1) * stride + 4 * (x + w),
        covered(w, h, stride) == rect_bytes(x, y, w, h, stride).1 - rect_bytes(
            x,
            y,
            w,
            h,
            stride,
        ).0,
{
    assert((y + h - 1) * stride == y * stride + (h - 1) * stride) by (nonlinear_arith);
}

/// An upload puts a rectangle where it stands in the frame, out of the bytes
/// that hold it there.
pub proof fn uploads_keep_their_place(x: u32, y: u32, w: u32, h: u32, stride: int)
    requires
        0 <= rect_bytes(x as int, y as int, w as int, h as int, stride).0 <= usize::MAX,
        0 <= rect_bytes(x as int, y as int, w as int, h as int, stride).1 <= usize::MAX,
    ensures
        ({
            let t = write_of(x as int, y as int, w as int, h as int, stride);
            &&& t.x == x && t.y == y && t.w == w && t.h == h
            &&& t.start == y * stride + 4 * x
            &&& t.end == (y + h - 1) * stride + 4 * (x + w)
        }),
{
    rectangles_span_their_pixels(x as int, y as int, w as int, h as int, stride);
}

/// The damage of a frame is uploaded rectangle by rectangle, in order, each as
/// far as it lies inside the frame; what lies outside is not uploaded.
pub proof fn damage_is_uploaded_where_it_shows(
    dirty: Seq<DamageRect>,
    r: DamageRect,
    fw: i32,
    fh: i32,
    stride: int,
)
    requires
        fw > 0,
        fh > 0,
    ensures
        damage_writes(seq![], fw as int, fh as int, stride).len() == 0,
        match r.clip(fw, fh) {
            Some(c) => damage_writes(dirty.push(r), fw as int, fh as int, stride)
                == damage_writes(dirty, fw as int, fh as int, stride).push(
                write_of(c.x as int, c.y as int, c.w as int, c.h as int, stride),
            ),
            None => damage_writes(dirty.push(r), fw as int, fh as int, stride) == damage_writes(
                dirty,
                fw as int,
                fh as int,
                stride,
            ),
        },
{
    assert(dirty.push(r).drop_last() =~= dirty);
    clip_rect_agrees_with_clamping(r, fw, fh);
}

/// A frame is uploaded whole where the texture holds none yet, and where nothing
/// says what changed: from its corner, as far as the texture goes.
pub proof fn whole_frames_are_uploaded_first(
    size: FrameSize,
    stride: int,
    dirty: Seq<DamageRect>,
    cw: u32,
    ch: u32,
)
    requires
        size.w > 0,
        size.h > 0,
        cw > 0,
        ch > 0,
    ensures
        upload_writes(true, size, stride, dirty, cw, ch) == upload_writes(
            false,
            size,
            stride,
            seq![],
            cw,
            ch,
        ),
        upload_writes(true, size, stride, dirty, cw, ch).len() == 1,
        ({
            let t = upload_writes(true, size, stride, dirty, cw, ch)[0];
            &&& t.x == 0 && t.y == 0
            &&& t.w <= cw && t.w <= size.w && (t.w == cw || t.w == size.w)
            &&& t.h <= ch && t.h <= size.h && (t.h == ch || t.h == size.h)
        }),
        dirty.len() > 0 && size.w <= cw && size.h <= ch ==> upload_writes(
            false,
            size,
            stride,
            dirty,
            cw,
            ch,
        ) == damage_writes(dirty, size.w as int, size.h as int, stride),
{
}

/// A side is kept within what the GPU can do, and is never nothing.
pub proof fn sides_are_kept_in_bounds(n: u32, max: u32)
    ensures
        1 <= clamped(n, max),
        max >= 1 ==> clamped(n, max) <= max,
        1 <= n <= max ==> clamped(n, max) == n,
        n > max && max >= 1 ==> clamped(n, max) == max,
        n == 0 || max == 0 ==> clamped(n, max) == 1,
        smaller(n as int, max as int) <= n && smaller(n as int, max as int) <= max,
{
}

/// One axis of a rectangle is cut where it leaves the frame: a pixel is in what
/// is left exactly where it is in both.
pub proof fn axes_are_cut_at_the_frame(x: int, w: int, bound: int, p: int)
    requires
        bound > 0,
    ensures
        ({
            let (start, length) = clipped_axis(x, w, bound);
            &&& start <= p < start + length <==> x <= p < x + w && 0 <= p < bound
            &&& length >= 0
        }),
{
}

/// A surface is configured again after either change, and not without one.
pub proof fn changes_call_for_a_configuration(resized: bool, detached: bool, r: bool)
    requires
        call_ensures(configure_needed, (resized, detached), r),
    ensures
        resized ==> r,
        detached ==> r,
        !resized ==> r == detached,
{
}

/// A frame that can be painted is painted at its own size, and one that cannot is
/// reported with the size it has.
pub proof fn paintable_frames_keep_their_size(
    size: FrameSize,
    max: u32,
    r: Result<(u32, u32), SurfaceLost>,
)
    requires
        call_ensures(frame_extent, (size, max), r),
    ensures
        r is Ok <==> 0 < size.w <= max && 0 < size.h <= max,
        r matches Ok(e) ==> e.0 == size.w && e.1 == size.h,
        r matches Err(e) ==> (e.kind matches Kind::BadDimensions(of) && of == size),
{
}

/// A buffer that is too short is reported with what it is.
pub proof fn short_buffers_are_reported(
    frame: Pixels,
    fw: u32,
    fh: u32,
    r: Result<(), SurfaceLost>,
)
    requires
        fh > 0,
        call_ensures(check_buffer, (&frame, fw, fh), r),
    ensures
        frame.stride < 4 * fw ==> r is Err,
        frame.bgra@.len() < (fh - 1) * frame.stride + 4 * fw ==> r is Err,
        r matches Err(e) ==> (e.kind matches Kind::BadPixelBuffer { size, stride, len } && size
            == frame.size && stride == frame.stride),
{
}

} // verus!
