//! The values that pass between a frame's producer and its painter.

use vstd::prelude::*;

use crate::time::{Duration, Instant};

verus! {

/// What a painter draws onto, by the numbers that the window system knows it
/// under.
#[derive(Clone, Copy, Debug, PartialEq, Eq, Structural)]
pub enum WindowTarget {
    Xcb { connection: u64, window: u32, screen: i32, visual: u32 },
    Wayland { display: u64, surface: u64 },
    CompositionVisual { visual: u64 },
    CoreAnimationLayer { layer: u64 },
}

/// How frames reach the painter.
#[derive(Clone, Copy, Debug, PartialEq, Eq, Structural)]
pub enum PaintMode {
    Shared,
    Copied,
}

#[derive(Clone, Copy, Debug, PartialEq, Eq, Structural)]
pub struct FrameSize {
    pub w: i32,
    pub h: i32,
}

/// Evidence that a frame was handed to the screen.
#[derive(Clone, Copy, Debug)]
pub struct Presented {
    issued: (),
}

impl Presented {
    pub fn issued() -> Presented {
        Presented { issued: () }
    }
}

/// A frame that could not be shown yet, and that is owed a retry.
#[must_use]
#[derive(Debug)]
pub struct Deferred {
    owed: (),
}

impl Deferred {
    pub fn new() -> Deferred {
        Deferred { owed: () }
    }

    /// When to try again: one refresh interval from now, where one is known.
    pub fn retry_at(self, now: Instant, interval: Option<Duration>) -> (r: Option<Instant>)
        requires
            interval matches Some(i) ==> now.reaches(i),
        ensures
            r == (match interval {
                Some(i) => Some(Instant { nanos: (now.nanos + i.nanos) as u64 }),
                None => None,
            }),
    {
        match interval {
            Some(i) => Some(now.after(i)),
            None => None,
        }
    }
}

impl Default for Deferred {
    fn default() -> Deferred {
        Deferred::new()
    }
}

#[derive(Clone, Copy, Debug, PartialEq, Eq, Structural)]
pub struct DamageRect {
    pub x: i32,
    pub y: i32,
    pub w: i32,
    pub h: i32,
}

pub open spec fn min(a: int, b: int) -> int {
    if a < b {
        a
    } else {
        b
    }
}

pub open spec fn max(a: int, b: int) -> int {
    if a < b {
        b
    } else {
        a
    }
}

impl DamageRect {
    /// The pixel at `(px, py)` lies in the rectangle.
    pub open spec fn covers(self, px: int, py: int) -> bool {
        self.x <= px < self.x + self.w && self.y <= py < self.y + self.h
    }

    /// The part of the rectangle inside `width` by `height`.
    pub open spec fn clip(self, width: i32, height: i32) -> Option<DamageRect> {
        let x0 = max(self.x as int, 0);
        let y0 = max(self.y as int, 0);
        let x1 = min(self.x + self.w, width as int);
        let y1 = min(self.y + self.h, height as int);
        if x1 <= x0 || y1 <= y0 {
            None
        } else {
            Some(
                DamageRect {
                    x: x0 as i32,
                    y: y0 as i32,
                    w: (x1 - x0) as i32,
                    h: (y1 - y0) as i32,
                },
            )
        }
    }

    pub fn clamped(self, width: i32, height: i32) -> (r: Option<DamageRect>)
        ensures
            r == self.clip(width, height),
    {
        let x0: i64 = if self.x < 0 { 0 } else { self.x as i64 };
        let y0: i64 = if self.y < 0 { 0 } else { self.y as i64 };
        let right: i64 = self.x as i64 + self.w as i64;
        let bottom: i64 = self.y as i64 + self.h as i64;
        let x1: i64 = if right < width as i64 { right } else { width as i64 };
        let y1: i64 = if bottom < height as i64 { bottom } else { height as i64 };
        if x1 <= x0 || y1 <= y0 {
            return None;
        }
        Some(
            DamageRect { x: x0 as i32, y: y0 as i32, w: (x1 - x0) as i32, h: (y1 - y0) as i32 },
        )
    }
}

/// Clipping keeps exactly the pixels of the rectangle that lie inside the
/// bounds, and nothing where there are none.
pub proof fn clip_is_the_intersection(r: DamageRect, width: i32, height: i32, px: int, py: int)
    ensures
        (r.clip(width, height) matches Some(c) && c.covers(px, py)) <==> (r.covers(px, py) && 0
            <= px < width && 0 <= py < height),
        r.clip(width, height) matches Some(c) ==> c.w > 0 && c.h > 0,
{
}

/// Clipping twice changes nothing more.
pub proof fn clip_is_idempotent(r: DamageRect, width: i32, height: i32)
    ensures
        r.clip(width, height) matches Some(c) ==> c.clip(width, height) == Some(c),
{
}

/// A frame in memory: rows of four-byte pixels, `stride` bytes apart.
pub struct Pixels<'a> {
    pub size: FrameSize,
    pub stride: u32,
    pub bgra: &'a [u8],
    pub dirty: &'a [DamageRect],
}

/// A rectangle covers the columns from its left edge on and the rows from its
/// top edge on, as many as it is wide and high.
pub proof fn rectangles_cover_their_rows_and_columns(r: DamageRect, px: int, py: int)
    ensures
        r.covers(px, py) <==> 0 <= px - r.x < r.w && 0 <= py - r.y < r.h,
{
}

/// Clipping moves no edge outwards, and none that is inside the bounds: a
/// rectangle that lies inside stays as it is.
pub proof fn clipping_moves_edges_inwards(r: DamageRect, width: i32, height: i32)
    ensures
        r.clip(width, height) matches Some(c) ==> {
            &&& c.x >= 0 && c.x >= r.x && c.y >= 0 && c.y >= r.y
            &&& c.x + c.w <= width && c.x + c.w <= r.x + r.w
            &&& c.y + c.h <= height && c.y + c.h <= r.y + r.h
            &&& c.x == 0 || c.x == r.x
            &&& c.y == 0 || c.y == r.y
            &&& c.x + c.w == width || c.x + c.w == r.x + r.w
            &&& c.y + c.h == height || c.y + c.h == r.y + r.h
        },
        r.x >= 0 && r.y >= 0 && r.w > 0 && r.h > 0 && r.x + r.w <= width && r.y + r.h <= height
            ==> r.clip(width, height) == Some(r),
        r.w <= 0 || r.h <= 0 || width <= 0 || height <= 0 ==> r.clip(width, height) is None,
{
}

/// The lesser and the greater of two numbers are the two numbers.
pub proof fn lesser_and_greater(a: int, b: int)
    ensures
        min(a, b) <= a && min(a, b) <= b && (min(a, b) == a || min(a, b) == b),
        max(a, b) >= a && max(a, b) >= b && (max(a, b) == a || max(a, b) == b),
{
}

/// A frame that was put off is tried again one refresh later, and at no time
/// where no refresh is known.
pub proof fn retries_wait_one_refresh(
    d: Deferred,
    now: Instant,
    interval: Duration,
    known: Option<Instant>,
    unknown: Option<Instant>,
)
    requires
        now.nanos + interval.nanos <= u64::MAX,
        call_ensures(Deferred::retry_at, (d, now, Some(interval)), known),
        call_ensures(Deferred::retry_at, (d, now, None), unknown),
    ensures
        known matches Some(at) && at.nanos - now.nanos == interval.nanos,
        unknown is None,
{
}

} // verus!
