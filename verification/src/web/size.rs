//! What the web overlay is sized to: a function of the window and of the strip
//! that the shell overlay reserves above it.

use vstd::prelude::*;

use crate::platform::{LogicalSize, PhysicalSize, WindowSnapshot};

verus! {

/// The size handed to the browser, in both coordinate spaces, and the offset of
/// its top edge from the window's.
#[derive(Clone, Copy, Debug, PartialEq, Eq, Structural)]
pub struct ViewSize {
    pub logical: LogicalSize,
    pub physical: PhysicalSize,
    pub logical_top: i32,
    pub physical_top: i32,
}

pub open spec fn strip(reserved: int, height: int) -> int {
    if reserved < 0 {
        0
    } else if reserved > height {
        height
    } else {
        reserved
    }
}

/// The view below the reserved strip. The strip's height in physical pixels is
/// its share of the window, rounded down.
pub open spec fn view_of(snapshot: WindowSnapshot, reserved_strip: i32) -> Option<ViewSize> {
    match snapshot.extent {
        None => None,
        Some(e) => {
            let (lw, lh) = (e.logical.w, e.logical.h);
            let (pw, ph) = (e.physical.w, e.physical.h);
            if lw <= 0 || lh <= 0 || pw <= 0 || ph <= 0 {
                None
            } else {
                let top = strip(reserved_strip as int, lh as int);
                let physical_top = top * ph / (lh as int);
                if lh - top <= 0 || ph - physical_top <= 0 {
                    None
                } else {
                    Some(
                        ViewSize {
                            logical: LogicalSize { w: lw, h: (lh - top) as i32 },
                            physical: PhysicalSize { w: pw, h: (ph - physical_top) as i32 },
                            logical_top: top as i32,
                            physical_top: physical_top as i32,
                        },
                    )
                }
            }
        },
    }
}

proof fn lemma_share(top: int, ph: int, lh: int)
    requires
        0 <= top <= lh,
        0 < ph <= i32::MAX,
        0 < lh <= i32::MAX,
    ensures
        0 <= top * ph <= i64::MAX,
        0 <= top * ph / lh <= ph,
        top < lh ==> top * ph / lh < ph,
{
    assert(0 <= top * ph <= lh * ph) by (nonlinear_arith)
        requires
            0 <= top <= lh,
            0 < ph,
    ;
    assert(lh * ph <= 0x7FFF_FFFF * 0x7FFF_FFFF) by (nonlinear_arith)
        requires
            0 < lh <= 0x7FFF_FFFF,
            0 < ph <= 0x7FFF_FFFF,
    ;
    assert(0 <= top * ph / lh <= ph) by (nonlinear_arith)
        requires
            0 <= top * ph <= lh * ph,
            0 < lh,
    ;
    if top < lh {
        assert(top * ph / lh < ph) by (nonlinear_arith)
            requires
                0 <= top < lh,
                0 < ph,
        ;
    }
}

/// `None` where the window has no extent, where a side of it is not positive,
/// and where the strip leaves no content.
pub fn view_size(snapshot: &WindowSnapshot, reserved_strip: i32) -> (r: Option<ViewSize>)
    ensures
        r == view_of(*snapshot, reserved_strip),
{
    let extent = match snapshot.extent {
        None => return None,
        Some(e) => e,
    };
    let logical = extent.logical;
    let physical = extent.physical;
    if logical.w <= 0 || logical.h <= 0 || physical.w <= 0 || physical.h <= 0 {
        return None;
    }
    let logical_top: i32 = if reserved_strip < 0 {
        0
    } else if reserved_strip > logical.h {
        logical.h
    } else {
        reserved_strip
    };
    proof {
        lemma_share(logical_top as int, physical.h as int, logical.h as int);
    }
    let share: i64 = logical_top as i64 * physical.h as i64;
    let physical_top: i32 = (share / logical.h as i64) as i32;
    let logical_h: i32 = logical.h - logical_top;
    let physical_h: i32 = physical.h - physical_top;
    if logical_h <= 0 || physical_h <= 0 {
        return None;
    }
    Some(
        ViewSize {
            logical: LogicalSize { w: logical.w, h: logical_h },
            physical: PhysicalSize { w: physical.w, h: physical_h },
            logical_top,
            physical_top,
        },
    )
}

/// The view and the strip make up the window, in both spaces, and there is a
/// view exactly where the window has a size and the strip is shorter.
pub proof fn view_and_strip_make_up_the_window(snapshot: WindowSnapshot, reserved_strip: i32)
    ensures
        view_of(snapshot, reserved_strip) is Some <==> (snapshot.extent matches Some(e) && e.logical.w
            > 0 && e.logical.h > 0 && e.physical.w > 0 && e.physical.h > 0 && reserved_strip
            < e.logical.h),
        view_of(snapshot, reserved_strip) matches Some(v) ==> {
            let e = snapshot.extent->0;
            &&& v.logical.h + v.logical_top == e.logical.h
            &&& v.physical.h + v.physical_top == e.physical.h
            &&& v.logical.w == e.logical.w && v.physical.w == e.physical.w
            &&& v.logical.h > 0 && v.physical.h > 0
            &&& v.logical_top >= 0 && v.physical_top >= 0
        },
{
    match snapshot.extent {
        Some(e) => {
            if e.logical.w > 0 && e.logical.h > 0 && e.physical.w > 0 && e.physical.h > 0 {
                lemma_share(
                    strip(reserved_strip as int, e.logical.h as int),
                    e.physical.h as int,
                    e.logical.h as int,
                );
            }
        },
        None => {},
    }
}

/// The view starts right below the strip: at its height, and in physical pixels
/// at the strip's share of the window, rounded down. A strip of no height
/// leaves the whole window.
pub proof fn views_start_below_the_strip(snapshot: WindowSnapshot, reserved_strip: i32)
    ensures
        view_of(snapshot, reserved_strip) matches Some(v) ==> {
            let e = snapshot.extent->0;
            &&& reserved_strip >= 0 ==> v.logical_top == reserved_strip
            &&& reserved_strip <= 0 ==> v.logical_top == 0 && v.physical_top == 0 && v.logical
                == e.logical && v.physical == e.physical
            &&& v.physical_top * e.logical.h <= v.logical_top * e.physical.h
            &&& v.logical_top * e.physical.h < (v.physical_top + 1) * e.logical.h
        },
{
    if let Some(e) = snapshot.extent {
        if e.logical.w > 0 && e.logical.h > 0 && e.physical.w > 0 && e.physical.h > 0 {
            let top = strip(reserved_strip as int, e.logical.h as int);
            let ph = e.physical.h as int;
            let lh = e.logical.h as int;
            lemma_share(top, ph, lh);
            let x = top * ph;
            let q = x / lh;
            assert(q * lh <= x < (q + 1) * lh) by (nonlinear_arith)
                requires
                    q == x / lh,
                    lh > 0,
            ;
            if reserved_strip <= 0 {
                assert(0 * ph == 0) by (nonlinear_arith);
                assert(q == 0) by (nonlinear_arith)
                    requires
                        q == x / lh,
                        x == 0,
                        lh > 0,
                ;
            }
        }
    }
}

} // verus!
