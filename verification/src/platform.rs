//! What the window system reports: sizes, points and visibility.

use vstd::prelude::*;

verus! {

#[derive(Clone, Copy, Debug, PartialEq, Eq, Structural)]
pub struct LogicalSize {
    pub w: i32,
    pub h: i32,
}

#[derive(Clone, Copy, Debug, PartialEq, Eq, Structural)]
pub struct PhysicalSize {
    pub w: i32,
    pub h: i32,
}

#[derive(Clone, Copy, Debug, PartialEq, Eq, Structural)]
pub struct LogicalPoint {
    pub x: i32,
    pub y: i32,
}

/// A display scale, held as the bits of an IEEE 754 double.
#[derive(Clone, Copy, Debug, PartialEq, Eq, Structural)]
pub struct Scale {
    pub bits: u64,
}

/// The size of a window in both coordinate spaces.
#[derive(Clone, Copy, Debug, PartialEq, Eq, Structural)]
pub struct WindowExtent {
    pub physical: PhysicalSize,
    pub scale: Scale,
    pub logical: LogicalSize,
}

#[derive(Clone, Copy, Debug, PartialEq, Eq, Structural)]
pub struct WindowSnapshot {
    pub extent: Option<WindowExtent>,
    pub maximized: bool,
    pub fullscreen: bool,
}

#[derive(Clone, Copy, Debug, PartialEq, Eq, Structural)]
pub enum Visibility {
    Hidden,
    Shown,
}

impl Visibility {
    pub fn shown(shown: bool) -> (r: Visibility)
        ensures
            r == (if shown {
                Visibility::Shown
            } else {
                Visibility::Hidden
            }),
    {
        if shown {
            Visibility::Shown
        } else {
            Visibility::Hidden
        }
    }
}

/// What is shown is no longer hidden, and the other way round.
pub proof fn shown_is_not_hidden(shown: bool, v: Visibility)
    requires
        call_ensures(Visibility::shown, (shown,), v),
    ensures
        v is Shown <==> shown,
        v is Hidden <==> !shown,
{
}

} // verus!
