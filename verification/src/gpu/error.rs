//! Why a surface is of no use any more.

use vstd::prelude::*;

use crate::gpu::types::FrameSize;
use crate::text::{decimal_text, joined, signed_text};

verus! {

#[derive(Debug)]
pub enum Kind {
    NoAdapter,
    DeviceRequest(String),
    SurfaceCreate(String),
    SurfaceUnsupported,
    Acquire(&'static str),
    BadDimensions(FrameSize),
    BadPixelBuffer { size: FrameSize, stride: u32, len: usize },
}

#[derive(Debug)]
pub struct SurfaceLost {
    pub kind: Kind,
}

pub open spec fn size_text(size: FrameSize) -> Seq<char> {
    crate::text::signed(size.w as int) + "x"@ + crate::text::signed(size.h as int)
}

pub open spec fn kind_message(kind: Kind) -> Seq<char> {
    match kind {
        Kind::NoAdapter => "no usable adapter available"@,
        Kind::DeviceRequest(e) => "device request failed: "@ + e@,
        Kind::SurfaceCreate(e) => "surface creation failed: "@ + e@,
        Kind::SurfaceUnsupported => "adapter does not support requested surface"@,
        Kind::Acquire(e) => "swapchain acquire failed: "@ + e@,
        Kind::BadDimensions(size) => "invalid frame dimensions: "@ + size_text(size),
        Kind::BadPixelBuffer { size, stride, len } => "frame buffer does not cover "@ + size_text(
            size,
        ) + " at stride "@ + crate::text::decimal(stride as nat) + ": "@ + crate::text::decimal(
            len as nat,
        ) + " bytes"@,
    }
}

fn size_message(size: FrameSize) -> (r: String)
    ensures
        r@ == size_text(size),
{
    joined(
        joined(signed_text(size.w as i64).as_str(), "x").as_str(),
        signed_text(size.h as i64).as_str(),
    )
}

impl SurfaceLost {
    pub fn message(&self) -> (r: String)
        ensures
            r@ == kind_message(self.kind),
    {
        match &self.kind {
            Kind::NoAdapter => "no usable adapter available".to_owned(),
            Kind::DeviceRequest(e) => joined("device request failed: ", e.as_str()),
            Kind::SurfaceCreate(e) => joined("surface creation failed: ", e.as_str()),
            Kind::SurfaceUnsupported => "adapter does not support requested surface".to_owned(),
            Kind::Acquire(e) => joined("swapchain acquire failed: ", e),
            Kind::BadDimensions(size) => joined(
                "invalid frame dimensions: ",
                size_message(*size).as_str(),
            ),
            Kind::BadPixelBuffer { size, stride, len } => {
                let mut s = joined("frame buffer does not cover ", size_message(*size).as_str());
                s.append(" at stride ");
                s.append(decimal_text(*stride as u64).as_str());
                s.append(": ");
                s.append(decimal_text(*len as u64).as_str());
                s.append(" bytes");
                s
            },
        }
    }
}

/// A size is written as its width by its height.
pub proof fn sizes_are_written_width_first(size: FrameSize)
    ensures
        size_text(size) == crate::text::signed(size.w as int) + "x"@ + crate::text::signed(
            size.h as int,
        ),
        size.w >= 0 ==> (forall|i: int|
            0 <= i < crate::text::decimal(size.w as nat).len() ==> #[trigger] size_text(size)[i]
                == crate::text::decimal(size.w as nat)[i]),
{
}

/// What is said of a lost surface names its cause: the words of whoever failed,
/// or the measures that do not fit.
pub proof fn messages_name_their_cause(kind: Kind)
    ensures
        kind is NoAdapter ==> kind_message(kind) == "no usable adapter available"@,
        kind is SurfaceUnsupported ==> kind_message(kind)
            == "adapter does not support requested surface"@,
        kind matches Kind::DeviceRequest(e) ==> kind_message(kind) == "device request failed: "@
            + e@,
        kind matches Kind::SurfaceCreate(e) ==> kind_message(kind) == "surface creation failed: "@
            + e@,
        kind matches Kind::Acquire(e) ==> kind_message(kind) == "swapchain acquire failed: "@ + e@,
        kind matches Kind::BadDimensions(size) ==> kind_message(kind)
            == "invalid frame dimensions: "@ + (crate::text::signed(size.w as int) + "x"@
            + crate::text::signed(size.h as int)),
        kind matches Kind::BadPixelBuffer { size, stride, len } ==> kind_message(kind)
            == "frame buffer does not cover "@ + (crate::text::signed(size.w as int) + "x"@
            + crate::text::signed(size.h as int)) + " at stride "@ + crate::text::decimal(
            stride as nat,
        ) + ": "@ + crate::text::decimal(len as nat) + " bytes"@,
{
}

} // verus!
