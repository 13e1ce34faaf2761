//! A surface that is rendered to directly, frame by frame.

use vstd::prelude::*;

use crate::gpu::error::{Kind, SurfaceLost};
use crate::gpu::painter::{
    frame_extent, pick_alpha_mode, texels, AlphaMode, ConfigureSite, PresentPolicy, SurfaceConfig,
};
use crate::gpu::surface::{acquire_frame, AcquireStatus, AcquireStep};
use crate::gpu::types::{FrameSize, WindowTarget};

verus! {

#[derive(Clone, Copy, Debug, PartialEq, Eq, Structural)]
pub struct Swapchain {
    pub config: SurfaceConfig,
    pub max_texture_dim: u32,
    pub configure_site: ConfigureSite,
}

pub open spec fn at_most(n: int, max: u32) -> u32 {
    if n < max {
        n as u32
    } else {
        max
    }
}

/// What to do about a frame that is rendered to directly: as for a painted one,
/// but a frame that fails validation is only put off, and a suboptimal surface
/// is left as it is.
pub open spec fn swapchain_decision(
    site: ConfigureSite,
    reconfigured: bool,
    status: AcquireStatus,
) -> AcquireStep {
    match crate::gpu::surface::acquire_decision(site, reconfigured, status) {
        AcquireStep::Use { .. } => AcquireStep::Use { suboptimal: false },
        AcquireStep::Fail => AcquireStep::Defer,
        step => step,
    }
}

impl Swapchain {
    /// Brings a swapchain up. `surface` is what creating the surface came to,
    /// and whether the adapter supports it.
    pub fn new(
        target: &WindowTarget,
        size: FrameSize,
        max_texture_dim: u32,
        surface: Result<bool, SurfaceLost>,
        offered: &Vec<AlphaMode>,
    ) -> (r: Result<Swapchain, SurfaceLost>)
        ensures
            !crate::gpu::painter::paintable(size, max_texture_dim) ==> (r matches Err(e) && e.kind
                == Kind::BadDimensions(size)),
            crate::gpu::painter::paintable(size, max_texture_dim) ==> match surface {
                Err(lost) => r == Err::<Swapchain, SurfaceLost>(lost),
                Ok(false) => r matches Err(e) && e.kind == Kind::SurfaceUnsupported,
                Ok(true) => r is Ok,
            },
            r matches Ok(s) ==> {
                &&& s.config.width == size.w && s.config.height == size.h
                &&& s.config.present == PresentPolicy::of(*target)
                &&& s.config.alpha_mode == crate::gpu::painter::preferred_alpha(offered@)
                &&& s.max_texture_dim == max_texture_dim
                &&& s.configure_site == ConfigureSite::of(*target)
            },
    {
        let extent = match frame_extent(size, max_texture_dim) {
            Err(e) => return Err(e),
            Ok(e) => e,
        };
        let supported = match surface {
            Err(e) => return Err(e),
            Ok(s) => s,
        };
        if !supported {
            return Err(SurfaceLost { kind: Kind::SurfaceUnsupported });
        }
        Ok(
            Swapchain {
                config: SurfaceConfig {
                    width: extent.0,
                    height: extent.1,
                    present: PresentPolicy::for_target(target),
                    alpha_mode: pick_alpha_mode(offered),
                },
                max_texture_dim,
                configure_site: ConfigureSite::for_target(target),
            },
        )
    }

    /// The window was resized. `true` where the surface is to be configured:
    /// the size, cut to what the GPU can do, is another one.
    pub fn resize(&mut self, size: FrameSize) -> (configure: bool)
        ensures
            !(size.w > 0 && size.h > 0) ==> !configure && *final(self) == *old(self),
            size.w > 0 && size.h > 0 ==> {
                let w = at_most(size.w as int, old(self).max_texture_dim);
                let h = at_most(size.h as int, old(self).max_texture_dim);
                &&& configure == (w != old(self).config.width || h != old(self).config.height)
                &&& *final(self) == (Swapchain {
                    config: SurfaceConfig { width: w, height: h, ..old(self).config },
                    ..*old(self)
                })
            },
    {
        let (w, h) = match texels(size) {
            None => return false,
            Some(wh) => wh,
        };
        let w: u32 = if w < self.max_texture_dim { w } else { self.max_texture_dim };
        let h: u32 = if h < self.max_texture_dim { h } else { self.max_texture_dim };
        if w == self.config.width && h == self.config.height {
            return false;
        }
        self.config.width = w;
        self.config.height = h;
        true
    }

    /// What to do about the frame that was asked for.
    pub fn acquire(&self, reconfigured: bool, status: AcquireStatus) -> (r: AcquireStep)
        ensures
            r == swapchain_decision(self.configure_site, reconfigured, status),
    {
        match acquire_frame(self.configure_site, reconfigured, status) {
            AcquireStep::Use { .. } => AcquireStep::Use { suboptimal: false },
            AcquireStep::Fail => AcquireStep::Defer,
            AcquireStep::Defer => AcquireStep::Defer,
            AcquireStep::Reconfigure => AcquireStep::Reconfigure,
        }
    }
}

/// A frame is put off or rendered to after two attempts at the latest; it never
/// loses the surface.
pub proof fn swapchain_acquiring_ends(site: ConfigureSite, status: AcquireStatus)
    ensures
        !(swapchain_decision(site, true, status) is Reconfigure),
        !(swapchain_decision(site, true, status) is Fail),
        !(swapchain_decision(site, false, status) is Fail),
{
}

/// A frame that is rendered to directly is used where a painted one is, and put
/// off where a painted one is or where it would be lost.
pub proof fn direct_frames_are_used_or_put_off(
    site: ConfigureSite,
    reconfigured: bool,
    status: AcquireStatus,
)
    ensures
        ({
            let step = swapchain_decision(site, reconfigured, status);
            &&& status is Success ==> step == (AcquireStep::Use { suboptimal: false })
            &&& status is Suboptimal ==> (site is Painter ==> step == (AcquireStep::Use {
                suboptimal: false,
            })) && (site is Owner ==> step is Defer)
            &&& step is Reconfigure <==> (status is Lost || status is Outdated) && site is Painter
                && !reconfigured
            &&& status is Validation || status is Timeout || status is Occluded ==> step is Defer
        }),
{
}

/// A side is cut to what the GPU can do.
pub proof fn sides_are_cut_to_the_gpu(n: i32, max: u32)
    requires
        n > 0,
    ensures
        at_most(n as int, max) <= max && at_most(n as int, max) <= n,
        at_most(n as int, max) == max || at_most(n as int, max) == n,
{
}

/// A swapchain is configured for another size, and not again for the same.
pub proof fn swapchains_are_configured_once_per_size(
    s: &mut Swapchain,
    size: FrameSize,
    first: bool,
    t: &mut Swapchain,
    second: bool,
)
    requires
        size.w > 0 && size.h > 0,
        size.w <= old(s).max_texture_dim && size.h <= old(s).max_texture_dim,
        call_ensures(Swapchain::resize, (s, size), first),
        *old(t) == *final(s),
        call_ensures(Swapchain::resize, (t, size), second),
    ensures
        final(s).config.width == size.w && final(s).config.height == size.h,
        first <==> old(s).config.width != size.w || old(s).config.height != size.h,
        !second,
{
}

} // verus!
