//! The state of one painted surface, from its first configuration to the frame
//! on the screen.

use vstd::prelude::*;

use crate::gpu::error::{Kind, SurfaceLost};
use crate::gpu::painter::{
    check_buffer, configure_needed, frame_extent, pick_alpha_mode, texels, AlphaMode, AlphaSource,
    ConfigureSite, PresentFailed, PresentPolicy, SizePolicy, SurfaceConfig, TextureWrite,
    UploadTexture,
};
use crate::gpu::types::{DamageRect, FrameSize, PaintMode, Pixels, WindowTarget};

verus! {

#[derive(Clone, Copy, Debug, PartialEq, Eq)]
pub struct Surface {
    pub config: SurfaceConfig,
    pub max_texture_dim: u32,
    pub pending_size: (u32, u32),
    pub needs_configure: bool,
    pub policy: SizePolicy,
    pub alpha: AlphaSource,
    pub configure_site: ConfigureSite,
    pub mode: Option<PaintMode>,
    pub upload: Option<UploadTexture>,
    pub shared_bound: bool,
    pub configured: bool,
}

/// What a copied frame asks of the GPU.
#[derive(Debug)]
pub struct PixelPlan {
    pub width: u32,
    pub height: u32,
    /// The surface is to be configured first.
    pub configure: bool,
    /// The upload texture is to be made anew.
    pub fresh_texture: bool,
    pub writes: Vec<TextureWrite>,
}

/// What a shared frame asks of the GPU.
#[derive(Clone, Copy, Debug, PartialEq, Eq)]
pub struct SharedPlan {
    pub width: u32,
    pub height: u32,
    /// The surface is to be configured first.
    pub configure: bool,
    /// The part of the surface that the frame covers, where it may not be all.
    pub viewport: Option<(u32, u32)>,
}

/// The sides of a rectangle that can be added up within 32 bits.
pub open spec fn sums_fit(r: DamageRect) -> bool {
    i32::MIN <= r.x + r.w <= i32::MAX && i32::MIN <= r.y + r.h <= i32::MAX
}

pub open spec fn fits(n: u32) -> bool {
    0 < n <= i32::MAX
}

impl Surface {
    /// Sizes are positive, and an upload texture is as large as the surface.
    pub open spec fn wf(self) -> bool {
        &&& fits(self.config.width) && fits(self.config.height)
        &&& fits(self.pending_size.0) && fits(self.pending_size.1)
        &&& self.upload matches Some(u) ==> u.w == self.config.width && u.h == self.config.height
    }

    /// `self` moved to a size: configured where the size or the content calls
    /// for it. Another size voids what was uploaded.
    pub open spec fn at_size(self, cw: u32, ch: u32) -> Surface {
        let resized = self.config.width != cw || self.config.height != ch;
        if resized || self.needs_configure {
            Surface {
                config: SurfaceConfig { width: cw, height: ch, ..self.config },
                needs_configure: false,
                configured: true,
                upload: if resized {
                    None
                } else {
                    self.upload
                },
                pending_size: if resized && self.policy == SizePolicy::FollowFrame {
                    (cw, ch)
                } else {
                    self.pending_size
                },
                ..self
            }
        } else {
            self
        }
    }

    /// Whether moving to a size configures the surface.
    pub open spec fn configures_at(self, cw: u32, ch: u32) -> bool {
        self.config.width != cw || self.config.height != ch || self.needs_configure
    }

    /// The size that a frame is painted at: the painter's own surface follows
    /// the frame or the window; the owner's keeps the size it was given.
    pub open spec fn painted_size(self, fw: u32, fh: u32) -> (u32, u32) {
        if self.configure_site == ConfigureSite::Owner {
            (self.config.width, self.config.height)
        } else if self.policy == SizePolicy::FollowFrame {
            (fw, fh)
        } else {
            (
                crate::gpu::painter::clamped(self.pending_size.0, self.max_texture_dim),
                crate::gpu::painter::clamped(self.pending_size.1, self.max_texture_dim),
            )
        }
    }

    /// `self` sized for a frame.
    pub open spec fn sized_for(self, fw: u32, fh: u32) -> Surface {
        if self.configure_site == ConfigureSite::Painter {
            let (cw, ch) = self.painted_size(fw, fh);
            self.at_size(cw, ch)
        } else {
            self
        }
    }

    /// Frames of this kind may be painted here.
    pub open spec fn accepts(self, mode: PaintMode) -> bool {
        self.mode matches Some(latched) ==> latched == mode
    }

    /// Only the damage of a copied frame is uploaded: the frame is one that can
    /// be painted, and the texture still holds the frame before.
    pub open spec fn patches(self, frame: Pixels) -> bool {
        &&& self.accepts(PaintMode::Copied)
        &&& crate::gpu::painter::paintable(frame.size, self.max_texture_dim)
        &&& crate::gpu::painter::buffer_holds(
            frame.bgra@.len() as int,
            frame.stride as int,
            frame.size.w as int,
            frame.size.h as int,
        )
        &&& self.sized_for(frame.size.w as u32, frame.size.h as u32).upload matches Some(u)
            && !u.needs_base
    }

    /// Brings a surface up. `surface` is what creating it came to, and whether
    /// the adapter supports it; it counts only for a size the GPU can paint.
    pub fn new(
        target: &WindowTarget,
        size: FrameSize,
        max_texture_dim: u32,
        surface: Result<bool, SurfaceLost>,
        offered: &Vec<AlphaMode>,
    ) -> (r: Result<Surface, SurfaceLost>)
        ensures
            !crate::gpu::painter::paintable(size, max_texture_dim) ==> (r matches Err(e) && e.kind
                == Kind::BadDimensions(size)),
            crate::gpu::painter::paintable(size, max_texture_dim) ==> match surface {
                Err(lost) => r == Err::<Surface, SurfaceLost>(lost),
                Ok(false) => r matches Err(e) && e.kind == Kind::SurfaceUnsupported,
                Ok(true) => r is Ok,
            },
            r matches Ok(s) ==> {
                &&& s.wf()
                &&& s.config.width == size.w && s.config.height == size.h
                &&& s.config.present == PresentPolicy::of(*target)
                &&& s.config.alpha_mode == crate::gpu::painter::preferred_alpha(offered@)
                &&& s.max_texture_dim == max_texture_dim
                &&& s.pending_size == (s.config.width, s.config.height)
                &&& !s.needs_configure
                &&& s.policy == SizePolicy::of(*target)
                &&& s.alpha == AlphaSource::of(*target)
                &&& s.configure_site == ConfigureSite::of(*target)
                &&& s.mode is None && s.upload is None && !s.shared_bound
                &&& s.configured
            },
    {
        let extent = match frame_extent(size, max_texture_dim) {
            Err(e) => return Err(e),
            Ok(e) => e,
        };
        let supported = match surface {
            Err(e) => return Err(e),
            Ok(s) => s,
        };
        if !supported {
            return Err(SurfaceLost { kind: Kind::SurfaceUnsupported });
        }
        let config = SurfaceConfig {
            width: extent.0,
            height: extent.1,
            present: PresentPolicy::for_target(target),
            alpha_mode: pick_alpha_mode(offered),
        };
        Ok(
            Surface {
                config,
                max_texture_dim,
                pending_size: extent,
                needs_configure: false,
                policy: SizePolicy::for_target(target),
                alpha: AlphaSource::for_target(target),
                configure_site: ConfigureSite::for_target(target),
                mode: None,
                upload: None,
                shared_bound: false,
                configured: true,
            },
        )
    }

    /// The surface was configured as it stands: after it was lost or outdated,
    /// or after a frame that it no longer suited.
    pub fn configured_now(&mut self)
        ensures
            *final(self) == (Surface { configured: true, ..*old(self) }),
    {
        self.configured = true;
    }

    /// Whether the surface was configured since this was last asked.
    pub fn take_configured(&mut self) -> (r: bool)
        ensures
            r == old(self).configured,
            *final(self) == (Surface { configured: false, ..*old(self) }),
    {
        let configured = self.configured;
        self.configured = false;
        configured
    }

    fn clamp_dim(&self, n: u32) -> (r: u32)
        ensures
            r == crate::gpu::painter::clamped(n, self.max_texture_dim),
    {
        let max: u32 = if self.max_texture_dim < 1 { 1 } else { self.max_texture_dim };
        if n < 1 {
            1
        } else if n > max {
            max
        } else {
            n
        }
    }

    /// The window was resized. `true` where the surface is to be configured at
    /// once; the painter's own surface waits for its next frame.
    pub fn resize(&mut self, size: FrameSize) -> (configure: bool)
        requires
            old(self).wf(),
        ensures
            final(self).wf(),
            match crate::gpu::painter::texel_size(size) {
                None => !configure && *final(self) == *old(self),
                Some(wh) => {
                    let pending = Surface { pending_size: wh, ..*old(self) };
                    if old(self).configure_site == ConfigureSite::Owner {
                        let cw = crate::gpu::painter::clamped(wh.0, old(self).max_texture_dim);
                        let ch = crate::gpu::painter::clamped(wh.1, old(self).max_texture_dim);
                        &&& configure == pending.configures_at(cw, ch)
                        &&& *final(self) == pending.at_size(cw, ch)
                    } else {
                        !configure && *final(self) == pending
                    }
                },
            },
    {
        let size = match texels(size) {
            None => return false,
            Some(wh) => wh,
        };
        self.pending_size = size;
        if self.configure_site == ConfigureSite::Owner {
            let w: u32 = self.clamp_dim(size.0);
            let h: u32 = self.clamp_dim(size.1);
            return self.reconfigure_to(w, h);
        }
        false
    }

    /// The window let go of the content: the next frame configures the surface
    /// even at the same size.
    pub fn content_detached(&mut self)
        ensures
            *final(self) == (Surface { needs_configure: true, ..*old(self) }),
    {
        self.needs_configure = true;
    }

    /// The first frame settles how frames reach this surface.
    pub fn latch(&mut self, mode: PaintMode) -> (r: Result<(), PresentFailed>)
        ensures
            r is Ok <==> old(self).accepts(mode),
            r matches Err(e) ==> e == PresentFailed::Kind,
            *final(self) == (Surface {
                mode: if old(self).mode is None {
                    Some(mode)
                } else {
                    old(self).mode
                },
                ..*old(self)
            }),
    {
        match self.mode {
            Some(latched) => {
                if latched != mode {
                    Err(PresentFailed::Kind)
                } else {
                    Ok(())
                }
            },
            None => {
                self.mode = Some(mode);
                Ok(())
            },
        }
    }

    /// Sizes the surface for a frame. `true` where it is to be configured.
    pub fn extent_for(&mut self, frame: (u32, u32)) -> (configure: bool)
        requires
            old(self).wf(),
            fits(frame.0),
            fits(frame.1),
        ensures
            final(self).wf(),
            *final(self) == old(self).sized_for(frame.0, frame.1),
            (final(self).config.width, final(self).config.height) == old(self).painted_size(
                frame.0,
                frame.1,
            ),
            configure == (old(self).configure_site == ConfigureSite::Painter && ({
                let (cw, ch) = old(self).painted_size(frame.0, frame.1);
                old(self).configures_at(cw, ch)
            })),
    {
        if self.configure_site == ConfigureSite::Painter {
            let (cw, ch) = match self.policy {
                SizePolicy::FollowFrame => frame,
                SizePolicy::FollowTarget => (
                    self.clamp_dim(self.pending_size.0),
                    self.clamp_dim(self.pending_size.1),
                ),
            };
            return self.reconfigure_to(cw, ch);
        }
        false
    }

    fn reconfigure_to(&mut self, cw: u32, ch: u32) -> (configure: bool)
        requires
            old(self).wf(),
            fits(cw),
            fits(ch),
        ensures
            final(self).wf(),
            configure == old(self).configures_at(cw, ch),
            *final(self) == old(self).at_size(cw, ch),
    {
        let resized = self.config.width != cw || self.config.height != ch;
        if !configure_needed(resized, self.needs_configure) {
            return false;
        }
        self.config.width = cw;
        self.config.height = ch;
        self.needs_configure = false;
        self.configured = true;
        if resized {
            self.upload = None;
            if self.policy == SizePolicy::FollowFrame {
                self.pending_size = (cw, ch);
            }
        }
        true
    }

    /// Whether a copied frame would be uploaded by its damage alone.
    pub fn uploads_damage(&self, frame: &Pixels<'_>) -> (r: bool)
        requires
            self.wf(),
        ensures
            r == self.patches(*frame),
    {
        let accepted = match self.mode {
            Some(latched) => latched == PaintMode::Copied,
            None => true,
        };
        if !accepted {
            return false;
        }
        let (fw, fh) = match frame_extent(frame.size, self.max_texture_dim) {
            Err(_) => return false,
            Ok(e) => e,
        };
        if check_buffer(frame, fw, fh).is_err() {
            return false;
        }
        let (cw, ch): (u32, u32) = match self.configure_site {
            ConfigureSite::Owner => (self.config.width, self.config.height),
            ConfigureSite::Painter => match self.policy {
                SizePolicy::FollowFrame => (fw, fh),
                SizePolicy::FollowTarget => (
                    self.clamp_dim(self.pending_size.0),
                    self.clamp_dim(self.pending_size.1),
                ),
            },
        };
        match self.upload {
            Some(u) => !u.needs_base && cw == self.config.width && ch == self.config.height,
            None => false,
        }
    }

    /// Plans a copied frame: the surface is sized, and what the frame changed
    /// is uploaded, all of it where the texture is new.
    pub fn present_pixels(&mut self, frame: &Pixels<'_>) -> (r: Result<PixelPlan, PresentFailed>)
        requires
            old(self).wf(),
            old(self).patches(*frame) ==> forall|i: int|
                0 <= i < frame.dirty@.len() ==> sums_fit(#[trigger] frame.dirty@[i]),
        ensures
            final(self).wf(),
            !old(self).accepts(PaintMode::Copied) ==> (r matches Err(e) && e == PresentFailed::Kind)
                && *final(self) == *old(self),
            old(self).accepts(PaintMode::Copied) ==> {
                let latched = Surface { mode: Some(PaintMode::Copied), ..*old(self) };
                let fw = frame.size.w as u32;
                let fh = frame.size.h as u32;
                if !crate::gpu::painter::paintable(frame.size, old(self).max_texture_dim) {
                    &&& r matches Err(PresentFailed::Lost(lost)) && lost.kind
                        == Kind::BadDimensions(frame.size)
                    &&& *final(self) == latched
                } else if !crate::gpu::painter::buffer_holds(
                    frame.bgra@.len() as int,
                    frame.stride as int,
                    frame.size.w as int,
                    frame.size.h as int,
                ) {
                    &&& r matches Err(PresentFailed::Lost(lost)) && lost.kind == (
                    Kind::BadPixelBuffer {
                        size: frame.size,
                        stride: frame.stride,
                        len: frame.bgra@.len() as usize,
                    })
                    &&& *final(self) == latched
                } else {
                    let sized = latched.sized_for(fw, fh);
                    let (cw, ch) = latched.painted_size(fw, fh);
                    let fresh = sized.upload is None;
                    &&& r matches Ok(plan)
                    &&& plan.width == cw && plan.height == ch
                    &&& plan.configure == (latched.configure_site == ConfigureSite::Painter
                        && latched.configures_at(cw, ch))
                    &&& plan.fresh_texture == fresh
                    &&& plan.writes@ == crate::gpu::painter::upload_writes(
                        fresh || sized.upload->0.needs_base,
                        frame.size,
                        frame.stride as int,
                        frame.dirty@,
                        cw,
                        ch,
                    )
                    &&& *final(self) == (Surface {
                        upload: Some(UploadTexture { w: cw, h: ch, needs_base: false }),
                        ..sized
                    })
                    &&& forall|i: int|
                        0 <= i < plan.writes@.len() ==> (#[trigger] plan.writes@[i]).start
                            <= plan.writes@[i].end <= frame.bgra@.len()
                }
            },
    {
        match self.latch(PaintMode::Copied) {
            Err(e) => return Err(e),
            Ok(_) => {},
        }
        let (fw, fh) = match frame_extent(frame.size, self.max_texture_dim) {
            Err(e) => return Err(PresentFailed::Lost(e)),
            Ok(e) => e,
        };
        match check_buffer(frame, fw, fh) {
            Err(e) => return Err(PresentFailed::Lost(e)),
            Ok(_) => {},
        }
        let configure = self.extent_for((fw, fh));
        let cw: u32 = self.config.width;
        let ch: u32 = self.config.height;
        let (mut upload, fresh_texture) = match self.upload {
            Some(u) => {
                if u.w == cw && u.h == ch {
                    (u, false)
                } else {
                    (UploadTexture { w: cw, h: ch, needs_base: true }, true)
                }
            },
            None => (UploadTexture { w: cw, h: ch, needs_base: true }, true),
        };
        proof {
            assert forall|i: int| !upload.needs_base && 0 <= i < frame.dirty@.len()
                implies crate::gpu::painter::clip_fits(
                (#[trigger] frame.dirty@[i]).x as int,
                frame.dirty@[i].w as int,
                crate::gpu::painter::smaller(frame.size.w as int, cw as int),
            ) && crate::gpu::painter::clip_fits(
                frame.dirty@[i].y as int,
                frame.dirty@[i].h as int,
                crate::gpu::painter::smaller(frame.size.h as int, ch as int),
            ) by {
                assert(sums_fit(frame.dirty@[i]));
            }
        }
        let writes = upload.write(frame, cw, ch);
        self.upload = Some(upload);
        Ok(PixelPlan { width: cw, height: ch, configure, fresh_texture, writes })
    }

    /// Plans a shared frame of the given size: the surface is sized, and where
    /// it follows its window the frame covers only its own part.
    pub fn present_shared(&mut self, coded: FrameSize) -> (r: Result<SharedPlan, PresentFailed>)
        requires
            old(self).wf(),
        ensures
            final(self).wf(),
            !old(self).accepts(PaintMode::Shared) ==> (r matches Err(e) && e == PresentFailed::Kind)
                && *final(self) == *old(self),
            old(self).accepts(PaintMode::Shared) ==> {
                let latched = Surface { mode: Some(PaintMode::Shared), ..*old(self) };
                let fw = coded.w as u32;
                let fh = coded.h as u32;
                if !crate::gpu::painter::paintable(coded, old(self).max_texture_dim) {
                    &&& r matches Err(PresentFailed::Lost(lost)) && lost.kind
                        == Kind::BadDimensions(coded)
                    &&& *final(self) == latched
                } else {
                    let (cw, ch) = latched.painted_size(fw, fh);
                    &&& r == Ok::<SharedPlan, PresentFailed>(
                        SharedPlan {
                            width: cw,
                            height: ch,
                            configure: latched.configure_site == ConfigureSite::Painter
                                && latched.configures_at(cw, ch),
                            viewport: if latched.policy == SizePolicy::FollowFrame {
                                None
                            } else {
                                Some(
                                    (
                                        if fw < cw {
                                            fw
                                        } else {
                                            cw
                                        },
                                        if fh < ch {
                                            fh
                                        } else {
                                            ch
                                        },
                                    ),
                                )
                            },
                        },
                    )
                    &&& *final(self) == latched.sized_for(fw, fh)
                }
            },
    {
        match self.latch(PaintMode::Shared) {
            Err(e) => return Err(e),
            Ok(_) => {},
        }
        let (fw, fh) = match frame_extent(coded, self.max_texture_dim) {
            Err(e) => return Err(PresentFailed::Lost(e)),
            Ok(e) => e,
        };
        let configure = self.extent_for((fw, fh));
        let cw: u32 = self.config.width;
        let ch: u32 = self.config.height;
        let viewport: Option<(u32, u32)> = match self.policy {
            SizePolicy::FollowFrame => None,
            SizePolicy::FollowTarget => Some(
                (if fw < cw { fw } else { cw }, if fh < ch { fh } else { ch }),
            ),
        };
        Ok(SharedPlan { width: cw, height: ch, configure, viewport })
    }

    /// A shared frame was imported, or could not be (`None`). `imported` tells
    /// whether the import gave the same texture again. `Ok(true)` where the
    /// binding made for the frame before still serves.
    pub fn bind_shared(&mut self, imported: Option<bool>) -> (r: Result<bool, PresentFailed>)
        ensures
            match imported {
                None => r == Err::<bool, PresentFailed>(PresentFailed::Import) && *final(self)
                    == *old(self),
                Some(reused) => {
                    &&& r == Ok::<bool, PresentFailed>(old(self).shared_bound && reused)
                    &&& *final(self) == (Surface { shared_bound: true, ..*old(self) })
                },
            },
    {
        match imported {
            None => Err(PresentFailed::Import),
            Some(reused) => {
                let keep = self.shared_bound && reused;
                self.shared_bound = true;
                Ok(keep)
            },
        }
    }
}

/// A surface that has painted one kind of frame never paints the other.
pub proof fn frame_kind_is_settled_once(s: Surface, mode: PaintMode)
    requires
        s.mode == Some(mode),
    ensures
        s.accepts(mode),
        mode == PaintMode::Copied ==> !s.accepts(PaintMode::Shared),
        mode == PaintMode::Shared ==> !s.accepts(PaintMode::Copied),
{
}

/// Detached content forces a configuration at an unchanged size, once.
pub proof fn detached_content_configures_once(s: Surface)
    ensures
        ({
            let detached = Surface { needs_configure: true, ..s };
            let after = detached.at_size(s.config.width, s.config.height);
            &&& detached.configures_at(s.config.width, s.config.height)
            &&& !after.configures_at(s.config.width, s.config.height)
            &&& after.upload == s.upload
        }),
{
}

/// A frame of the same size as the one before configures nothing.
pub proof fn steady_frames_do_not_configure(s: Surface, fw: u32, fh: u32)
    requires
        s.wf(),
        fits(fw),
        fits(fh),
        s.configure_site == ConfigureSite::Painter,
    ensures
        ({
            let once = s.sized_for(fw, fh);
            let (cw, ch) = once.painted_size(fw, fh);
            !once.configures_at(cw, ch)
        }),
{
}

/// What an attempt to get a frame from the swapchain came to.
#[derive(Clone, Copy, Debug, PartialEq, Eq, Structural)]
pub enum AcquireStatus {
    Success,
    Suboptimal,
    Lost,
    Outdated,
    Timeout,
    Occluded,
    Validation,
}

#[derive(Clone, Copy, Debug, PartialEq, Eq, Structural)]
pub enum AcquireStep {
    /// Paint on the frame. A suboptimal surface is configured afterwards.
    Use { suboptimal: bool },
    /// Try again later.
    Defer,
    /// Configure the surface and try again at once.
    Reconfigure,
    /// The surface is lost.
    Fail,
}

/// What to do next. A surface that its window's owner configures is never
/// configured here; any other is configured at most once per frame.
pub open spec fn acquire_decision(
    site: ConfigureSite,
    reconfigured: bool,
    status: AcquireStatus,
) -> AcquireStep {
    match status {
        AcquireStatus::Success => AcquireStep::Use { suboptimal: false },
        AcquireStatus::Suboptimal => if site == ConfigureSite::Owner {
            AcquireStep::Defer
        } else {
            AcquireStep::Use { suboptimal: true }
        },
        AcquireStatus::Lost | AcquireStatus::Outdated => if site == ConfigureSite::Painter
            && !reconfigured {
            AcquireStep::Reconfigure
        } else {
            AcquireStep::Defer
        },
        AcquireStatus::Timeout | AcquireStatus::Occluded => AcquireStep::Defer,
        AcquireStatus::Validation => AcquireStep::Fail,
    }
}

pub fn acquire_frame(site: ConfigureSite, reconfigured: bool, status: AcquireStatus) -> (r:
    AcquireStep)
    ensures
        r == acquire_decision(site, reconfigured, status),
{
    match status {
        AcquireStatus::Success => AcquireStep::Use { suboptimal: false },
        AcquireStatus::Suboptimal => {
            if site == ConfigureSite::Owner {
                AcquireStep::Defer
            } else {
                AcquireStep::Use { suboptimal: true }
            }
        },
        AcquireStatus::Lost | AcquireStatus::Outdated => {
            if site == ConfigureSite::Owner || reconfigured {
                AcquireStep::Defer
            } else {
                AcquireStep::Reconfigure
            }
        },
        AcquireStatus::Timeout | AcquireStatus::Occluded => AcquireStep::Defer,
        AcquireStatus::Validation => AcquireStep::Fail,
    }
}

/// The failure that a step means for the frame: none where it is painted or
/// asked for again.
pub fn acquire_failure(step: AcquireStep) -> (r: Option<PresentFailed>)
    ensures
        match step {
            AcquireStep::Use { .. } | AcquireStep::Reconfigure => r is None,
            AcquireStep::Defer => r == Some(PresentFailed::Deferred),
            AcquireStep::Fail => r matches Some(PresentFailed::Lost(lost)) && (lost.kind matches Kind::Acquire(
                reason,
            ) && reason@ == "validation"@),
        },
{
    match step {
        AcquireStep::Use { .. } | AcquireStep::Reconfigure => None,
        AcquireStep::Defer => Some(PresentFailed::Deferred),
        AcquireStep::Fail => Some(
            PresentFailed::Lost(SurfaceLost { kind: Kind::Acquire("validation") }),
        ),
    }
}

/// Getting a frame ends after two attempts at the latest, and never configures
/// a surface that its window's owner configures.
pub proof fn acquiring_ends(site: ConfigureSite, reconfigured: bool, status: AcquireStatus)
    ensures
        !(acquire_decision(site, true, status) is Reconfigure),
        site == ConfigureSite::Owner ==> !(acquire_decision(site, reconfigured, status)
            is Reconfigure) && acquire_decision(site, reconfigured, status) != (AcquireStep::Use {
            suboptimal: true,
        }),
{
}

/// One step of painting a frame.
#[derive(Clone, Copy, Debug, PartialEq, Eq)]
pub enum DrawStep {
    /// Submit a barrier that takes over the shared image.
    AcquireBarrier(u64),
    /// Clear the frame and draw the texture with this pipeline, on this part of
    /// it where one is given.
    Draw { alpha: AlphaSource, viewport: Option<(u32, u32)> },
    /// Tell the producer that its frame is about to show.
    NotifyPresent,
    Present,
    Configure,
}

pub open spec fn frame_steps(
    alpha: AlphaSource,
    external_image: Option<u64>,
    viewport: Option<(u32, u32)>,
    suboptimal: bool,
) -> Seq<DrawStep> {
    (match external_image {
        Some(image) => seq![DrawStep::AcquireBarrier(image)],
        None => seq![],
    }) + seq![
        DrawStep::Draw {
            alpha,
            viewport: match viewport {
                Some((w, h)) => if w > 0 && h > 0 {
                    viewport
                } else {
                    None
                },
                None => None,
            },
        },
        DrawStep::NotifyPresent,
        DrawStep::Present,
    ] + (if suboptimal {
        seq![DrawStep::Configure]
    } else {
        seq![]
    })
}

/// The steps that bring an acquired frame to the screen.
pub fn draw_and_present(
    alpha: AlphaSource,
    external_image: Option<u64>,
    viewport: Option<(u32, u32)>,
    suboptimal: bool,
) -> (steps: Vec<DrawStep>)
    ensures
        steps@ == frame_steps(alpha, external_image, viewport, suboptimal),
{
    let mut steps: Vec<DrawStep> = Vec::new();
    match external_image {
        Some(image) => steps.push(DrawStep::AcquireBarrier(image)),
        None => {},
    }
    let covered: Option<(u32, u32)> = match viewport {
        Some((w, h)) => {
            if w > 0 && h > 0 {
                Some((w, h))
            } else {
                None
            }
        },
        None => None,
    };
    steps.push(DrawStep::Draw { alpha, viewport: covered });
    steps.push(DrawStep::NotifyPresent);
    steps.push(DrawStep::Present);
    if suboptimal {
        steps.push(DrawStep::Configure);
    }
    assert(steps@ =~= frame_steps(alpha, external_image, viewport, suboptimal));
    steps
}

/// A surface is configured where its size changes or its content was let go of,
/// and not otherwise; it then has the size, and what was uploaded is kept only
/// at an unchanged size.
pub proof fn surfaces_take_their_new_size(s: Surface, cw: u32, ch: u32)
    ensures
        ({
            let after = s.at_size(cw, ch);
            let same = s.config.width == cw && s.config.height == ch;
            &&& after.config.width == cw && after.config.height == ch
            &&& s.configures_at(cw, ch) <==> !same || s.needs_configure
            &&& !after.needs_configure
            &&& s.configures_at(cw, ch) ==> after.configured
            &&& !s.configures_at(cw, ch) ==> after == s
            &&& same ==> after.upload == s.upload && after.pending_size == s.pending_size
            &&& !same ==> after.upload is None
            &&& !same && s.policy is FollowFrame ==> after.pending_size == (cw, ch)
            &&& s.policy is FollowTarget ==> after.pending_size == s.pending_size
            &&& after.config.present == s.config.present && after.config.alpha_mode
                == s.config.alpha_mode
            &&& after.mode == s.mode && after.alpha == s.alpha && after.policy == s.policy
                && after.configure_site == s.configure_site && after.max_texture_dim
                == s.max_texture_dim && after.shared_bound == s.shared_bound
        }),
{
}

/// A frame is painted at its own size where the surface follows it, at the
/// window's where it follows that, and at the size its owner gave it where an
/// owner configures it.
pub proof fn frames_are_painted_at_their_size(s: Surface, fw: u32, fh: u32)
    ensures
        ({
            let (w, h) = s.painted_size(fw, fh);
            let after = s.sized_for(fw, fh);
            &&& s.configure_site is Owner ==> w == s.config.width && h == s.config.height && after
                == s
            &&& s.configure_site is Painter && s.policy is FollowFrame ==> w == fw && h == fh
            &&& s.configure_site is Painter && s.policy is FollowTarget && 1 <= s.pending_size.0
                <= s.max_texture_dim && 1 <= s.pending_size.1 <= s.max_texture_dim ==> (w, h)
                == s.pending_size
            &&& s.configure_site is Painter && s.policy is FollowTarget && s.max_texture_dim >= 1
                ==> 1 <= w <= s.max_texture_dim && 1 <= h <= s.max_texture_dim
            &&& after.config.width == w && after.config.height == h
        }),
{
}

/// A surface that has shown nothing takes either kind of frame.
pub proof fn fresh_surfaces_take_either_kind(s: Surface, mode: PaintMode)
    ensures
        s.mode is None ==> s.accepts(mode),
        s.mode == Some(mode) ==> s.accepts(mode),
        s.mode is Some && s.mode != Some(mode) ==> !s.accepts(mode),
        forall|n: u32| #[trigger] fits(n) <==> 1 <= n <= 0x7FFF_FFFF,
{
}

/// Only the damage is uploaded where the texture holds the frame before: where
/// it was written, and the frame is painted at the size it has.
pub proof fn damage_alone_needs_the_frame_before(s: Surface, frame: Pixels)
    requires
        s.patches(frame),
    ensures
        s.upload matches Some(u) && !u.needs_base,
        s.mode == Some(PaintMode::Copied) || s.mode is None,
        1 <= frame.size.w <= s.max_texture_dim && 1 <= frame.size.h <= s.max_texture_dim,
        s.painted_size(frame.size.w as u32, frame.size.h as u32) == (
            s.config.width,
            s.config.height,
        ),
        frame.stride >= 4 * frame.size.w,
{
}

/// A frame that is there is painted. A surface that no longer fits is configured
/// and asked again, once and by its painter alone; what cannot be helped now is
/// put off, and only a broken surface is lost.
pub proof fn frames_are_acquired_or_put_off(
    site: ConfigureSite,
    reconfigured: bool,
    status: AcquireStatus,
)
    ensures
        ({
            let step = acquire_decision(site, reconfigured, status);
            &&& status is Success ==> step == (AcquireStep::Use { suboptimal: false })
            &&& status is Suboptimal && site is Painter ==> step == (AcquireStep::Use {
                suboptimal: true,
            })
            &&& status is Suboptimal && site is Owner ==> step is Defer
            &&& step is Use ==> status is Success || status is Suboptimal
            &&& step is Reconfigure <==> (status is Lost || status is Outdated) && site is Painter
                && !reconfigured
            &&& step is Fail <==> status is Validation
            &&& status is Timeout || status is Occluded ==> step is Defer
        }),
{
}

/// A frame is drawn before anybody is told, and told of before it is presented;
/// a shared image is taken over first of all, and a surface that fits badly is
/// configured last.
pub proof fn frames_are_drawn_before_they_show(
    alpha: AlphaSource,
    external_image: Option<u64>,
    viewport: Option<(u32, u32)>,
    suboptimal: bool,
)
    ensures
        ({
            let steps = frame_steps(alpha, external_image, viewport, suboptimal);
            let at: int = if external_image is Some {
                1
            } else {
                0
            };
            &&& steps.len() == at + 3 + (if suboptimal {
                1int
            } else {
                0
            })
            &&& external_image matches Some(image) ==> steps[0] == DrawStep::AcquireBarrier(image)
            &&& steps[at] matches DrawStep::Draw { alpha: a, viewport: v } && a == alpha && (v
                == viewport || v is None) && (viewport matches Some((w, h)) ==> (w > 0 && h > 0
                <==> v is Some))
            &&& steps[at + 1] is NotifyPresent
            &&& steps[at + 2] is Present
            &&& suboptimal ==> steps[at + 3] is Configure
        }),
{
}

/// A frame that is copied again at the same size configures nothing and makes no
/// new texture: it is uploaded by its damage.
pub proof fn copied_frames_settle(
    s: &mut Surface,
    frame: Pixels,
    first: PixelPlan,
    t: &mut Surface,
    second: Result<PixelPlan, PresentFailed>,
)
    requires
        old(s).wf(),
        call_ensures(
            Surface::present_pixels,
            (s, &frame),
            Ok::<PixelPlan, PresentFailed>(first),
        ),
        *old(t) == *final(s),
        call_ensures(Surface::present_pixels, (t, &frame), second),
    ensures
        second matches Ok(plan) && !plan.configure && !plan.fresh_texture && plan.width
            == first.width && plan.height == first.height,
        final(s).mode == Some(PaintMode::Copied),
        first.fresh_texture ==> first.writes@.len() == 1,
{
}

/// A surface takes the kind of frame that it was shown first, and refuses the
/// other, whatever comes between.
pub proof fn the_first_frame_settles_the_kind(
    s: &mut Surface,
    first: Result<(), PresentFailed>,
    t: &mut Surface,
    second: Result<(), PresentFailed>,
    u: &mut Surface,
    third: Result<(), PresentFailed>,
)
    requires
        old(s).mode is None,
        call_ensures(Surface::latch, (s, PaintMode::Shared), first),
        *old(t) == *final(s),
        call_ensures(Surface::latch, (t, PaintMode::Copied), second),
        *old(u) == *final(t),
        call_ensures(Surface::latch, (u, PaintMode::Shared), third),
    ensures
        first is Ok,
        second matches Err(e) && e is Kind,
        third is Ok,
{
}

/// Whether a surface was configured is told once.
pub proof fn configurations_are_told_once(
    s: &mut Surface,
    t: &mut Surface,
    first: bool,
    u: &mut Surface,
    second: bool,
)
    requires
        call_ensures(Surface::configured_now, (s,), ()),
        *old(t) == *final(s),
        call_ensures(Surface::take_configured, (t,), first),
        *old(u) == *final(t),
        call_ensures(Surface::take_configured, (u,), second),
    ensures
        first,
        !second,
{
}

/// A shared frame covers its own part of a window that is larger, and no more
/// than the window.
pub proof fn shared_frames_cover_their_part(
    s: &mut Surface,
    coded: FrameSize,
    r: Result<SharedPlan, PresentFailed>,
)
    requires
        old(s).wf(),
        old(s).mode is None,
        call_ensures(Surface::present_shared, (s, coded), r),
    ensures
        r is Ok <==> 1 <= coded.w <= old(s).max_texture_dim && 1 <= coded.h
            <= old(s).max_texture_dim,
        r matches Ok(plan) ==> {
            &&& plan.viewport is None <==> old(s).policy is FollowFrame
            &&& plan.viewport matches Some((w, h)) ==> w <= coded.w && h <= coded.h && w
                <= plan.width && h <= plan.height && (w == coded.w || w == plan.width) && (h
                == coded.h || h == plan.height)
            &&& old(s).policy is FollowFrame && old(s).configure_site is Painter ==> plan.width
                == coded.w && plan.height == coded.h
        },
{
}

/// Once the window has let go of the content, the surface is configured for the
/// next frame even at the size that it has.
pub proof fn detached_content_is_configured_again(s: &mut Surface)
    requires
        call_ensures(Surface::content_detached, (s,), ()),
    ensures
        final(s).configures_at(final(s).config.width, final(s).config.height),
        final(s).config == old(s).config && final(s).mode == old(s).mode && final(s).upload
            == old(s).upload && final(s).pending_size == old(s).pending_size,
        final(s).configured == old(s).configured && final(s).shared_bound == old(s).shared_bound,
{
}

/// The binding of a shared frame serves again where the very texture came back
/// and had been bound; a frame that cannot be imported changes nothing.
pub proof fn bindings_serve_the_same_texture(
    s: &mut Surface,
    t: &mut Surface,
    u: &mut Surface,
    reused: bool,
    first: Result<bool, PresentFailed>,
    second: Result<bool, PresentFailed>,
    failed: Result<bool, PresentFailed>,
)
    requires
        call_ensures(Surface::bind_shared, (s, Some(reused)), first),
        *old(t) == *final(s),
        call_ensures(Surface::bind_shared, (t, Some(reused)), second),
        call_ensures(Surface::bind_shared, (u, None), failed),
    ensures
        second == Ok::<bool, PresentFailed>(reused),
        !old(s).shared_bound ==> first == Ok::<bool, PresentFailed>(false),
        !reused ==> first == Ok::<bool, PresentFailed>(false),
        failed is Err && failed->Err_0 is Import && *final(u) == *old(u),
        final(t).config == old(s).config,
{
}

/// A frame fails only where it is put off or lost: one that is painted, or asked
/// for again, has not failed.
pub proof fn only_lost_and_deferred_frames_fail(step: AcquireStep, r: Option<PresentFailed>)
    requires
        call_ensures(acquire_failure, (step,), r),
    ensures
        r is Some <==> step is Defer || step is Fail,
        r matches Some(failed) ==> (failed is Deferred <==> step is Defer),
        r matches Some(failed) ==> (failed is Lost <==> step is Fail),
        r matches Some(PresentFailed::Lost(lost)) ==> (lost.kind matches Kind::Acquire(reason)
            && reason@ == "validation"@),
{
}

} // verus!
