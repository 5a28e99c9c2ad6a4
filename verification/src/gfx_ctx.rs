//! Surface and presentation state of the device context.
//!
//! The device context owns the one GPU connection and its presentation
//! surface. What this layer decides about it — and therefore what is
//! modeled and verified here — is the surface configuration (dimensions
//! and presentation mode) and the offscreen multisample target that must
//! track it exactly: an offscreen target whose size or sample count
//! disagrees with the surface is a fatal attachment mismatch at render
//! time, not a recoverable condition. The unverified shell owns the actual
//! device, queue and surface handles and reconfigures them exactly when
//! these rules say so.

use vstd::prelude::*;

verus! {

/// How finished frames are handed to the display.
#[derive(Clone, Copy, PartialEq, Eq, Structural, Debug)]
pub enum PresentMode {
    /// Present as soon as possible, accepting tearing; latency-favoring,
    /// the mode a continuously-rendering simulation starts in.
    Immediate,
    /// Present on vertical sync.
    Fifo,
}

/// The surface configuration last applied to the presentation surface.
#[derive(Clone, Copy, PartialEq, Eq, Structural, Debug)]
pub struct SurfaceConfig {
    pub width: u32,
    pub height: u32,
    pub present_mode: PresentMode,
}

/// The offscreen multisample color target, present only when multisampling
/// is on.
#[derive(Clone, Copy, PartialEq, Eq, Structural, Debug)]
pub struct MsaaFramebuffer {
    pub width: u32,
    pub height: u32,
    pub sample_count: u32,
}

/// Verified view of the device context: the surface configuration and the
/// offscreen multisample target that must match it.
#[derive(Clone, Copy, PartialEq, Eq, Structural, Debug)]
pub struct GraphicsContext {
    pub config: SurfaceConfig,
    pub sample_count: u32,
    pub msaa_framebuffer: Option<MsaaFramebuffer>,
}

impl GraphicsContext {
    /// The cross-frame invariant of the presentation state: the surface has
    /// positive area, and the offscreen target exists exactly when
    /// multisampling is on, sized and sampled to match the surface.
    pub open spec fn wf(self) -> bool {
        &&& self.config.width >= 1
        &&& self.config.height >= 1
        &&& self.sample_count >= 1
        &&& match self.msaa_framebuffer {
            Some(fb) => self.sample_count > 1 && fb.width == self.config.width && fb.height
                == self.config.height && fb.sample_count == self.sample_count,
            None => self.sample_count == 1,
        }
    }

    /// Initial presentation state: the surface configured to the window's
    /// size with the immediate (latency-favoring) presentation mode, and
    /// the offscreen multisample target created when `sample_count > 1`.
    pub fn new(width: u32, height: u32, sample_count: u32) -> (gc: GraphicsContext)
        requires
            width >= 1,
            height >= 1,
            sample_count >= 1,
        ensures
            gc.wf(),
            gc.config == (SurfaceConfig { width, height, present_mode: PresentMode::Immediate }),
            gc.sample_count == sample_count,
            sample_count > 1 ==> gc.msaa_framebuffer == Some(
                MsaaFramebuffer { width, height, sample_count },
            ),
            sample_count == 1 ==> gc.msaa_framebuffer is None,
    {
        let config = SurfaceConfig { width, height, present_mode: PresentMode::Immediate };
        let msaa_framebuffer = if sample_count > 1 {
            Some(Self::create_msaa_framebuffer(&config, sample_count))
        } else {
            None
        };
        GraphicsContext { config, sample_count, msaa_framebuffer }
    }

    /// Dimensions and sample count of a fresh offscreen multisample target
    /// for the given surface configuration.
    pub fn create_msaa_framebuffer(config: &SurfaceConfig, sample_count: u32) -> (fb:
        MsaaFramebuffer)
        ensures
            fb == (MsaaFramebuffer { width: config.width, height: config.height, sample_count }),
    {
        MsaaFramebuffer { width: config.width, height: config.height, sample_count }
    }

    /// Applies a window resize. A zero-area size (a minimized window) is a
    /// degenerate resize: the whole presentation state, offscreen target
    /// included, stays exactly as it was, and no surface reconfiguration is
    /// attempted. A positive size retargets the surface configuration and
    /// recreates the offscreen target to match it; the returned flag tells
    /// the shell to reconfigure the actual surface.
    pub fn resize(&mut self, new_width: u32, new_height: u32) -> (reconfigured: bool)
        requires
            old(self).wf(),
        ensures
            final(self).wf(),
            reconfigured == (new_width > 0 && new_height > 0),
            !reconfigured ==> *final(self) == *old(self),
            reconfigured ==> final(self).config == (SurfaceConfig {
                width: new_width,
                height: new_height,
                present_mode: old(self).config.present_mode,
            }),
            final(self).sample_count == old(self).sample_count,
            reconfigured && old(self).sample_count > 1 ==> final(self).msaa_framebuffer == Some(
                MsaaFramebuffer {
                    width: new_width,
                    height: new_height,
                    sample_count: old(self).sample_count,
                },
            ),
            reconfigured && old(self).sample_count == 1 ==> final(self).msaa_framebuffer is None,
    {
        if new_width > 0 && new_height > 0 {
            self.config.width = new_width;
            self.config.height = new_height;
            if self.sample_count > 1 {
                self.msaa_framebuffer = Some(
                    Self::create_msaa_framebuffer(&self.config, self.sample_count),
                );
            }
            true
        } else {
            false
        }
    }
}

} // verus!
