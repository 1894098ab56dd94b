//! The configuration of the presentation surface.

use vstd::prelude::*;
use wgpu::TextureFormat;

verus! {

/// When a rendered image becomes visible relative to the display's refresh.
#[derive(Clone, Copy, Debug, PartialEq, Eq, Structural)]
pub enum PresentMode {
    AutoVsync,
    AutoNoVsync,
    /// Present on vertical sync only: caps the frame rate, no tearing.
    Fifo,
    FifoRelaxed,
    Immediate,
    Mailbox,
}

/// How the surface's alpha channel combines with what lies behind the window.
#[derive(Clone, Copy, Debug, PartialEq, Eq, Structural)]
pub enum AlphaMode {
    Auto,
    Opaque,
    PreMultiplied,
    /// The compositor multiplies the colour by alpha.
    PostMultiplied,
    Inherit,
}

/// What the surface's textures are used for.
#[derive(Clone, Copy, Debug, PartialEq, Eq, Structural)]
pub enum SurfaceUsage {
    /// The colour target of a render pass.
    RenderTarget,
    CopySource,
    CopyDestination,
    TextureBinding,
    StorageBinding,
}

/// How the surface is set up: what its textures are used for, its size in
/// physical pixels, the texture format, and the presentation and compositing
/// modes.
#[derive(Clone, Copy, Debug, PartialEq, Eq)]
pub struct SurfaceConfig {
    pub usage: SurfaceUsage,
    pub width: u32,
    pub height: u32,
    pub format: TextureFormat,
    pub present_mode: PresentMode,
    pub alpha_mode: AlphaMode,
}

/// A dimension raised to one pixel where it is zero.
pub open spec fn at_least_one(dimension: u32) -> u32 {
    if dimension == 0 {
        1
    } else {
        dimension
    }
}

impl SurfaceConfig {
    /// The configuration keeps its invariant: no dimension is zero.
    pub open spec fn wf(self) -> bool {
        self.width >= 1 && self.height >= 1
    }

    /// The overlay's configuration for a window of the given size: a render
    /// target, vsynced, with post-multiplied alpha, each dimension at least
    /// one pixel.
    pub open spec fn overlay_spec(format: TextureFormat, width: u32, height: u32) -> SurfaceConfig {
        SurfaceConfig {
            usage: SurfaceUsage::RenderTarget,
            width: at_least_one(width),
            height: at_least_one(height),
            format,
            present_mode: PresentMode::Fifo,
            alpha_mode: AlphaMode::PostMultiplied,
        }
    }

    /// The same configuration at another size.
    pub open spec fn with_size(self, width: u32, height: u32) -> SurfaceConfig {
        SurfaceConfig {
            usage: self.usage,
            width,
            height,
            format: self.format,
            present_mode: self.present_mode,
            alpha_mode: self.alpha_mode,
        }
    }

    /// The overlay's configuration for a window of the given size.
    pub fn overlay(format: TextureFormat, width: u32, height: u32) -> (config: SurfaceConfig)
        ensures
            config == SurfaceConfig::overlay_spec(format, width, height),
            config.wf(),
    {
        SurfaceConfig {
            usage: SurfaceUsage::RenderTarget,
            width: if width == 0 {
                1
            } else {
                width
            },
            height: if height == 0 {
                1
            } else {
                height
            },
            format,
            present_mode: PresentMode::Fifo,
            alpha_mode: AlphaMode::PostMultiplied,
        }
    }
}

} // verus!
