//! The graphics context: what the overlay knows of the surface, the pipeline
//! and the uniform buffer. It decides every value that reaches the GPU; the
//! device, queue and surface handles stay with whoever drives it.

use crate::format::{is_selected, select_surface_format};
use crate::pipeline::{Pipeline, RenderPass};
use crate::surface::SurfaceConfig;
use crate::uniforms::FrameUniforms;
use vstd::prelude::*;
use wgpu::TextureFormat;

verus! {

/// Why a context cannot be set up.
#[derive(Clone, Copy, Debug, PartialEq, Eq, Structural)]
pub enum InitError {
    /// The surface offers no texture format at all.
    NoSurfaceFormat,
}

/// Which kind of adapter to prefer.
#[derive(Clone, Copy, Debug, PartialEq, Eq, Structural)]
pub enum PowerPreference {
    Unspecified,
    /// The adapter that draws the least power, often an integrated GPU.
    LowPower,
    HighPerformance,
}

/// What is asked of the adapter that the device comes from.
#[derive(Clone, Copy, Debug, PartialEq, Eq, Structural)]
pub struct AdapterRequest {
    pub power_preference: PowerPreference,
    /// Whether the adapter must be able to present to the window's surface.
    pub compatible_with_surface: bool,
    /// Whether only a software fallback will do.
    pub force_fallback_adapter: bool,
}

impl AdapterRequest {
    /// The overlay's request: a low-power adapter that can present to the
    /// window's surface, and no forced fallback.
    pub open spec fn overlay_spec() -> AdapterRequest {
        AdapterRequest {
            power_preference: PowerPreference::LowPower,
            compatible_with_surface: true,
            force_fallback_adapter: false,
        }
    }

    /// The overlay's request.
    pub fn overlay() -> (request: AdapterRequest)
        ensures
            request == AdapterRequest::overlay_spec(),
    {
        AdapterRequest {
            power_preference: PowerPreference::LowPower,
            compatible_with_surface: true,
            force_fallback_adapter: false,
        }
    }
}

/// What a graphics context holds, as a plain value.
pub struct GraphicsContextView {
    /// The surface's current configuration.
    pub config: SurfaceConfig,
    /// The record that the uniform buffer holds.
    pub uniforms: FrameUniforms,
    /// The render pipeline, fixed once the context exists.
    pub pipeline: Pipeline,
}

impl GraphicsContextView {
    /// A context is well formed where the surface has no zero dimension, the
    /// uniforms are valid, and the pipeline is the overlay's for the
    /// surface's format.
    pub open spec fn wf(self) -> bool {
        &&& self.config.wf()
        &&& self.uniforms.wf()
        &&& self.pipeline == Pipeline::overlay_spec(self.config.format)
    }

    /// The context right after set-up for a window of the given size.
    pub open spec fn initial(format: TextureFormat, width: u32, height: u32) -> GraphicsContextView {
        GraphicsContextView {
            config: SurfaceConfig::overlay_spec(format, width, height),
            uniforms: FrameUniforms::initial_spec(),
            pipeline: Pipeline::overlay_spec(format),
        }
    }

    /// Whether a reported size is one to configure the surface with.
    pub open spec fn accepts_size(width: u32, height: u32) -> bool {
        width > 0 && height > 0
    }

    /// The context after the host reports a size: the new size where both
    /// dimensions are positive, the context unchanged otherwise.
    pub open spec fn resize(self, width: u32, height: u32) -> GraphicsContextView {
        if Self::accepts_size(width, height) {
            GraphicsContextView {
                config: self.config.with_size(width, height),
                uniforms: self.uniforms,
                pipeline: self.pipeline,
            }
        } else {
            self
        }
    }

    /// The context after the uniforms are brought to a new time.
    pub open spec fn update(self, time: u32) -> GraphicsContextView {
        GraphicsContextView {
            config: self.config,
            uniforms: self.uniforms.at_time(time),
            pipeline: self.pipeline,
        }
    }
}

/// The overlay's graphics context. There is one per running overlay.
#[derive(Debug)]
pub struct GraphicsContext {
    config: SurfaceConfig,
    uniforms: FrameUniforms,
    pipeline: Pipeline,
}

impl View for GraphicsContext {
    type V = GraphicsContextView;

    closed spec fn view(&self) -> GraphicsContextView {
        GraphicsContextView { config: self.config, uniforms: self.uniforms, pipeline: self.pipeline }
    }
}

impl GraphicsContext {
    /// Every context that exists is well formed.
    #[verifier::type_invariant]
    pub open spec fn well_formed(self) -> bool {
        self@.wf()
    }

    /// Sets the context up for a window of `width` by `height` physical
    /// pixels whose surface offers `formats`: presents in the first sRGB
    /// format offered, else in the first format offered, with each dimension
    /// raised to at least one pixel. Fails exactly where no format is
    /// offered.
    pub fn initialize(formats: &Vec<TextureFormat>, width: u32, height: u32) -> (made: Result<
        GraphicsContext,
        InitError,
    >)
        ensures
            formats@.len() == 0 <==> made == Err::<GraphicsContext, InitError>(
                InitError::NoSurfaceFormat,
            ),
            formats@.len() > 0 <==> made.is_ok(),
            made matches Ok(context) ==> context@.wf() && is_selected(
                formats@,
                context@.config.format,
            ) && context@ == GraphicsContextView::initial(context@.config.format, width, height),
    {
        match select_surface_format(formats) {
            Some(format) => {
                let context = GraphicsContext {
                    config: SurfaceConfig::overlay(format, width, height),
                    uniforms: FrameUniforms::initial(),
                    pipeline: Pipeline::overlay(format),
                };
                Ok(context)
            },
            None => Err(InitError::NoSurfaceFormat),
        }
    }

    /// Takes a size that the host reports. Where both dimensions are
    /// positive the configuration takes the size and is returned: the
    /// surface is to be configured with it. Otherwise nothing changes and
    /// there is nothing to configure.
    pub fn resize(&mut self, width: u32, height: u32) -> (configure: Option<SurfaceConfig>)
        ensures
            final(self)@ == old(self)@.resize(width, height),
            final(self)@.wf(),
            GraphicsContextView::accepts_size(width, height) ==> configure == Some(
                final(self)@.config,
            ),
            !GraphicsContextView::accepts_size(width, height) ==> configure.is_none(),
        no_unwind
    {
        proof {
            use_type_invariant(&*self);
        }
        if width > 0 && height > 0 {
            self.config = SurfaceConfig {
                usage: self.config.usage,
                width,
                height,
                format: self.config.format,
                present_mode: self.config.present_mode,
                alpha_mode: self.config.alpha_mode,
            };
            Some(self.config)
        } else {
            None
        }
    }

    /// Brings the uniforms to `time`, the bit pattern of the milliseconds
    /// since start; opacity and seed stay. Returns the record to write to the
    /// uniform buffer.
    pub fn update(&mut self, time: u32) -> (written: FrameUniforms)
        ensures
            final(self)@ == old(self)@.update(time),
            final(self)@.wf(),
            written == final(self)@.uniforms,
        no_unwind
    {
        proof {
            use_type_invariant(&*self);
        }
        self.uniforms = self.uniforms.with_time(time);
        self.uniforms
    }

    /// The surface's current configuration.
    pub fn surface_config(&self) -> (config: SurfaceConfig)
        ensures
            config == self@.config,
            config.wf(),
    {
        proof {
            use_type_invariant(self);
        }
        self.config
    }

    /// The record that the uniform buffer holds.
    pub fn uniforms(&self) -> (uniforms: FrameUniforms)
        ensures
            uniforms == self@.uniforms,
            uniforms.wf(),
    {
        proof {
            use_type_invariant(self);
        }
        self.uniforms
    }

    /// The render pipeline.
    pub fn pipeline(&self) -> (pipeline: Pipeline)
        ensures
            pipeline == self@.pipeline,
            pipeline == Pipeline::overlay_spec(self@.config.format),
    {
        proof {
            use_type_invariant(self);
        }
        self.pipeline
    }

    /// The render pass to record for a frame.
    pub fn render_pass(&self) -> (pass: RenderPass)
        ensures
            pass == RenderPass::overlay_spec(self@.pipeline),
    {
        RenderPass::overlay(&self.pipeline)
    }
}

} // verus!
