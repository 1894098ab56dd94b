//! The fixed state of the overlay's render pipeline and of the one render
//! pass it records per frame. The pipeline draws a full-screen quad whose
//! four corners the vertex stage derives from the vertex index, so there is
//! no vertex buffer; the only outside input is the uniform block, read by the
//! fragment stage.

use crate::uniforms::UNIFORM_BLOCK_SIZE;
use vstd::prelude::*;
use wgpu::TextureFormat;

verus! {

/// The shader's entry point for the vertex stage, which derives a
/// screen-space position from each generated vertex index.
pub const VERTEX_ENTRY_POINT: &'static str = "vs_main";

/// The shader's entry point for the fragment stage, which yields a colour
/// for each pixel.
pub const FRAGMENT_ENTRY_POINT: &'static str = "fs_main";

/// How vertices are assembled into primitives.
#[derive(Clone, Copy, Debug, PartialEq, Eq, Structural)]
pub enum Topology {
    PointList,
    LineList,
    LineStrip,
    TriangleList,
    TriangleStrip,
}

/// The winding order of a front-facing triangle.
#[derive(Clone, Copy, Debug, PartialEq, Eq, Structural)]
pub enum FrontFace {
    CounterClockwise,
    Clockwise,
}

/// A side of a triangle, for culling.
#[derive(Clone, Copy, Debug, PartialEq, Eq, Structural)]
pub enum Face {
    Front,
    Back,
}

/// How a fragment's colour combines with the colour target.
#[derive(Clone, Copy, Debug, PartialEq, Eq, Structural)]
pub enum BlendMode {
    Replace,
    /// Source over destination, weighted by the source's alpha.
    AlphaBlending,
    PremultipliedAlphaBlending,
}

/// A programmable stage of the pipeline.
#[derive(Clone, Copy, Debug, PartialEq, Eq, Structural)]
pub enum ShaderStage {
    Vertex,
    Fragment,
}

/// The binding that exposes the uniform buffer to the shader.
#[derive(Clone, Copy, Debug, PartialEq, Eq, Structural)]
pub struct UniformBinding {
    /// The bind group's slot in the pipeline layout.
    pub group: u32,
    /// The buffer's binding index within the group.
    pub binding: u32,
    /// The one stage that reads the buffer.
    pub visibility: ShaderStage,
    /// The buffer's size in bytes.
    pub size: usize,
    pub has_dynamic_offset: bool,
    /// Whether the buffer takes queued copies, as the per-frame update needs.
    pub copy_destination: bool,
}

/// The pipeline's fixed-function state.
#[derive(Clone, Copy, Debug, PartialEq, Eq)]
pub struct Pipeline {
    /// The format of the single colour target.
    pub target_format: TextureFormat,
    pub blend: BlendMode,
    pub topology: Topology,
    pub front_face: FrontFace,
    /// The side that is culled, if any.
    pub cull_mode: Option<Face>,
    /// Samples per pixel; 1 is no multisampling.
    pub sample_count: u32,
    pub depth_stencil: bool,
    /// The number of vertex buffers bound.
    pub vertex_buffers: u32,
    pub uniforms: UniformBinding,
}

/// A draw of the vertices from `vertex_start` up to, not including,
/// `vertex_end`, for the instances from `instance_start` up to, not
/// including, `instance_end`.
#[derive(Clone, Copy, Debug, PartialEq, Eq, Structural)]
pub struct DrawCall {
    pub vertex_start: u32,
    pub vertex_end: u32,
    pub instance_start: u32,
    pub instance_end: u32,
}

/// A colour to clear the target to. Each channel is the bit pattern of a
/// 64-bit float.
#[derive(Clone, Copy, Debug, PartialEq, Eq, Structural)]
pub struct ClearColor {
    pub red: u64,
    pub green: u64,
    pub blue: u64,
    pub alpha: u64,
}

/// The one render pass of a frame: clear the target, bind the pipeline and
/// the uniform bind group, draw once.
#[derive(Clone, Copy, Debug, PartialEq, Eq, Structural)]
pub struct RenderPass {
    pub clear: ClearColor,
    /// The slot at which the uniform bind group is bound.
    pub bind_group: u32,
    pub draw: DrawCall,
}

impl UniformBinding {
    /// The overlay's binding: group 0, binding 0, read by the fragment stage
    /// only, sized to the uniform block, and open to queued copies.
    pub open spec fn overlay_spec() -> UniformBinding {
        UniformBinding {
            group: 0,
            binding: 0,
            visibility: ShaderStage::Fragment,
            size: UNIFORM_BLOCK_SIZE,
            has_dynamic_offset: false,
            copy_destination: true,
        }
    }
}

impl Pipeline {
    /// The overlay's pipeline for a colour target of the given format: a
    /// triangle strip without vertex buffers, alpha blending, one sample per
    /// pixel, no depth or stencil test, counter-clockwise front faces and no
    /// culling.
    pub open spec fn overlay_spec(format: TextureFormat) -> Pipeline {
        Pipeline {
            target_format: format,
            blend: BlendMode::AlphaBlending,
            topology: Topology::TriangleStrip,
            front_face: FrontFace::CounterClockwise,
            cull_mode: None,
            sample_count: 1,
            depth_stencil: false,
            vertex_buffers: 0,
            uniforms: UniformBinding::overlay_spec(),
        }
    }

    /// The overlay's pipeline for a colour target of the given format.
    pub fn overlay(format: TextureFormat) -> (pipeline: Pipeline)
        ensures
            pipeline == Pipeline::overlay_spec(format),
    {
        Pipeline {
            target_format: format,
            blend: BlendMode::AlphaBlending,
            topology: Topology::TriangleStrip,
            front_face: FrontFace::CounterClockwise,
            cull_mode: None,
            sample_count: 1,
            depth_stencil: false,
            vertex_buffers: 0,
            uniforms: UniformBinding {
                group: 0,
                binding: 0,
                visibility: ShaderStage::Fragment,
                size: UNIFORM_BLOCK_SIZE,
                has_dynamic_offset: false,
                copy_destination: true,
            },
        }
    }
}

impl DrawCall {
    /// The four generated vertices of the full-screen quad, one instance.
    pub open spec fn quad() -> DrawCall {
        DrawCall { vertex_start: 0, vertex_end: 4, instance_start: 0, instance_end: 1 }
    }
}

impl ClearColor {
    /// Fully transparent: every channel is `0.0`.
    pub open spec fn transparent() -> ClearColor {
        ClearColor { red: 0, green: 0, blue: 0, alpha: 0 }
    }
}

impl RenderPass {
    /// The overlay's pass: clear to fully transparent, bind the uniform group
    /// at the pipeline's slot, draw the quad.
    pub open spec fn overlay_spec(pipeline: Pipeline) -> RenderPass {
        RenderPass {
            clear: ClearColor::transparent(),
            bind_group: pipeline.uniforms.group,
            draw: DrawCall::quad(),
        }
    }

    /// The overlay's pass for a pipeline.
    pub fn overlay(pipeline: &Pipeline) -> (pass: RenderPass)
        ensures
            pass == RenderPass::overlay_spec(*pipeline),
    {
        RenderPass {
            clear: ClearColor { red: 0, green: 0, blue: 0, alpha: 0 },
            bind_group: pipeline.uniforms.group,
            draw: DrawCall { vertex_start: 0, vertex_end: 4, instance_start: 0, instance_end: 1 },
        }
    }
}

} // verus!
