use vaporwave_overlay::context::{AdapterRequest, GraphicsContext, InitError, PowerPreference};
use vaporwave_overlay::pipeline::{
    BlendMode, ClearColor, DrawCall, FrontFace, Pipeline, RenderPass, ShaderStage, Topology,
    FRAGMENT_ENTRY_POINT, VERTEX_ENTRY_POINT,
};
use vaporwave_overlay::surface::{AlphaMode, PresentMode, SurfaceConfig, SurfaceUsage};
use vaporwave_overlay::uniforms::FrameUniforms;
use wgpu::TextureFormat;

fn offered() -> Vec<TextureFormat> {
    vec![TextureFormat::Bgra8Unorm, TextureFormat::Bgra8UnormSrgb]
}

fn context_of(width: u32, height: u32) -> GraphicsContext {
    GraphicsContext::initialize(&offered(), width, height).unwrap()
}

#[test]
fn the_adapter_asked_for_is_low_power_and_fit_for_the_surface() {
    assert_eq!(
        AdapterRequest::overlay(),
        AdapterRequest {
            power_preference: PowerPreference::LowPower,
            compatible_with_surface: true,
            force_fallback_adapter: false,
        }
    );
}

#[test]
fn overlay_configuration_is_vsynced_and_post_multiplied() {
    let config = SurfaceConfig::overlay(TextureFormat::Bgra8UnormSrgb, 1920, 1080);
    assert_eq!(
        config,
        SurfaceConfig {
            usage: SurfaceUsage::RenderTarget,
            width: 1920,
            height: 1080,
            format: TextureFormat::Bgra8UnormSrgb,
            present_mode: PresentMode::Fifo,
            alpha_mode: AlphaMode::PostMultiplied,
        }
    );
}

#[test]
fn overlay_configuration_raises_zero_dimensions_to_one() {
    let format = TextureFormat::Bgra8Unorm;
    let both = SurfaceConfig::overlay(format, 0, 0);
    assert_eq!((both.width, both.height), (1, 1));
    let flat = SurfaceConfig::overlay(format, 800, 0);
    assert_eq!((flat.width, flat.height), (800, 1));
    let thin = SurfaceConfig::overlay(format, 0, 600);
    assert_eq!((thin.width, thin.height), (1, 600));
    let huge = SurfaceConfig::overlay(format, u32::MAX, u32::MAX);
    assert_eq!((huge.width, huge.height), (u32::MAX, u32::MAX));
}

#[test]
fn initialize_sets_up_surface_uniforms_and_pipeline() {
    let context = context_of(2560, 1440);
    assert_eq!(
        context.surface_config(),
        SurfaceConfig {
            usage: SurfaceUsage::RenderTarget,
            width: 2560,
            height: 1440,
            format: TextureFormat::Bgra8UnormSrgb,
            present_mode: PresentMode::Fifo,
            alpha_mode: AlphaMode::PostMultiplied,
        }
    );
    assert_eq!(context.uniforms(), FrameUniforms::initial());
    assert_eq!(context.pipeline(), Pipeline::overlay(TextureFormat::Bgra8UnormSrgb));
}

#[test]
fn initialize_falls_back_to_the_first_format() {
    let formats = vec![TextureFormat::Rgba16Float, TextureFormat::Bgra8Unorm];
    let context = GraphicsContext::initialize(&formats, 640, 480).unwrap();
    assert_eq!(context.surface_config().format, TextureFormat::Rgba16Float);
    assert_eq!(context.pipeline().target_format, TextureFormat::Rgba16Float);
}

#[test]
fn initialize_clamps_a_zero_sized_window() {
    let context = context_of(0, 0);
    assert_eq!(context.surface_config().width, 1);
    assert_eq!(context.surface_config().height, 1);
}

#[test]
fn initialize_fails_without_a_surface_format() {
    let made = GraphicsContext::initialize(&vec![], 800, 600);
    assert_eq!(made.err(), Some(InitError::NoSurfaceFormat));
}

#[test]
fn resize_takes_exactly_the_reported_size() {
    let mut context = context_of(800, 600);
    let configure = context.resize(1024, 768).unwrap();
    assert_eq!((configure.width, configure.height), (1024, 768));
    assert_eq!(context.surface_config(), configure);
    assert_eq!(context.surface_config().width, 1024);
    assert_eq!(context.surface_config().height, 768);
    let configure = context.resize(1, 1).unwrap();
    assert_eq!((configure.width, configure.height), (1, 1));
    assert_eq!(context.surface_config().width, 1);
    assert_eq!(context.surface_config().height, 1);
    let configure = context.resize(u32::MAX, 7).unwrap();
    assert_eq!((configure.width, configure.height), (u32::MAX, 7));
    assert_eq!(context.surface_config().width, u32::MAX);
    assert_eq!(context.surface_config().height, 7);
}

#[test]
fn resize_keeps_format_modes_uniforms_and_pipeline() {
    let mut context = context_of(800, 600);
    let before = context_of(800, 600);
    assert!(context.resize(300, 200).is_some());
    let config = context.surface_config();
    assert_eq!(config.usage, SurfaceUsage::RenderTarget);
    assert_eq!(config.format, before.surface_config().format);
    assert_eq!(config.present_mode, PresentMode::Fifo);
    assert_eq!(config.alpha_mode, AlphaMode::PostMultiplied);
    assert_eq!(context.uniforms(), before.uniforms());
    assert_eq!(context.pipeline(), before.pipeline());
}

#[test]
fn resize_with_a_zero_dimension_changes_nothing() {
    let mut context = context_of(800, 600);
    let before = context.surface_config();
    assert_eq!(context.resize(0, 600), None);
    assert_eq!(context.surface_config(), before);
    assert_eq!(context.resize(800, 0), None);
    assert_eq!(context.surface_config(), before);
    assert_eq!(context.resize(0, 0), None);
    assert_eq!(context.surface_config(), before);
    assert_eq!(context.resize(0, 4000), None);
    assert_eq!(context.surface_config(), before);
}

#[test]
fn resize_through_a_sequence_ends_at_the_last_size() {
    let mut context = context_of(800, 600);
    let sizes = [(801, 600), (900, 650), (0, 650), (1280, 720), (1280, 0), (1279, 719)];
    for (width, height) in sizes {
        context.resize(width, height);
    }
    assert_eq!(context.surface_config().width, 1279);
    assert_eq!(context.surface_config().height, 719);
}

#[test]
fn resize_repeated_is_as_resize_once() {
    let mut once = context_of(800, 600);
    once.resize(1000, 500);
    let mut twice = context_of(800, 600);
    twice.resize(1000, 500);
    twice.resize(1000, 500);
    assert_eq!(once.surface_config(), twice.surface_config());
    assert_eq!(once.uniforms(), twice.uniforms());
}

#[test]
fn update_writes_the_new_time_and_keeps_opacity_and_seed() {
    let mut context = context_of(800, 600);
    let written = context.update(1000.0f32.to_bits());
    assert_eq!(f32::from_bits(written.time), 1000.0);
    assert_eq!(f32::from_bits(written.opacity), 1.0);
    assert_eq!(f32::from_bits(written.seed), 42.0);
    assert_eq!(context.uniforms(), written);
}

#[test]
fn update_twice_keeps_the_second_time_only() {
    let mut context = context_of(800, 600);
    context.update(250.0f32.to_bits());
    let written = context.update(100.0f32.to_bits());
    assert_eq!(f32::from_bits(written.time), 100.0);
    assert_eq!(f32::from_bits(context.uniforms().time), 100.0);

    let mut direct = context_of(800, 600);
    direct.update(100.0f32.to_bits());
    assert_eq!(context.uniforms(), direct.uniforms());
    assert_eq!(context.uniforms().to_bytes(), direct.uniforms().to_bytes());
}

#[test]
fn update_leaves_the_surface_alone() {
    let mut context = context_of(800, 600);
    let before = context.surface_config();
    context.update(5.0f32.to_bits());
    assert_eq!(context.surface_config(), before);
}

#[test]
fn pipeline_is_a_blended_triangle_strip_without_vertex_input() {
    let pipeline = context_of(800, 600).pipeline();
    assert_eq!(pipeline.target_format, TextureFormat::Bgra8UnormSrgb);
    assert_eq!(pipeline.blend, BlendMode::AlphaBlending);
    assert_eq!(pipeline.topology, Topology::TriangleStrip);
    assert_eq!(pipeline.front_face, FrontFace::CounterClockwise);
    assert_eq!(pipeline.cull_mode, None);
    assert_eq!(pipeline.sample_count, 1);
    assert!(!pipeline.depth_stencil);
    assert_eq!(pipeline.vertex_buffers, 0);
}

#[test]
fn entry_points_are_named_as_the_shader_names_them() {
    assert_eq!(VERTEX_ENTRY_POINT, "vs_main");
    assert_eq!(FRAGMENT_ENTRY_POINT, "fs_main");
}

#[test]
fn uniform_binding_is_for_the_fragment_stage_and_sized_to_the_block() {
    let binding = context_of(800, 600).pipeline().uniforms;
    assert_eq!(binding.group, 0);
    assert_eq!(binding.binding, 0);
    assert_eq!(binding.visibility, ShaderStage::Fragment);
    assert_eq!(binding.size, 16);
    assert_eq!(binding.size, FrameUniforms::initial().to_bytes().len());
    assert!(!binding.has_dynamic_offset);
    assert!(binding.copy_destination);
}

#[test]
fn render_pass_clears_to_transparent_and_draws_the_quad_once() {
    let context = context_of(800, 600);
    let pass = context.render_pass();
    assert_eq!(
        pass,
        RenderPass {
            clear: ClearColor { red: 0, green: 0, blue: 0, alpha: 0 },
            bind_group: 0,
            draw: DrawCall { vertex_start: 0, vertex_end: 4, instance_start: 0, instance_end: 1 },
        }
    );
    assert_eq!(f64::from_bits(pass.clear.red), 0.0);
    assert_eq!(f64::from_bits(pass.clear.green), 0.0);
    assert_eq!(f64::from_bits(pass.clear.blue), 0.0);
    assert_eq!(f64::from_bits(pass.clear.alpha), 0.0);
    assert_eq!(pass, RenderPass::overlay(&context.pipeline()));
}
