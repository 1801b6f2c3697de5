use purple::color::Color;
use purple::context::{
    Antialiasing, Context, ConversionPass, FrameAction, FrameEvent, FramePhase, RenderParams, Size,
    SkipReason,
};
use purple::gpu::{
    make_bind_group, make_target, AddressMode, AlphaMode, BindGroup, BindGroupLayout,
    BindGroupLayoutEntry, BindingKind, ConversionPipeline, FilterMode, Gpu, PresentMode,
    SamplerDescriptor, TextureFormat, TextureUsage,
};
use purple::prim::Dimensions;

fn black() -> Color {
    Color { r: 0, g: 0, b: 0, a: 255 }
}

fn matches_config(gpu: &Gpu) -> bool {
    gpu.config.width >= 1
        && gpu.config.height >= 1
        && gpu.target.texture.width == gpu.config.width
        && gpu.target.texture.height == gpu.config.height
        && gpu.target.texture.format == TextureFormat::Rgba8Unorm
        && gpu.bind_group.target_generation == gpu.target.generation
        && gpu.bind_group.target_width == gpu.config.width
        && gpu.bind_group.target_height == gpu.config.height
}

#[test]
fn new_gpu_is_configured_for_the_window() {
    let gpu = Gpu::new(800, 600);
    assert_eq!(gpu.config.width, 800);
    assert_eq!(gpu.config.height, 600);
    assert_eq!(gpu.config.format, TextureFormat::Bgra8Unorm);
    assert_eq!(gpu.config.present_mode, PresentMode::Fifo);
    assert_eq!(gpu.config.desired_maximum_frame_latency, 2);
    assert_eq!(gpu.config.alpha_mode, AlphaMode::Opaque);
    assert_eq!(
        gpu.config.usage,
        TextureUsage {
            copy_src: false,
            copy_dst: false,
            texture_binding: false,
            storage_binding: false,
            render_attachment: true,
        }
    );
    assert_eq!(gpu.target.texture.format, TextureFormat::Rgba8Unorm);
    assert_eq!(gpu.target.view_format, TextureFormat::Rgba8Unorm);
    assert_eq!(
        gpu.target.texture.usage,
        TextureUsage {
            copy_src: false,
            copy_dst: false,
            texture_binding: true,
            storage_binding: true,
            render_attachment: true,
        }
    );
    assert_eq!(gpu.target.generation, 0);
    assert!(matches_config(&gpu));
}

#[test]
fn conversion_pass_is_fixed() {
    let gpu = Gpu::new(10, 10);
    assert_eq!(
        gpu.sampler,
        SamplerDescriptor {
            address_mode_u: AddressMode::ClampToEdge,
            address_mode_v: AddressMode::ClampToEdge,
            address_mode_w: AddressMode::ClampToEdge,
            mag_filter: FilterMode::Linear,
            min_filter: FilterMode::Linear,
            mipmap_filter: FilterMode::Nearest,
        }
    );
    assert_eq!(
        gpu.bind_group_layout,
        BindGroupLayout {
            texture: BindGroupLayoutEntry { binding: 0, kind: BindingKind::SampledTexture },
            sampler: BindGroupLayoutEntry { binding: 1, kind: BindingKind::FilteringSampler },
        }
    );
    assert_eq!(
        gpu.pipeline,
        ConversionPipeline {
            target_format: TextureFormat::Bgra8Unorm,
            vertex_count: 3,
            instance_count: 1,
            vertex_buffers: 0,
        }
    );
}

#[test]
fn zero_sized_window_gets_one_pixel() {
    let gpu = Gpu::new(0, 0);
    assert_eq!((gpu.config.width, gpu.config.height), (1, 1));
    assert!(matches_config(&gpu));
    let mut other = Gpu::new(5, 5);
    other.resize(0, 7);
    assert_eq!((other.config.width, other.config.height), (1, 7));
    other.resize(7, 0);
    assert_eq!((other.config.width, other.config.height), (7, 1));
    assert!(matches_config(&other));
}

#[test]
fn resizes_keep_target_and_bind_group_in_step() {
    let mut gpu = Gpu::new(800, 600);
    let fixed = (gpu.sampler, gpu.bind_group_layout, gpu.pipeline, gpu.config.format);
    let sizes =
        [(800, 600), (800, 600), (1, 1), (4000, 3000), (0, 0), (17, 4000), (17, 4000), (800, 600)];
    let mut generation = gpu.target.generation;
    for (width, height) in sizes {
        gpu.resize(width, height);
        assert_eq!(gpu.config.width, width.max(1));
        assert_eq!(gpu.config.height, height.max(1));
        assert!(matches_config(&gpu));
        assert_ne!(gpu.target.generation, generation);
        generation = gpu.target.generation;
        assert_eq!((gpu.sampler, gpu.bind_group_layout, gpu.pipeline, gpu.config.format), fixed);
    }
    assert_eq!(generation, 8);
}

#[test]
fn generation_wraps() {
    let mut gpu = Gpu::new(2, 2);
    gpu.target.generation = u64::MAX;
    gpu.bind_group.target_generation = u64::MAX;
    gpu.resize(3, 3);
    assert_eq!(gpu.target.generation, 0);
    assert!(matches_config(&gpu));
}

#[test]
fn target_and_bind_group_follow_their_source() {
    let gpu = Gpu::new(64, 32);
    let target = make_target(gpu.config, 9);
    assert_eq!(target.generation, 9);
    assert_eq!((target.texture.width, target.texture.height), (64, 32));
    assert_eq!(
        make_bind_group(target),
        BindGroup { target_generation: 9, target_width: 64, target_height: 32 }
    );
}

#[test]
fn new_context() {
    let context = Context::new(0, 480, 77);
    assert_eq!((context.gpu.config.width, context.gpu.config.height), (1, 480));
    assert!(context.scene.ops.is_empty());
    assert_eq!(context.state.resolution, Dimensions { width: 0, height: 480 });
    assert_eq!(context.state.last_time, 77);
    assert_eq!(context.phase, FramePhase::Idle);
    assert_eq!(context.pending, None);
}

#[test]
fn a_frame_runs_from_acquire_to_present() {
    let mut context = Context::new(640, 480, 0);
    assert_eq!(context.render(FrameEvent::Begin), FrameAction::Acquire);
    assert_eq!(context.phase, FramePhase::Acquiring { retried: false });
    assert_eq!(
        context.render(FrameEvent::Acquired),
        FrameAction::Rasterize(RenderParams {
            base_color: black(),
            width: 640,
            height: 480,
            antialiasing: Antialiasing::Msaa16,
        })
    );
    assert_eq!(context.phase, FramePhase::Rasterizing);
    assert_eq!(
        context.render(FrameEvent::Rasterized),
        FrameAction::Present(ConversionPass {
            clear_color: black(),
            bind_group: context.gpu.bind_group,
            vertex_count: 3,
            instance_count: 1,
        })
    );
    assert_eq!(context.phase, FramePhase::Idle);
}

#[test]
fn a_lost_surface_is_reconfigured_once() {
    let mut context = Context::new(640, 480, 0);
    context.render(FrameEvent::Begin);
    assert_eq!(
        context.render(FrameEvent::AcquireFailed),
        FrameAction::Reconfigure(context.gpu.config)
    );
    assert_eq!(context.phase, FramePhase::Acquiring { retried: true });
    assert!(matches!(context.render(FrameEvent::Acquired), FrameAction::Rasterize(_)));
    assert!(matches!(context.render(FrameEvent::Rasterized), FrameAction::Present(_)));
    assert_eq!(context.phase, FramePhase::Idle);
}

#[test]
fn a_surface_lost_twice_skips_the_frame() {
    let mut context = Context::new(640, 480, 0);
    context.render(FrameEvent::Begin);
    context.render(FrameEvent::AcquireFailed);
    assert_eq!(
        context.render(FrameEvent::AcquireFailed),
        FrameAction::Skip(SkipReason::SurfaceUnavailable)
    );
    assert_eq!(context.phase, FramePhase::Idle);
    assert_eq!(context.render(FrameEvent::Begin), FrameAction::Acquire);
}

#[test]
fn a_failed_rasterizer_skips_the_frame() {
    let mut context = Context::new(640, 480, 0);
    context.render(FrameEvent::Begin);
    context.render(FrameEvent::Acquired);
    assert_eq!(
        context.render(FrameEvent::RasterizeFailed),
        FrameAction::Skip(SkipReason::RasterizerFailed)
    );
    assert_eq!(context.phase, FramePhase::Idle);
}

#[test]
fn events_out_of_turn_are_ignored() {
    let mut context = Context::new(640, 480, 0);
    for event in [
        FrameEvent::Acquired,
        FrameEvent::AcquireFailed,
        FrameEvent::Rasterized,
        FrameEvent::RasterizeFailed,
    ] {
        assert_eq!(context.render(event), FrameAction::Ignore);
        assert_eq!(context.phase, FramePhase::Idle);
    }
    context.render(FrameEvent::Begin);
    for event in [FrameEvent::Begin, FrameEvent::Rasterized, FrameEvent::RasterizeFailed] {
        assert_eq!(context.render(event), FrameAction::Ignore);
        assert_eq!(context.phase, FramePhase::Acquiring { retried: false });
    }
    context.render(FrameEvent::Acquired);
    for event in [FrameEvent::Begin, FrameEvent::Acquired, FrameEvent::AcquireFailed] {
        assert_eq!(context.render(event), FrameAction::Ignore);
        assert_eq!(context.phase, FramePhase::Rasterizing);
    }
}

#[test]
fn resize_waits_for_the_frame_to_end() {
    let mut context = Context::new(640, 480, 0);
    assert!(context.resize(320, 240));
    assert_eq!((context.gpu.config.width, context.gpu.config.height), (320, 240));
    assert_eq!(context.state.resolution, Dimensions { width: 320, height: 240 });
    assert_eq!(context.pending, None);
    context.render(FrameEvent::Begin);
    let during = context.gpu;
    assert!(!context.resize(100, 100));
    assert_eq!(context.gpu, during);
    assert_eq!(context.pending, Some(Size { width: 100, height: 100 }));
    assert_eq!(context.state.resolution, Dimensions { width: 100, height: 100 });
    match context.render(FrameEvent::Acquired) {
        FrameAction::Rasterize(params) => assert_eq!((params.width, params.height), (320, 240)),
        other => panic!("unexpected {:?}", other),
    }
    assert!(!context.resize(0, 77));
    assert_eq!(context.pending, Some(Size { width: 0, height: 77 }));
    assert_eq!(context.gpu, during);
    match context.render(FrameEvent::Rasterized) {
        FrameAction::Present(pass) => {
            assert_eq!(pass.bind_group.target_generation, during.target.generation);
            assert_eq!((pass.bind_group.target_width, pass.bind_group.target_height), (320, 240));
        },
        other => panic!("unexpected {:?}", other),
    }
    assert_eq!(context.phase, FramePhase::Idle);
    assert_eq!(context.pending, None);
    assert!(matches_config(&context.gpu));
    assert_eq!((context.gpu.config.width, context.gpu.config.height), (1, 77));
    assert_ne!(context.gpu.target.generation, during.target.generation);
    match (context.render(FrameEvent::Begin), context.render(FrameEvent::Acquired)) {
        (FrameAction::Acquire, FrameAction::Rasterize(params)) => {
            assert_eq!((params.width, params.height), (1, 77))
        },
        other => panic!("unexpected {:?}", other),
    }
}

#[test]
fn a_skipped_frame_takes_the_kept_size_too() {
    let mut context = Context::new(640, 480, 0);
    context.render(FrameEvent::Begin);
    assert!(!context.resize(50, 60));
    context.render(FrameEvent::AcquireFailed);
    assert_eq!((context.gpu.config.width, context.gpu.config.height), (640, 480));
    assert_eq!(
        context.render(FrameEvent::AcquireFailed),
        FrameAction::Skip(SkipReason::SurfaceUnavailable)
    );
    assert_eq!((context.gpu.config.width, context.gpu.config.height), (50, 60));
    assert_eq!(context.pending, None);
    assert!(matches_config(&context.gpu));
}

#[test]
fn render_leaves_scene_and_state_alone() {
    let mut context = Context::new(64, 64, 5);
    context.scene.fill(
        black(),
        purple::prim::Affine::new(),
        purple::shapes::Shape::Rect(purple::shapes::Rect::abs(0, 0, 64, 64)),
    );
    let state = context.state.clone();
    let gpu = context.gpu;
    context.render(FrameEvent::Begin);
    context.render(FrameEvent::Acquired);
    context.render(FrameEvent::Rasterized);
    assert_eq!(context.scene.ops.len(), 1);
    assert_eq!(context.state, state);
    assert_eq!(context.gpu, gpu);
}
