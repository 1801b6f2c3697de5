//! The surface manager: the configuration of the presentation surface and
//! the resources that depend on it.
//!
//! The rasterizer draws into an offscreen target of one fixed format. A
//! conversion pass samples that target and writes the frame in whatever
//! format the surface presents. Everything here is a description; the shell
//! creates the device objects that the descriptions ask for.

use vstd::prelude::*;

verus! {

/// The pixel formats in use.
#[derive(Clone, Copy, Debug, PartialEq, Eq, Structural)]
pub enum TextureFormat {
    Rgba8Unorm,
    Rgba8UnormSrgb,
    Bgra8Unorm,
}

/// When a finished frame is shown.
#[derive(Clone, Copy, Debug, PartialEq, Eq, Structural)]
pub enum PresentMode {
    /// Frames wait in a queue for the display's refresh.
    Fifo,
}

/// How the surface treats alpha.
#[derive(Clone, Copy, Debug, PartialEq, Eq, Structural)]
pub enum AlphaMode {
    Opaque,
}

/// What a texture may be used for.
#[derive(Clone, Copy, Debug, PartialEq, Eq, Structural)]
pub struct TextureUsage {
    pub copy_src: bool,
    pub copy_dst: bool,
    pub texture_binding: bool,
    pub storage_binding: bool,
    pub render_attachment: bool,
}

/// How the presentation surface is configured.
#[derive(Clone, Copy, Debug, PartialEq, Eq, Structural)]
pub struct SurfaceConfiguration {
    pub usage: TextureUsage,
    pub format: TextureFormat,
    pub width: u32,
    pub height: u32,
    pub present_mode: PresentMode,
    pub desired_maximum_frame_latency: u32,
    pub alpha_mode: AlphaMode,
}

/// A two-dimensional texture with one layer, one mip level and one sample.
#[derive(Clone, Copy, Debug, PartialEq, Eq, Structural)]
pub struct TextureDescriptor {
    pub width: u32,
    pub height: u32,
    pub format: TextureFormat,
    pub usage: TextureUsage,
}

/// The buffer the rasterizer draws into, with the view through which it is
/// drawn to and sampled. `generation` tells one target from the next.
#[derive(Clone, Copy, Debug, PartialEq, Eq, Structural)]
pub struct OffscreenTarget {
    pub texture: TextureDescriptor,
    pub view_format: TextureFormat,
    pub generation: u64,
}

/// How a sampler treats coordinates outside the texture.
#[derive(Clone, Copy, Debug, PartialEq, Eq, Structural)]
pub enum AddressMode {
    ClampToEdge,
}

/// How a sampler reads between texels.
#[derive(Clone, Copy, Debug, PartialEq, Eq, Structural)]
pub enum FilterMode {
    Nearest,
    Linear,
}

#[derive(Clone, Copy, Debug, PartialEq, Eq, Structural)]
pub struct SamplerDescriptor {
    pub address_mode_u: AddressMode,
    pub address_mode_v: AddressMode,
    pub address_mode_w: AddressMode,
    pub mag_filter: FilterMode,
    pub min_filter: FilterMode,
    pub mipmap_filter: FilterMode,
}

/// What a slot of the conversion pass's bind group holds.
#[derive(Clone, Copy, Debug, PartialEq, Eq, Structural)]
pub enum BindingKind {
    /// A two-dimensional texture with one sample, read as filterable floats.
    SampledTexture,
    /// A sampler that filters.
    FilteringSampler,
}

/// One slot of the bind group layout. Every slot is visible to the fragment
/// stage and to no other.
#[derive(Clone, Copy, Debug, PartialEq, Eq, Structural)]
pub struct BindGroupLayoutEntry {
    pub binding: u32,
    pub kind: BindingKind,
}

/// The layout of the conversion pass's bind group: two slots, the texture
/// first.
#[derive(Clone, Copy, Debug, PartialEq, Eq, Structural)]
pub struct BindGroupLayout {
    pub texture: BindGroupLayoutEntry,
    pub sampler: BindGroupLayoutEntry,
}

/// The bind group of the conversion pass: slot 0 holds the view of the
/// offscreen target of the given generation, slot 1 the sampler.
#[derive(Clone, Copy, Debug, PartialEq, Eq, Structural)]
pub struct BindGroup {
    pub target_generation: u64,
    pub target_width: u32,
    pub target_height: u32,
}

/// The pipeline of the conversion pass: three vertices made from the vertex
/// index alone, no vertex buffer, and one colour target that every fragment
/// replaces.
#[derive(Clone, Copy, Debug, PartialEq, Eq, Structural)]
pub struct ConversionPipeline {
    pub target_format: TextureFormat,
    pub vertex_count: u32,
    pub instance_count: u32,
    pub vertex_buffers: u32,
}

/// The surface configuration and all that depends on it.
#[derive(Clone, Copy, Debug, PartialEq, Eq, Structural)]
pub struct Gpu {
    pub config: SurfaceConfiguration,
    pub target: OffscreenTarget,
    pub sampler: SamplerDescriptor,
    pub bind_group_layout: BindGroupLayout,
    pub bind_group: BindGroup,
    pub pipeline: ConversionPipeline,
}

/// A side of the surface: at least one pixel, also where the window reports
/// none.
pub open spec fn clamp_side(side: u32) -> u32 {
    if side == 0 {
        1
    } else {
        side
    }
}

/// The generation after `generation`.
pub open spec fn next_generation(generation: u64) -> u64 {
    if generation == u64::MAX {
        0
    } else {
        (generation + 1) as u64
    }
}

/// What the offscreen target may be used for: the rasterizer writes it as
/// storage and as an attachment, the conversion pass samples it.
pub open spec fn target_usage() -> TextureUsage {
    TextureUsage {
        copy_src: false,
        copy_dst: false,
        texture_binding: true,
        storage_binding: true,
        render_attachment: true,
    }
}

/// What the surface's frames may be used for.
pub open spec fn surface_usage() -> TextureUsage {
    TextureUsage {
        copy_src: false,
        copy_dst: false,
        texture_binding: false,
        storage_binding: false,
        render_attachment: true,
    }
}

/// How the surface of a window of the given size is configured at first:
/// frames in `Bgra8Unorm` that are shown in the order of their arrival, at
/// most two of them under way.
pub open spec fn first_configuration(width: u32, height: u32) -> SurfaceConfiguration {
    SurfaceConfiguration {
        usage: surface_usage(),
        format: TextureFormat::Bgra8Unorm,
        width: clamp_side(width),
        height: clamp_side(height),
        present_mode: PresentMode::Fifo,
        desired_maximum_frame_latency: 2,
        alpha_mode: AlphaMode::Opaque,
    }
}

/// The offscreen target for a configuration.
pub open spec fn target_for(config: SurfaceConfiguration, generation: u64) -> OffscreenTarget {
    OffscreenTarget {
        texture: TextureDescriptor {
            width: config.width,
            height: config.height,
            format: TextureFormat::Rgba8Unorm,
            usage: target_usage(),
        },
        view_format: TextureFormat::Rgba8Unorm,
        generation,
    }
}

/// The bind group over a target.
pub open spec fn bind_group_for(target: OffscreenTarget) -> BindGroup {
    BindGroup {
        target_generation: target.generation,
        target_width: target.texture.width,
        target_height: target.texture.height,
    }
}

/// The sampler of the conversion pass.
pub open spec fn conversion_sampler() -> SamplerDescriptor {
    SamplerDescriptor {
        address_mode_u: AddressMode::ClampToEdge,
        address_mode_v: AddressMode::ClampToEdge,
        address_mode_w: AddressMode::ClampToEdge,
        mag_filter: FilterMode::Linear,
        min_filter: FilterMode::Linear,
        mipmap_filter: FilterMode::Nearest,
    }
}

/// The slots of the conversion pass: the sampled texture at 0, the filtering
/// sampler at 1.
pub open spec fn conversion_layout() -> BindGroupLayout {
    BindGroupLayout {
        texture: BindGroupLayoutEntry { binding: 0, kind: BindingKind::SampledTexture },
        sampler: BindGroupLayoutEntry { binding: 1, kind: BindingKind::FilteringSampler },
    }
}

impl Gpu {
    /// Whether the offscreen target and the bind group are those of the
    /// current configuration, and the surface has at least one pixel.
    pub open spec fn matches(&self) -> bool {
        &&& self.config.width >= 1
        &&& self.config.height >= 1
        &&& self.target == target_for(self.config, self.target.generation)
        &&& self.bind_group == bind_group_for(self.target)
    }

    /// Whether, besides, the parts that never change are what the conversion
    /// pass is fixed to.
    pub open spec fn wf(&self) -> bool {
        &&& self.matches()
        &&& self.sampler == conversion_sampler()
        &&& self.bind_group_layout == conversion_layout()
        &&& self.pipeline == (ConversionPipeline {
            target_format: self.config.format,
            vertex_count: 3,
            instance_count: 1,
            vertex_buffers: 0,
        })
    }

    /// The state after a resize to the given size.
    pub open spec fn resized(self, width: u32, height: u32) -> Gpu {
        let config = SurfaceConfiguration {
            width: clamp_side(width),
            height: clamp_side(height),
            ..self.config
        };
        let target = target_for(config, next_generation(self.target.generation));
        Gpu { config, target, bind_group: bind_group_for(target), ..self }
    }

    /// The first state, for a window of the given size: a surface in
    /// `Bgra8Unorm` that presents in arrival order with at most two frames in
    /// flight, and the target and conversion pass for it.
    pub fn new(width: u32, height: u32) -> (out: Gpu)
        ensures
            out.wf(),
            out.config == first_configuration(width, height),
            out.target.generation == 0,
    {
        let config = SurfaceConfiguration {
            usage: TextureUsage {
                copy_src: false,
                copy_dst: false,
                texture_binding: false,
                storage_binding: false,
                render_attachment: true,
            },
            format: TextureFormat::Bgra8Unorm,
            width: if width == 0 { 1 } else { width },
            height: if height == 0 { 1 } else { height },
            present_mode: PresentMode::Fifo,
            desired_maximum_frame_latency: 2,
            alpha_mode: AlphaMode::Opaque,
        };
        let target = make_target(config, 0);
        let out = Gpu {
            config,
            target,
            sampler: SamplerDescriptor {
                address_mode_u: AddressMode::ClampToEdge,
                address_mode_v: AddressMode::ClampToEdge,
                address_mode_w: AddressMode::ClampToEdge,
                mag_filter: FilterMode::Linear,
                min_filter: FilterMode::Linear,
                mipmap_filter: FilterMode::Nearest,
            },
            bind_group_layout: BindGroupLayout {
                texture: BindGroupLayoutEntry { binding: 0, kind: BindingKind::SampledTexture },
                sampler: BindGroupLayoutEntry { binding: 1, kind: BindingKind::FilteringSampler },
            },
            bind_group: make_bind_group(target),
            pipeline: ConversionPipeline {
                target_format: TextureFormat::Bgra8Unorm,
                vertex_count: 3,
                instance_count: 1,
                vertex_buffers: 0,
            },
        };
        out
    }

    /// Takes a new size: the configuration gets the size, at least one pixel
    /// a side, and the offscreen target and the bind group are made anew for
    /// it, whether or not the size has changed. Everything else stays.
    pub fn resize(&mut self, width: u32, height: u32)
        ensures
            *final(self) == old(self).resized(width, height),
            final(self).matches(),
            old(self).wf() ==> final(self).wf(),
    {
        let config = SurfaceConfiguration {
            usage: self.config.usage,
            format: self.config.format,
            width: if width == 0 { 1 } else { width },
            height: if height == 0 { 1 } else { height },
            present_mode: self.config.present_mode,
            desired_maximum_frame_latency: self.config.desired_maximum_frame_latency,
            alpha_mode: self.config.alpha_mode,
        };
        let generation = if self.target.generation == u64::MAX {
            0
        } else {
            self.target.generation + 1
        };
        let target = make_target(config, generation);
        let bind_group = make_bind_group(target);
        self.config = config;
        self.target = target;
        self.bind_group = bind_group;
    }
}

/// The offscreen target for a configuration.
pub fn make_target(config: SurfaceConfiguration, generation: u64) -> (out: OffscreenTarget)
    ensures
        out == target_for(config, generation),
{
    OffscreenTarget {
        texture: TextureDescriptor {
            width: config.width,
            height: config.height,
            format: TextureFormat::Rgba8Unorm,
            usage: TextureUsage {
                copy_src: false,
                copy_dst: false,
                texture_binding: true,
                storage_binding: true,
                render_attachment: true,
            },
        },
        view_format: TextureFormat::Rgba8Unorm,
        generation,
    }
}

/// The bind group over a target.
pub fn make_bind_group(target: OffscreenTarget) -> (out: BindGroup)
    ensures
        out == bind_group_for(target),
{
    BindGroup {
        target_generation: target.generation,
        target_width: target.texture.width,
        target_height: target.texture.height,
    }
}

/// The state after one resize after another, first to last.
pub open spec fn resized_all(gpu: Gpu, sizes: Seq<(u32, u32)>) -> Gpu
    decreases sizes.len(),
{
    if sizes.len() == 0 {
        gpu
    } else {
        resized_all(gpu, sizes.drop_last()).resized(sizes.last().0, sizes.last().1)
    }
}

/// After any sequence of resizes, also one that repeats a size or shrinks
/// and grows in turn, the offscreen target and the bind group are those of
/// the configuration, and the configuration has the last size.
pub proof fn lemma_resizes_keep_match(gpu: Gpu, sizes: Seq<(u32, u32)>)
    requires
        gpu.matches(),
    ensures
        resized_all(gpu, sizes).matches(),
        gpu.wf() ==> resized_all(gpu, sizes).wf(),
        resized_all(gpu, sizes).target.texture.width == resized_all(gpu, sizes).config.width,
        resized_all(gpu, sizes).target.texture.height == resized_all(gpu, sizes).config.height,
        resized_all(gpu, sizes).bind_group.target_generation == resized_all(
            gpu,
            sizes,
        ).target.generation,
        sizes.len() > 0 ==> resized_all(gpu, sizes).config.width == clamp_side(sizes.last().0)
            && resized_all(gpu, sizes).config.height == clamp_side(sizes.last().1),
        resized_all(gpu, sizes).config.format == gpu.config.format,
    decreases sizes.len(),
{
    if sizes.len() > 0 {
        lemma_resizes_keep_match(gpu, sizes.drop_last());
    }
}

/// Each resize replaces the offscreen target: the new one has another
/// generation than the one before.
pub proof fn lemma_resize_replaces_target(gpu: Gpu, width: u32, height: u32)
    ensures
        gpu.resized(width, height).target.generation != gpu.target.generation,
{
}

} // verus!
