//! The frame driver: what is done with the surface, the rasterizer and the
//! conversion pass in the course of one frame, and in what order.
//!
//! The shell performs each action and reports what came of it; the driver
//! decides what comes next.

use vstd::prelude::*;
use crate::color::Color;
use crate::frame_laws::{after_step, Driver, Step};
use crate::gpu::{BindGroup, Gpu, SurfaceConfiguration};
use crate::prim::Dimensions;
use crate::scene::Scene;
use crate::state::State;

verus! {

/// Where a frame stands.
#[derive(Clone, Copy, Debug, PartialEq, Eq, Structural)]
pub enum FramePhase {
    /// No frame is under way.
    Idle,
    /// The surface was asked for its next frame; `retried` once it has been
    /// reconfigured and asked again.
    Acquiring { retried: bool },
    /// The rasterizer draws the scene into the offscreen target.
    Rasterizing,
}

/// What the shell reports.
#[derive(Clone, Copy, Debug, PartialEq, Eq, Structural)]
pub enum FrameEvent {
    /// A redraw is due.
    Begin,
    /// The surface handed out a frame.
    Acquired,
    /// The surface handed out none: it was lost or is out of date.
    AcquireFailed,
    /// The rasterizer has encoded its work.
    Rasterized,
    /// The rasterizer failed.
    RasterizeFailed,
}

/// Why a frame was given up.
#[derive(Clone, Copy, Debug, PartialEq, Eq, Structural)]
pub enum SkipReason {
    /// The surface handed out no frame, also after it was reconfigured.
    SurfaceUnavailable,
    RasterizerFailed,
}

/// How the rasterizer smooths edges.
#[derive(Clone, Copy, Debug, PartialEq, Eq, Structural)]
pub enum Antialiasing {
    Area,
    Msaa8,
    Msaa16,
}

/// What the rasterizer is called with.
#[derive(Clone, Copy, Debug, PartialEq, Eq, Structural)]
pub struct RenderParams {
    /// The colour under the scene.
    pub base_color: Color,
    pub width: u32,
    pub height: u32,
    pub antialiasing: Antialiasing,
}

/// The conversion pass of one frame: clear the frame, bind the pipeline and
/// the bind group at slot 0, draw the vertices once.
#[derive(Clone, Copy, Debug, PartialEq, Eq, Structural)]
pub struct ConversionPass {
    pub clear_color: Color,
    pub bind_group: BindGroup,
    pub vertex_count: u32,
    pub instance_count: u32,
}

/// What the shell is to do next.
#[derive(Clone, Copy, Debug, PartialEq, Eq, Structural)]
pub enum FrameAction {
    /// Nothing: the event does not belong to the phase, and is passed over.
    Ignore,
    /// Ask the surface for its next frame.
    Acquire,
    /// Configure the surface again, then ask it for its next frame.
    Reconfigure(SurfaceConfiguration),
    /// Have the rasterizer draw the scene into the offscreen target.
    Rasterize(RenderParams),
    /// Encode the conversion pass into the acquired frame, submit, and
    /// present the frame.
    Present(ConversionPass),
    /// Give the frame up and say why; whatever was acquired is dropped
    /// without being presented.
    Skip(SkipReason),
}

/// Opaque black.
pub open spec fn black() -> Color {
    Color { r: 0, g: 0, b: 0, a: 255 }
}

/// What the rasterizer is called with under a configuration.
pub open spec fn render_params(gpu: Gpu) -> RenderParams {
    RenderParams {
        base_color: black(),
        width: gpu.config.width,
        height: gpu.config.height,
        antialiasing: Antialiasing::Msaa16,
    }
}

/// The conversion pass over the current bind group.
pub open spec fn conversion_pass(gpu: Gpu) -> ConversionPass {
    ConversionPass {
        clear_color: black(),
        bind_group: gpu.bind_group,
        vertex_count: gpu.pipeline.vertex_count,
        instance_count: gpu.pipeline.instance_count,
    }
}

/// The phase after an event, and what the shell is to do.
pub open spec fn frame_step(phase: FramePhase, event: FrameEvent, gpu: Gpu) -> (FramePhase, FrameAction) {
    match (phase, event) {
        (FramePhase::Idle, FrameEvent::Begin) => (
            FramePhase::Acquiring { retried: false },
            FrameAction::Acquire,
        ),
        (FramePhase::Acquiring { retried }, FrameEvent::Acquired) => (
            FramePhase::Rasterizing,
            FrameAction::Rasterize(render_params(gpu)),
        ),
        (FramePhase::Acquiring { retried }, FrameEvent::AcquireFailed) => if retried {
            (FramePhase::Idle, FrameAction::Skip(SkipReason::SurfaceUnavailable))
        } else {
            (FramePhase::Acquiring { retried: true }, FrameAction::Reconfigure(gpu.config))
        },
        (FramePhase::Rasterizing, FrameEvent::Rasterized) => (
            FramePhase::Idle,
            FrameAction::Present(conversion_pass(gpu)),
        ),
        (FramePhase::Rasterizing, FrameEvent::RasterizeFailed) => (
            FramePhase::Idle,
            FrameAction::Skip(SkipReason::RasterizerFailed),
        ),
        _ => (phase, FrameAction::Ignore),
    }
}

/// A size of the window in pixels.
#[derive(Clone, Copy, Debug, PartialEq, Eq, Structural)]
pub struct Size {
    pub width: u32,
    pub height: u32,
}

/// The surface manager, the scene, the input state, where the current frame
/// stands, and the size that the window took while a frame was under way.
pub struct Context {
    pub gpu: Gpu,
    pub scene: Scene,
    pub state: State,
    pub phase: FramePhase,
    /// The last size that came in while a frame was under way. It is taken
    /// when that frame ends.
    pub pending: Option<Size>,
}

impl Context {
    /// The surface manager, the phase and the pending size: what the course
    /// of resizes and frames acts on.
    pub open spec fn driver(&self) -> Driver {
        Driver { gpu: self.gpu, phase: self.phase, pending: self.pending }
    }

    /// The context of a window of the given size in pixels, before its
    /// first frame, which begins at `now`.
    pub fn new(width: u32, height: u32, now: u64) -> (out: Context)
        ensures
            out.gpu.wf(),
            out.gpu.config == crate::gpu::first_configuration(width, height),
            out.gpu.target.generation == 0,
            out.scene@ == Seq::<crate::scene::DrawOp>::empty(),
            out.state.is_fresh(Dimensions { width: width as i64, height: height as i64 }, now),
            out.phase == FramePhase::Idle,
            out.pending is None,
    {
        Context {
            gpu: Gpu::new(width, height),
            scene: Scene::new(),
            state: State::new(Dimensions { width: width as i64, height: height as i64 }, now),
            phase: FramePhase::Idle,
            pending: None,
        }
    }

    /// Takes a new window size. The input state has the size at once.
    /// Between frames the surface manager is resized at once, and `true` is
    /// returned. While a frame is under way the frame goes on with the
    /// resources it began with: the size is kept, in place of any kept
    /// before, the surface manager is resized with it when the frame ends,
    /// and `false` is returned.
    pub fn resize(&mut self, width: u32, height: u32) -> (applied: bool)
        ensures
            applied == (old(self).phase == FramePhase::Idle),
            final(self).driver() == after_step(old(self).driver(), Step::Resize { width, height }),
            final(self).state == (State {
                resolution: Dimensions { width: width as i64, height: height as i64 },
                ..old(self).state
            }),
            applied ==> final(self).gpu == old(self).gpu.resized(width, height) && final(self).gpu.matches() && final(self).pending is None,
            !applied ==> final(self).gpu == old(self).gpu && final(self).pending == Some(
                Size { width, height },
            ),
            final(self).phase == old(self).phase,
            final(self).scene == old(self).scene,
    {
        self.state.resolution = Dimensions { width: width as i64, height: height as i64 };
        match self.phase {
            FramePhase::Idle => {
                self.gpu.resize(width, height);
                self.pending = None;
                true
            },
            _ => {
                self.pending = Some(Size { width, height });
                false
            },
        }
    }

    /// Takes what the shell reports of the frame and returns what it is to
    /// do next, which goes by the surface manager as the frame found it.
    /// With the step that ends the frame the surface manager takes the size
    /// that was kept for it, if any. The scene and the input state are left
    /// as they are.
    pub fn render(&mut self, event: FrameEvent) -> (action: FrameAction)
        ensures
            (final(self).phase, action) == frame_step(old(self).phase, event, old(self).gpu),
            final(self).driver() == after_step(old(self).driver(), Step::Frame(event)),
            final(self).scene == old(self).scene,
            final(self).state == old(self).state,
    {
        let action = self.step(event);
        match self.phase {
            FramePhase::Idle => {
                match self.pending {
                    Some(size) => {
                        self.gpu.resize(size.width, size.height);
                        self.pending = None;
                    },
                    None => {},
                }
            },
            _ => {},
        }
        action
    }

    /// The step of the frame driver alone.
    fn step(&mut self, event: FrameEvent) -> (action: FrameAction)
        ensures
            (final(self).phase, action) == frame_step(old(self).phase, event, old(self).gpu),
            final(self).gpu == old(self).gpu,
            final(self).pending == old(self).pending,
            final(self).scene == old(self).scene,
            final(self).state == old(self).state,
    {
        let black = Color { r: 0, g: 0, b: 0, a: 255 };
        match (self.phase, event) {
            (FramePhase::Idle, FrameEvent::Begin) => {
                self.phase = FramePhase::Acquiring { retried: false };
                FrameAction::Acquire
            },
            (FramePhase::Acquiring { retried }, FrameEvent::Acquired) => {
                self.phase = FramePhase::Rasterizing;
                FrameAction::Rasterize(
                    RenderParams {
                        base_color: black,
                        width: self.gpu.config.width,
                        height: self.gpu.config.height,
                        antialiasing: Antialiasing::Msaa16,
                    },
                )
            },
            (FramePhase::Acquiring { retried }, FrameEvent::AcquireFailed) => {
                if retried {
                    self.phase = FramePhase::Idle;
                    FrameAction::Skip(SkipReason::SurfaceUnavailable)
                } else {
                    self.phase = FramePhase::Acquiring { retried: true };
                    FrameAction::Reconfigure(self.gpu.config)
                }
            },
            (FramePhase::Rasterizing, FrameEvent::Rasterized) => {
                self.phase = FramePhase::Idle;
                FrameAction::Present(
                    ConversionPass {
                        clear_color: black,
                        bind_group: self.gpu.bind_group,
                        vertex_count: self.gpu.pipeline.vertex_count,
                        instance_count: self.gpu.pipeline.instance_count,
                    },
                )
            },
            (FramePhase::Rasterizing, FrameEvent::RasterizeFailed) => {
                self.phase = FramePhase::Idle;
                FrameAction::Skip(SkipReason::RasterizerFailed)
            },
            _ => FrameAction::Ignore,
        }
    }
}

} // verus!
