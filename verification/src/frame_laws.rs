//! What holds of every course of resizes and frames.

use vstd::prelude::*;
use crate::context::{frame_step, FrameAction, FrameEvent, FramePhase, Size, SkipReason};
use crate::gpu::{bind_group_for, clamp_side, Gpu};

verus! {

/// What the course of resizes and frames acts on: the surface manager, the
/// phase of the frame, and the size kept for the end of the frame.
pub struct Driver {
    pub gpu: Gpu,
    pub phase: FramePhase,
    pub pending: Option<Size>,
}

/// What can happen to a context.
pub enum Step {
    /// The window has a new size.
    Resize { width: u32, height: u32 },
    /// The shell reports on the frame.
    Frame(FrameEvent),
}

/// The driver after one step. Between frames a resize is taken at once.
/// During a frame it is kept, and taken with the step that ends the frame.
pub open spec fn after_step(driver: Driver, step: Step) -> Driver {
    match step {
        Step::Resize { width, height } => if driver.phase == FramePhase::Idle {
            Driver { gpu: driver.gpu.resized(width, height), pending: None, ..driver }
        } else {
            Driver { pending: Some(Size { width, height }), ..driver }
        },
        Step::Frame(event) => {
            let phase = frame_step(driver.phase, event, driver.gpu).0;
            match driver.pending {
                Some(size) => if phase == FramePhase::Idle {
                    Driver { gpu: driver.gpu.resized(size.width, size.height), phase, pending: None }
                } else {
                    Driver { phase, ..driver }
                },
                None => Driver { phase, ..driver },
            }
        },
    }
}

/// The driver after a course of steps, first to last.
pub open spec fn after_steps(driver: Driver, steps: Seq<Step>) -> Driver
    decreases steps.len(),
{
    if steps.len() == 0 {
        driver
    } else {
        after_step(after_steps(driver, steps.drop_last()), steps.last())
    }
}

/// Whether nothing is kept for later while no frame is under way.
pub open spec fn settled(driver: Driver) -> bool {
    driver.phase == FramePhase::Idle ==> driver.pending is None
}

/// The size that the surface is to have: the one kept for the end of the
/// frame, else the one it has.
pub open spec fn wanted(driver: Driver) -> (u32, u32) {
    match driver.pending {
        Some(size) => (clamp_side(size.width), clamp_side(size.height)),
        None => (driver.gpu.config.width, driver.gpu.config.height),
    }
}

/// Whatever resizes and frames went before, in whatever order: the offscreen
/// target and the bind group are those of the current configuration, the
/// rasterizer is called with the size of the target, and the conversion pass
/// samples that target.
pub proof fn lemma_target_matches_surface(driver: Driver, steps: Seq<Step>, event: FrameEvent)
    requires
        driver.gpu.matches(),
    ensures
        ({
            let now = after_steps(driver, steps);
            &&& now.gpu.matches()
            &&& now.gpu.target.texture.width == now.gpu.config.width
            &&& now.gpu.target.texture.height == now.gpu.config.height
            &&& now.gpu.bind_group == bind_group_for(now.gpu.target)
            &&& (frame_step(now.phase, event, now.gpu).1 matches FrameAction::Rasterize(params)
                ==> params.width == now.gpu.target.texture.width && params.height
                == now.gpu.target.texture.height)
            &&& (frame_step(now.phase, event, now.gpu).1 matches FrameAction::Present(pass)
                ==> pass.bind_group == bind_group_for(now.gpu.target))
            &&& (frame_step(now.phase, event, now.gpu).1 matches FrameAction::Reconfigure(config)
                ==> config == now.gpu.config)
        }),
    decreases steps.len(),
{
    if steps.len() > 0 {
        lemma_target_matches_surface(driver, steps.drop_last(), event);
    }
}

/// While a frame is under way and goes on, no step changes the
/// configuration, the offscreen target or the bind group: a resize that
/// comes in is kept, and taken only with the step that ends the frame.
pub proof fn lemma_frame_keeps_resources(driver: Driver, step: Step)
    requires
        driver.phase != FramePhase::Idle,
        after_step(driver, step).phase != FramePhase::Idle,
    ensures
        after_step(driver, step).gpu == driver.gpu,
{
}

/// No course of steps leaves a size kept while no frame is under way, and
/// the size that the surface is to have changes with a resize only.
pub proof fn lemma_steps_settle(driver: Driver, steps: Seq<Step>)
    requires
        settled(driver),
    ensures
        settled(after_steps(driver, steps)),
        (forall|i: int| 0 <= i < steps.len() ==> (#[trigger] steps[i]) is Frame) ==> wanted(
            after_steps(driver, steps),
        ) == wanted(driver),
    decreases steps.len(),
{
    if steps.len() > 0 {
        let rest = steps.drop_last();
        lemma_steps_settle(driver, rest);
        if forall|i: int| 0 <= i < steps.len() ==> (#[trigger] steps[i]) is Frame {
            assert forall|i: int| 0 <= i < rest.len() implies (#[trigger] rest[i]) is Frame by {
                assert(rest[i] == steps[i]);
            }
            assert(steps[steps.len() - 1] is Frame);
        }
    }
}

/// A resize reaches the surface before the next frame begins. Whenever it
/// comes in, between frames or while one is under way, and whatever the
/// shell reports of the frame after it: as soon as no frame is under way,
/// the configuration has the new size, at least one pixel a side, the
/// offscreen target and the bind group are those of the configuration, and
/// nothing is kept for later.
pub proof fn lemma_resize_reaches_surface(
    driver: Driver,
    width: u32,
    height: u32,
    reports: Seq<Step>,
)
    requires
        forall|i: int| 0 <= i < reports.len() ==> (#[trigger] reports[i]) is Frame,
    ensures
        ({
            let now = after_steps(after_step(driver, Step::Resize { width, height }), reports);
            now.phase == FramePhase::Idle ==> {
                &&& now.gpu.config.width == clamp_side(width)
                &&& now.gpu.config.height == clamp_side(height)
                &&& now.gpu.matches()
                &&& now.pending is None
            }
        }),
{
    let resized = after_step(driver, Step::Resize { width, height });
    lemma_steps_settle(resized, reports);
    lemma_resize_matches(resized, reports);
}

proof fn lemma_resize_matches(driver: Driver, reports: Seq<Step>)
    requires
        driver.pending is None ==> driver.gpu.matches(),
        forall|i: int| 0 <= i < reports.len() ==> (#[trigger] reports[i]) is Frame,
    ensures
        after_steps(driver, reports).pending is None ==> after_steps(driver, reports).gpu.matches(),
    decreases reports.len(),
{
    if reports.len() > 0 {
        let rest = reports.drop_last();
        assert forall|i: int| 0 <= i < rest.len() implies (#[trigger] rest[i]) is Frame by {
            assert(rest[i] == reports[i]);
        }
        assert(reports[reports.len() - 1] is Frame);
        lemma_resize_matches(driver, rest);
    }
}

/// Within a frame the rasterizer comes before the conversion pass, and the
/// frame is acquired before either: the rasterizer is called only when a
/// frame was acquired, and a frame is presented only when the rasterizer has
/// done its work, which ends the frame.
pub proof fn lemma_frame_order(phase: FramePhase, event: FrameEvent, gpu: Gpu)
    ensures
        frame_step(phase, event, gpu).1 is Rasterize ==> phase is Acquiring && event
            == FrameEvent::Acquired && frame_step(phase, event, gpu).0 == FramePhase::Rasterizing,
        frame_step(phase, event, gpu).1 is Present ==> phase == FramePhase::Rasterizing && event
            == FrameEvent::Rasterized && frame_step(phase, event, gpu).0 == FramePhase::Idle,
        frame_step(phase, event, gpu).1 is Acquire ==> phase == FramePhase::Idle && event
            == FrameEvent::Begin,
{
}

/// A frame reconfigures the surface at most once: the surface is
/// reconfigured only after the first failure to acquire, and a second
/// failure gives the frame up. A failure never ends in anything but a
/// skipped frame, and a skipped frame leaves the driver ready for the next.
pub proof fn lemma_one_retry(phase: FramePhase, event: FrameEvent, gpu: Gpu)
    ensures
        frame_step(phase, event, gpu).1 is Reconfigure ==> phase == (FramePhase::Acquiring {
            retried: false,
        }) && frame_step(phase, event, gpu).0 == (FramePhase::Acquiring { retried: true }),
        frame_step(FramePhase::Acquiring { retried: true }, FrameEvent::AcquireFailed, gpu) == (
            FramePhase::Idle,
            FrameAction::Skip(SkipReason::SurfaceUnavailable),
        ),
        frame_step(phase, event, gpu).1 is Skip ==> frame_step(phase, event, gpu).0
            == FramePhase::Idle,
        phase == FramePhase::Rasterizing && event == FrameEvent::RasterizeFailed ==> frame_step(
            phase,
            event,
            gpu,
        ).1 == FrameAction::Skip(SkipReason::RasterizerFailed),
{
}

} // verus!
