//! The per-frame phase machine of the render loop.
//!
//! One iteration walks the phases in a fixed order. Each phase reports an
//! `Outcome`; the machine decides which phase runs next. Failures are either
//! fatal (the loop stops) or skip the rest of the iteration (the loop goes on
//! with the next one).
use vstd::prelude::*;

verus! {

/// A step of one loop iteration, in the order the iteration runs them.
#[derive(Clone, Copy, Debug, PartialEq, Eq, Structural)]
pub enum Phase {
    UpdateLogic,
    MaybeResize,
    MaybeRefreshTexture,
    UpdateGraph,
    UpdateScene,
    DispatchPre,
    Flush,
    DrawDeferred,
    DispatchPost,
    UpdateInterface,
    RecordAndSubmit,
    Present,
    Terminated,
}

/// What a phase reported.
#[derive(Clone, Copy, Debug, PartialEq, Eq, Structural)]
pub enum Outcome {
    /// The phase did its work.
    Done,
    /// Resources are not ready yet; try again next iteration.
    NotReady,
    /// The phase failed.
    Failed,
}

/// A compute dispatch of the frame.
#[derive(Clone, Copy, Debug, PartialEq, Eq, Structural)]
pub enum Dispatch {
    /// Streaming work of the scene manager.
    SceneManager,
    /// Per-object work of the scene.
    SceneObjects,
    /// Spatial structure of the render frames.
    SpatialFrames,
    /// Spatial culling of the objects.
    SpatialObjects,
    /// Per-frame work of the renderer.
    RendererFrames,
    Lighting,
    Occlusion,
    Luminance,
    Composite,
}

/// A buffer owner whose pending writes are flushed before drawing.
#[derive(Clone, Copy, Debug, PartialEq, Eq, Structural)]
pub enum FlushTarget {
    SceneManager,
    RenderManager,
    RenderFrame,
}

/// The phase after `phase` when it reported `outcome`.
pub open spec fn next_phase_spec(phase: Phase, outcome: Outcome) -> Phase {
    match phase {
        Phase::UpdateLogic => if outcome == Outcome::Done {
            Phase::MaybeResize
        } else {
            Phase::Terminated
        },
        Phase::MaybeResize => if outcome == Outcome::Done {
            Phase::MaybeRefreshTexture
        } else {
            Phase::UpdateLogic
        },
        Phase::MaybeRefreshTexture => Phase::UpdateGraph,
        Phase::UpdateGraph => Phase::UpdateScene,
        Phase::UpdateScene => match outcome {
            Outcome::Done => Phase::DispatchPre,
            Outcome::NotReady => Phase::UpdateLogic,
            Outcome::Failed => Phase::Terminated,
        },
        Phase::DispatchPre => Phase::Flush,
        Phase::Flush => Phase::DrawDeferred,
        Phase::DrawDeferred => Phase::DispatchPost,
        Phase::DispatchPost => Phase::UpdateInterface,
        Phase::UpdateInterface => Phase::RecordAndSubmit,
        Phase::RecordAndSubmit => Phase::Present,
        Phase::Present => if outcome == Outcome::Done {
            Phase::UpdateLogic
        } else {
            Phase::Terminated
        },
        Phase::Terminated => Phase::Terminated,
    }
}

/// Decides the phase that follows `phase` after it reported `outcome`.
///
/// A failed readiness check, scene update or presentation ends the loop; a
/// failed resize, or a scene that is not ready yet, skips to the next
/// iteration; the other phases always go on in order.
pub fn next_phase(phase: Phase, outcome: Outcome) -> (r: Phase)
    ensures
        r == next_phase_spec(phase, outcome),
{
    match phase {
        Phase::UpdateLogic => match outcome {
            Outcome::Done => Phase::MaybeResize,
            _ => Phase::Terminated,
        },
        Phase::MaybeResize => match outcome {
            Outcome::Done => Phase::MaybeRefreshTexture,
            _ => Phase::UpdateLogic,
        },
        Phase::MaybeRefreshTexture => Phase::UpdateGraph,
        Phase::UpdateGraph => Phase::UpdateScene,
        Phase::UpdateScene => match outcome {
            Outcome::Done => Phase::DispatchPre,
            Outcome::NotReady => Phase::UpdateLogic,
            Outcome::Failed => Phase::Terminated,
        },
        Phase::DispatchPre => Phase::Flush,
        Phase::Flush => Phase::DrawDeferred,
        Phase::DrawDeferred => Phase::DispatchPost,
        Phase::DispatchPost => Phase::UpdateInterface,
        Phase::UpdateInterface => Phase::RecordAndSubmit,
        Phase::RecordAndSubmit => Phase::Present,
        Phase::Present => match outcome {
            Outcome::Done => Phase::UpdateLogic,
            _ => Phase::Terminated,
        },
        Phase::Terminated => Phase::Terminated,
    }
}

/// Only a phase that did not report `Done` ends the loop, and once ended it stays ended; the steps
/// that read the frame's GPU work are reached only through a scene update
/// that reported ready.
pub proof fn lemma_phase_machine(phase: Phase, outcome: Outcome)
    ensures
        next_phase_spec(phase, outcome) == Phase::Terminated ==> (outcome != Outcome::Done
            || phase == Phase::Terminated),
        phase == Phase::Terminated ==> next_phase_spec(phase, outcome) == Phase::Terminated,
        next_phase_spec(phase, outcome) == Phase::DispatchPre ==> (phase == Phase::UpdateScene
            && outcome == Outcome::Done),
        next_phase_spec(phase, outcome) == Phase::Present ==> phase == Phase::RecordAndSubmit,
{
}

pub open spec fn pre_raster_order() -> Seq<Dispatch> {
    seq![
        Dispatch::SceneManager,
        Dispatch::SceneObjects,
        Dispatch::SpatialFrames,
        Dispatch::SpatialObjects,
        Dispatch::RendererFrames,
    ]
}

pub open spec fn post_raster_order() -> Seq<Dispatch> {
    seq![Dispatch::Lighting, Dispatch::Occlusion, Dispatch::Luminance, Dispatch::Composite]
}

pub open spec fn flush_order_spec() -> Seq<FlushTarget> {
    seq![FlushTarget::SceneManager, FlushTarget::RenderManager, FlushTarget::RenderFrame]
}

/// The compute batch before rasterization: scene-manager streaming, then
/// per-object work, then the spatial and renderer passes over the frames.
pub fn pre_raster_dispatches() -> (r: Vec<Dispatch>)
    ensures
        r@ == pre_raster_order(),
{
    let r = vec![
        Dispatch::SceneManager,
        Dispatch::SceneObjects,
        Dispatch::SpatialFrames,
        Dispatch::SpatialObjects,
        Dispatch::RendererFrames,
    ];
    assert(r@ =~= pre_raster_order());
    r
}

/// The compute batch after rasterization: lighting, occlusion, luminance,
/// composite.
pub fn post_raster_dispatches() -> (r: Vec<Dispatch>)
    ensures
        r@ == post_raster_order(),
{
    let r = vec![Dispatch::Lighting, Dispatch::Occlusion, Dispatch::Luminance, Dispatch::Composite];
    assert(r@ =~= post_raster_order());
    r
}

/// The buffers flushed before the deferred draw, in order.
pub fn flush_order() -> (r: Vec<FlushTarget>)
    ensures
        r@ == flush_order_spec(),
{
    let r = vec![FlushTarget::SceneManager, FlushTarget::RenderManager, FlushTarget::RenderFrame];
    assert(r@ =~= flush_order_spec());
    r
}

/// Whether the off-screen target must be rebuilt: its size differs from the
/// window's.
pub fn needs_resize(target_width: u32, target_height: u32, window_width: u32, window_height: u32) -> (r: bool)
    ensures
        r == (target_width != window_width || target_height != window_height),
{
    target_width != window_width || target_height != window_height
}

} // verus!
