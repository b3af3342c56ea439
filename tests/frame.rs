use revolve_scene::clock::{FrameState, REFRESH_QUANTUM, TICKS_PER_SECOND};
use revolve_scene::driver::{after_step, check, DriverAction, IDLE_SLEEP_MS};
use revolve_scene::frame::{
    flush_order, needs_resize, next_phase, post_raster_dispatches, pre_raster_dispatches,
    Dispatch, FlushTarget, Outcome, Phase,
};
use revolve_scene::interface::logical_width;

#[test]
fn quantum_is_a_thirtieth_of_a_second() {
    assert_eq!(REFRESH_QUANTUM * 30, TICKS_PER_SECOND);
}

#[test]
fn refresh_not_due_within_quantum() {
    let mut s = FrameState::new(1000);
    assert_eq!(s.tick(1000 + REFRESH_QUANTUM), None);
    assert_eq!(s, FrameState { frame_index: 0, last_refresh: 1000 });
    assert!(s.is_due(1001 + REFRESH_QUANTUM));
    assert!(!s.is_due(500));
}

#[test]
fn thirty_quanta_of_steady_frames() {
    let start = 5u64;
    let mut s = FrameState::new(start);
    let mut refreshed = Vec::new();
    for k in 1..=30u64 {
        if let Some(f) = s.tick(start + k * REFRESH_QUANTUM) {
            refreshed.push(f);
        }
    }
    // the first check sees exactly one quantum, which does not exceed it
    assert_eq!(refreshed, (0..29).collect::<Vec<u32>>());
    assert_eq!(s.frame_index, 29);
    assert_eq!(s.last_refresh, start + 29 * REFRESH_QUANTUM);
}

#[test]
fn slow_frames_advance_one_quantum_per_frame() {
    let mut s = FrameState::new(0);
    assert_eq!(s.tick(10 * REFRESH_QUANTUM), Some(0));
    assert_eq!(s.last_refresh, REFRESH_QUANTUM);
    assert_eq!(s.tick(10 * REFRESH_QUANTUM), Some(1));
    assert_eq!(s.last_refresh, 2 * REFRESH_QUANTUM);
    assert_eq!(s.frame_index, 2);
}

#[test]
fn frame_index_wraps() {
    let mut s = FrameState { frame_index: u32::MAX, last_refresh: 0 };
    assert_eq!(s.tick(REFRESH_QUANTUM + 1), Some(u32::MAX));
    assert_eq!(s.frame_index, 0);
}

#[test]
fn full_iteration_order() {
    let mut p = Phase::UpdateLogic;
    let mut seen = vec![p];
    while p != Phase::Present {
        p = next_phase(p, Outcome::Done);
        seen.push(p);
    }
    assert_eq!(
        seen,
        vec![
            Phase::UpdateLogic,
            Phase::MaybeResize,
            Phase::MaybeRefreshTexture,
            Phase::UpdateGraph,
            Phase::UpdateScene,
            Phase::DispatchPre,
            Phase::Flush,
            Phase::DrawDeferred,
            Phase::DispatchPost,
            Phase::UpdateInterface,
            Phase::RecordAndSubmit,
            Phase::Present,
        ]
    );
    assert_eq!(next_phase(Phase::Present, Outcome::Done), Phase::UpdateLogic);
}

#[test]
fn failures_and_skips() {
    assert_eq!(next_phase(Phase::UpdateLogic, Outcome::Failed), Phase::Terminated);
    assert_eq!(next_phase(Phase::MaybeResize, Outcome::Failed), Phase::UpdateLogic);
    assert_eq!(next_phase(Phase::UpdateScene, Outcome::NotReady), Phase::UpdateLogic);
    assert_eq!(next_phase(Phase::UpdateScene, Outcome::Failed), Phase::Terminated);
    assert_eq!(next_phase(Phase::Present, Outcome::Failed), Phase::Terminated);
    assert_eq!(next_phase(Phase::Terminated, Outcome::Done), Phase::Terminated);
}

#[test]
fn dispatch_and_flush_orders() {
    assert_eq!(
        pre_raster_dispatches(),
        vec![
            Dispatch::SceneManager,
            Dispatch::SceneObjects,
            Dispatch::SpatialFrames,
            Dispatch::SpatialObjects,
            Dispatch::RendererFrames,
        ]
    );
    assert_eq!(
        post_raster_dispatches(),
        vec![Dispatch::Lighting, Dispatch::Occlusion, Dispatch::Luminance, Dispatch::Composite]
    );
    assert_eq!(
        flush_order(),
        vec![FlushTarget::SceneManager, FlushTarget::RenderManager, FlushTarget::RenderFrame]
    );
}

#[test]
fn resize_only_on_size_change() {
    assert!(!needs_resize(800, 600, 800, 600));
    assert!(needs_resize(800, 600, 801, 600));
    assert!(needs_resize(800, 600, 800, 599));
}

#[test]
fn logical_width_from_aspect() {
    assert_eq!(logical_width(480, 800, 600), Some(640));
    assert_eq!(logical_width(480, 1000, 600), Some(800));
    assert_eq!(logical_width(480, 800, 0), None);
    assert_eq!(logical_width(u32::MAX, u32::MAX, 1), None);
}

#[test]
fn idle_driver_sleeps_then_exits() {
    // a processing step that never finds work
    let mut actions = Vec::new();
    let mut slept_ms = 0u64;
    let signal_after_rounds = 3;
    let mut rounds = 0;
    loop {
        let terminated = rounds >= signal_after_rounds;
        let a = check(true, terminated);
        actions.push(a);
        if a == DriverAction::Exit {
            break;
        }
        let next = after_step(false);
        actions.push(next);
        if let DriverAction::Sleep(ms) = next {
            slept_ms += ms;
        }
        rounds += 1;
    }
    assert_eq!(slept_ms, 3 * IDLE_SLEEP_MS);
    assert_eq!(actions.len(), 7);
    assert_eq!(actions[1], DriverAction::Sleep(1000));
    assert_eq!(*actions.last().unwrap(), DriverAction::Exit);
    assert_eq!(check(false, false), DriverAction::Exit);
    assert_eq!(after_step(true), DriverAction::Recheck);
}
