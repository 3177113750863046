use cascade_core::buffers::{Extent, Slot};
use cascade_core::orchestrator::{CompileEvents, Orchestrator};
use cascade_core::passes::{ParamBlock, Work};
use cascade_core::readiness::{advance_status, CompilePoll, PipelineStatus, RefinementPhase};
use cascade_core::registry::StageId;
use cascade_core::snapshot::{ColorBits, Config, HostInput};

fn config(budget: u32) -> Config {
    Config {
        brush_radius_squared: 100.0f32.to_bits(),
        brush_color: ColorBits {
            red: 0.0f32.to_bits(),
            green: 0.0f32.to_bits(),
            blue: 1.0f32.to_bits(),
        },
        ray_count: 16,
        max_steps: 256,
        refinement_step_budget: budget,
    }
}

fn viewport() -> Extent {
    Extent { width: 800, height: 600 }
}

fn idle_input(vp: Extent) -> HostInput {
    HostInput { cursor_position: None, button_pressed: false, button_just_pressed: false, viewport: vp }
}

fn pending() -> CompileEvents {
    CompileEvents {
        canvas: CompilePoll::Pending,
        propagation: CompilePoll::Pending,
        refinement: CompilePoll::Pending,
    }
}

fn all_compiled() -> CompileEvents {
    CompileEvents {
        canvas: CompilePoll::Compiled,
        propagation: CompilePoll::Compiled,
        refinement: CompilePoll::Compiled,
    }
}

#[test]
fn status_machine_is_monotonic_and_one_way() {
    assert_eq!(
        advance_status(PipelineStatus::Loading, CompilePoll::Pending),
        PipelineStatus::Loading
    );
    assert_eq!(
        advance_status(PipelineStatus::Loading, CompilePoll::Compiled),
        PipelineStatus::Ready
    );
    assert_eq!(
        advance_status(PipelineStatus::Loading, CompilePoll::Error),
        PipelineStatus::Failed
    );
    assert_eq!(advance_status(PipelineStatus::Ready, CompilePoll::Error), PipelineStatus::Ready);
    assert_eq!(advance_status(PipelineStatus::Ready, CompilePoll::Pending), PipelineStatus::Ready);
    assert_eq!(
        advance_status(PipelineStatus::Failed, CompilePoll::Compiled),
        PipelineStatus::Failed
    );
}

#[test]
fn loading_stages_issue_nothing_and_flip_nothing() {
    let mut orch = Orchestrator::new(viewport(), config(0));
    let front_before = orch.buffers.canvas.unwrap().front_is_slot0;
    let out = orch.run_frame(&idle_input(viewport()), pending());
    assert!(out.submissions.is_empty());
    assert_eq!(out.display, None);
    assert_eq!(orch.buffers.canvas.unwrap().front_is_slot0, front_before);
    assert_eq!(orch.buffers.propagation.unwrap().front_is_slot0, front_before);
    assert_eq!(orch.refinement, RefinementPhase::Uninitialized);
}

#[test]
fn ready_frame_runs_the_stages_in_fixed_order() {
    let mut orch = Orchestrator::new(viewport(), config(0));
    let out = orch.run_frame(&idle_input(viewport()), all_compiled());
    // canvas draw, propagation draw, refinement seeding dispatch
    assert_eq!(out.submissions.len(), 3);
    let canvas = &out.submissions[0];
    assert_eq!(canvas.stage, StageId::Canvas);
    assert_eq!(canvas.src.slot, Slot::Slot0);
    assert_eq!(canvas.dst.slot, Slot::Slot1);
    assert_eq!(canvas.work, Work::FullscreenDraw);
    match &canvas.params {
        ParamBlock::Canvas(p) => {
            assert_eq!(p.resolution, viewport());
            assert_eq!(p.radius_squared, 100.0f32.to_bits());
            assert!(!p.drawing);
        },
        other => panic!("canvas stage carried {:?}", other),
    }
    let prop = &out.submissions[1];
    assert_eq!(prop.stage, StageId::Propagation);
    // reads the canvas slot that was just written (front after the flip)
    assert_eq!(prop.src.pair, canvas.dst.pair);
    assert_eq!(prop.src.slot, canvas.dst.slot);
    assert_eq!(prop.dst.slot, Slot::Slot1);
    match &prop.params {
        ParamBlock::Propagation(p) => {
            assert_eq!(p.resolution, viewport());
            assert_eq!(p.ray_count, 16);
            assert_eq!(p.max_steps, 256);
        },
        other => panic!("propagation stage carried {:?}", other),
    }
    let seed = &out.submissions[2];
    assert_eq!(seed.stage, StageId::Refinement);
    assert_eq!(seed.dst.slot, Slot::Slot0);
    assert_eq!(seed.work, Work::Dispatch { groups_x: 100, groups_y: 75 });
    // the propagation pair flipped, so its front now shows the new frame
    assert_eq!(out.display.unwrap().slot, Slot::Slot1);
}

#[test]
fn dispatch_grid_rounds_the_viewport_up() {
    let vp = Extent { width: 9, height: 8 };
    let mut orch = Orchestrator::new(vp, config(0));
    let out = orch.run_frame(&idle_input(vp), all_compiled());
    let seed = &out.submissions[2];
    assert_eq!(seed.work, Work::Dispatch { groups_x: 2, groups_y: 1 });
}

#[test]
fn refinement_budget_three_alternates_roles_three_times() {
    let mut orch = Orchestrator::new(viewport(), config(3));
    // first running frame seeds the internal ping-pong
    let out = orch.run_frame(&idle_input(viewport()), all_compiled());
    assert_eq!(out.submissions.len(), 3);
    assert_eq!(orch.refinement, RefinementPhase::Initialized);
    // second running frame steps three times from internal role 0
    let out = orch.run_frame(&idle_input(viewport()), pending());
    assert_eq!(out.submissions.len(), 5);
    let steps: Vec<_> =
        out.submissions.iter().filter(|s| s.stage == StageId::Refinement).collect();
    assert_eq!(steps.len(), 3);
    // roles visited after each step: 1, 0, 1
    assert_eq!(steps[0].src.slot, Slot::Slot0);
    assert_eq!(steps[0].dst.slot, Slot::Slot1);
    assert_eq!(steps[1].src.slot, Slot::Slot1);
    assert_eq!(steps[1].dst.slot, Slot::Slot0);
    assert_eq!(steps[2].src.slot, Slot::Slot0);
    assert_eq!(steps[2].dst.slot, Slot::Slot1);
    assert_eq!(orch.refinement, RefinementPhase::Stepping { role: true });
    // a further frame starts from role 1
    let out = orch.run_frame(&idle_input(viewport()), pending());
    let steps: Vec<_> =
        out.submissions.iter().filter(|s| s.stage == StageId::Refinement).collect();
    assert_eq!(steps[0].src.slot, Slot::Slot1);
    assert_eq!(orch.refinement, RefinementPhase::Stepping { role: false });
}

#[test]
fn two_identical_ready_frames_restore_front_parity() {
    let mut orch = Orchestrator::new(viewport(), config(0));
    let start_canvas = orch.buffers.canvas.unwrap().front_is_slot0;
    let start_prop = orch.buffers.propagation.unwrap().front_is_slot0;
    let first = orch.run_frame(&idle_input(viewport()), all_compiled());
    let second = orch.run_frame(&idle_input(viewport()), pending());
    // identical snapshots both frames (idle input is a fixed point)
    assert_eq!(orch.previous, {
        let mut probe = orch;
        probe.run_frame(&idle_input(viewport()), pending());
        probe.previous
    });
    let count = |out: &cascade_core::orchestrator::FrameOutput, stage: StageId| {
        out.submissions.iter().filter(|s| s.stage == stage).count()
    };
    assert_eq!(count(&first, StageId::Canvas) + count(&second, StageId::Canvas), 2);
    assert_eq!(count(&first, StageId::Propagation) + count(&second, StageId::Propagation), 2);
    assert_eq!(orch.buffers.canvas.unwrap().front_is_slot0, start_canvas);
    assert_eq!(orch.buffers.propagation.unwrap().front_is_slot0, start_prop);
}

#[test]
fn resize_to_zero_and_back_restores_slot0_front() {
    let mut orch = Orchestrator::new(viewport(), config(0));
    // disturb the role flags first
    orch.run_frame(&idle_input(viewport()), all_compiled());
    assert!(!orch.buffers.canvas.unwrap().front_is_slot0);
    assert!(orch.resize(Extent { width: 0, height: 0 }).is_err());
    assert!(orch.buffers.canvas.is_none());
    assert!(orch.buffers.propagation.is_none());
    // while minimized, frames are a normal idle condition, not a failure
    let out = orch.run_frame(&idle_input(Extent { width: 0, height: 0 }), pending());
    assert!(out.submissions.is_empty());
    assert!(orch.resize(viewport()).is_ok());
    let canvas = orch.buffers.canvas.unwrap();
    let prop = orch.buffers.propagation.unwrap();
    assert!(canvas.front_is_slot0);
    assert!(prop.front_is_slot0);
    assert_eq!(canvas.slot0.size, viewport());
    assert_eq!(canvas.slot1.size, viewport());
    assert_eq!(orch.refinement, RefinementPhase::Uninitialized);
    // nothing produced since the resize, so nothing to display yet
    assert_eq!(orch.display_view(), None);
}

#[test]
fn zero_viewport_frames_skip_every_stage_without_error() {
    let vp = Extent { width: 0, height: 0 };
    let mut orch = Orchestrator::new(vp, config(2));
    let out = orch.run_frame(&idle_input(vp), all_compiled());
    assert!(out.submissions.is_empty());
    assert_eq!(out.display, None);
    // pipelines still became ready; only the dispatch was skipped
    assert_eq!(orch.registry.canvas.status, PipelineStatus::Ready);
}

#[test]
fn compile_failure_degrades_once_and_freezes_output() {
    let mut orch = Orchestrator::new(viewport(), config(0));
    // canvas and propagation come up; refinement fails to compile
    let events = CompileEvents {
        canvas: CompilePoll::Compiled,
        propagation: CompilePoll::Compiled,
        refinement: CompilePoll::Error,
    };
    let out = orch.run_frame(&idle_input(viewport()), events);
    assert!(!out.degraded.canvas_failed);
    assert!(!out.degraded.propagation_failed);
    assert!(out.degraded.refinement_failed);
    // the unaffected stages ran
    assert_eq!(out.submissions.len(), 2);
    // reported exactly once: the next frame stays quiet about it
    let out = orch.run_frame(&idle_input(viewport()), pending());
    assert!(!out.degraded.refinement_failed);
    assert_eq!(orch.registry.refinement.status, PipelineStatus::Failed);
    // the degraded stage stays skipped; the others keep producing
    assert_eq!(out.submissions.len(), 2);
    assert!(out.display.is_some());
}

#[test]
fn propagation_runs_while_the_canvas_pipeline_lags() {
    let mut orch = Orchestrator::new(viewport(), config(0));
    let events = CompileEvents {
        canvas: CompilePoll::Pending,
        propagation: CompilePoll::Compiled,
        refinement: CompilePoll::Pending,
    };
    let out = orch.run_frame(&idle_input(viewport()), events);
    assert_eq!(out.submissions.len(), 1);
    let prop = &out.submissions[0];
    assert_eq!(prop.stage, StageId::Propagation);
    // it reads the canvas pair's stable front: no canvas pass ran, no flip
    assert_eq!(prop.src.slot, Slot::Slot0);
    assert_eq!(orch.buffers.canvas.unwrap().front_is_slot0, true);
}
