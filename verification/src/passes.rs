//! Per-stage pass execution: resolving source and destination views,
//! building parameter blocks, describing the one draw or dispatch of the
//! stage, and advancing buffer roles — all only if the stage's pipeline
//! is ready and the viewport is not collapsed.
//!
//! The executors do not talk to a device.  They return exact submission
//! records for the host to perform; every claim about what is bound where
//! is part of their contracts.

use vstd::prelude::*;

verus! {

use crate::buffers::{BufferPair, Extent, ImageView, PairId, Slot};
use crate::readiness::{role_after, RefinementPhase};
use crate::registry::{PipelineRegistry, StageId};
use crate::snapshot::{ColorBits, FrameSnapshot, Vec2Bits};

/// Edge length of one compute workgroup; a dispatch covers the viewport
/// with a grid of `ceil(viewport / WORKGROUP_EDGE)` groups in each axis.
pub const WORKGROUP_EDGE: u32 = 8;

/// Parameter block of the canvas stage, bound as its uniform.
#[derive(Clone, Copy, Debug, PartialEq, Eq, Structural)]
pub struct CanvasParams {
    pub resolution: Extent,
    pub radius_squared: u32,
    pub drawing: bool,
    pub from: Vec2Bits,
    pub to: Vec2Bits,
    pub color: ColorBits,
}

/// Parameter block of the propagation stage and of the refinement steps.
#[derive(Clone, Copy, Debug, PartialEq, Eq, Structural)]
pub struct PropagationParams {
    pub resolution: Extent,
    pub ray_count: u32,
    pub max_steps: u32,
}

/// The uniform data a submission carries, by stage family.
#[derive(Clone, Copy, Debug, PartialEq, Eq, Structural)]
pub enum ParamBlock {
    Canvas(CanvasParams),
    Propagation(PropagationParams),
}

/// The one unit of GPU work a stage issues per frame.
#[derive(Clone, Copy, Debug, PartialEq, Eq, Structural)]
pub enum Work {
    /// One full-screen draw: a single triangle covering the viewport,
    /// three vertices, one instance.
    FullscreenDraw,
    /// One compute dispatch sized to cover the viewport in fixed-size
    /// workgroups.
    Dispatch { groups_x: u32, groups_y: u32 },
}

/// One GPU submission, exactly as the host must perform it: which
/// stage's pipeline, which views to bind as source and destination,
/// which parameters, and the draw or dispatch to issue.
#[derive(Clone, Copy, Debug, PartialEq, Eq, Structural)]
pub struct Submission {
    pub stage: StageId,
    pub src: ImageView,
    pub dst: ImageView,
    pub params: ParamBlock,
    pub work: Work,
}

/// The canvas stage consumes the viewport, the squared brush radius, the
/// stroke segment and the brush color.
pub open spec fn canvas_params_spec(snap: FrameSnapshot) -> CanvasParams {
    CanvasParams {
        resolution: snap.viewport,
        radius_squared: snap.brush_radius_squared,
        drawing: snap.drawing,
        from: snap.from,
        to: snap.to,
        color: snap.brush_color,
    }
}

/// The propagation stage consumes the viewport, the ray count and the
/// march step bound.
pub open spec fn propagation_params_spec(snap: FrameSnapshot) -> PropagationParams {
    PropagationParams {
        resolution: snap.viewport,
        ray_count: snap.ray_count,
        max_steps: snap.max_steps,
    }
}

/// The compute grid covering the viewport: `ceil(side / 8)` workgroups
/// in each axis.
pub open spec fn dispatch_spec(viewport: Extent) -> Work {
    Work::Dispatch {
        groups_x: ((viewport.width + 7) / 8) as u32,
        groups_y: ((viewport.height + 7) / 8) as u32,
    }
}

/// The slot a refinement role names: role 0 is slot 0, role 1 is slot 1.
pub open spec fn slot_of_role(role: bool) -> Slot {
    if role {
        Slot::Slot1
    } else {
        Slot::Slot0
    }
}

/// The canvas stage's submission: it reads the pair's front slot, writes
/// the other, and composites the current stroke segment.
pub open spec fn canvas_submission(pair: BufferPair, snap: FrameSnapshot) -> Submission {
    Submission {
        stage: StageId::Canvas,
        src: pair.current_view(),
        dst: pair.target_view(),
        params: ParamBlock::Canvas(canvas_params_spec(snap)),
        work: Work::FullscreenDraw,
    }
}

/// The propagation stage's submission: it reads the canvas pair's front
/// slot — the texture the canvas stage just committed — and writes the
/// propagation pair's target slot, keeping the drawn strokes and the
/// propagated light in separate pairs.
pub open spec fn propagation_submission(canvas_pair: BufferPair, prop_pair: BufferPair, snap: FrameSnapshot) -> Submission {
    Submission {
        stage: StageId::Propagation,
        src: canvas_pair.current_view(),
        dst: prop_pair.target_view(),
        params: ParamBlock::Propagation(propagation_params_spec(snap)),
        work: Work::FullscreenDraw,
    }
}

/// The refinement stage's seeding dispatch: it reads the canvas pair's
/// front slot and writes slot 0 of the propagation pair, the slot the
/// first step reads (role 0).
pub open spec fn refinement_init_submission(canvas_pair: BufferPair, prop_pair: BufferPair, snap: FrameSnapshot) -> Submission {
    Submission {
        stage: StageId::Refinement,
        src: canvas_pair.current_view(),
        dst: prop_pair.view_spec(Slot::Slot0),
        params: ParamBlock::Propagation(propagation_params_spec(snap)),
        work: dispatch_spec(snap.viewport),
    }
}

/// Step `j` of a refinement run that started at internal role `start`:
/// it reads the slot the current role names and writes the other slot,
/// after which the role is flipped.
pub open spec fn refinement_step_submission(prop_pair: BufferPair, snap: FrameSnapshot, start: bool, j: nat) -> Submission {
    Submission {
        stage: StageId::Refinement,
        src: prop_pair.view_spec(slot_of_role(role_after(start, j))),
        dst: prop_pair.view_spec(slot_of_role(!role_after(start, j))),
        params: ParamBlock::Propagation(propagation_params_spec(snap)),
        work: dispatch_spec(snap.viewport),
    }
}

/// A whole refinement run: `count` steps, roles alternating from
/// `start`.
pub open spec fn refinement_steps(prop_pair: BufferPair, snap: FrameSnapshot, start: bool, count: nat) -> Seq<Submission> {
    Seq::new(count, |j: int| refinement_step_submission(prop_pair, snap, start, j as nat))
}

/// Does the refinement stage run this frame at all?
pub open spec fn refinement_runs(registry: PipelineRegistry, snap: FrameSnapshot) -> bool {
    registry.ready_spec(StageId::Refinement) && !snap.viewport.is_zero()
}

/// The refinement sub-machine after one frame in which the stage ran:
/// an uninitialized ping-pong is seeded; otherwise `budget` steps run
/// and the internal role ends at the matching parity.
pub open spec fn refinement_phase_after(phase: RefinementPhase, budget: nat) -> RefinementPhase {
    match phase {
        RefinementPhase::Uninitialized => RefinementPhase::Initialized,
        _ => RefinementPhase::Stepping { role: role_after(phase.starting_role(), budget) },
    }
}

/// The submissions one frame of the refinement stage issues.
pub open spec fn refinement_submissions(canvas_pair: BufferPair, prop_pair: BufferPair, snap: FrameSnapshot, phase: RefinementPhase, budget: nat) -> Seq<Submission> {
    match phase {
        RefinementPhase::Uninitialized => seq![
            refinement_init_submission(canvas_pair, prop_pair, snap),
        ],
        _ => refinement_steps(prop_pair, snap, phase.starting_role(), budget),
    }
}

/// No refinement step reads the slot it writes: step `j` reads the slot
/// of one role and writes the slot of the opposite role, whatever the
/// starting role and however long the run.
pub proof fn lemma_refinement_steps_never_alias(prop_pair: BufferPair, snap: FrameSnapshot, start: bool, count: nat)
    ensures
        forall|j: int|
            0 <= j < count ==> (#[trigger] refinement_steps(prop_pair, snap, start, count)[j]).src.slot
                != refinement_steps(prop_pair, snap, start, count)[j].dst.slot,
{
}

/// For a viewport with texels, the dispatch grid is never empty and is
/// exactly large enough: every axis is covered by its workgroups, and
/// dropping one row or column of groups would leave texels uncovered.
/// A zero-sized dispatch with a nonzero workgroup count cannot arise.
pub proof fn lemma_dispatch_covers_viewport(viewport: Extent)
    requires
        !viewport.is_zero(),
    ensures
        dispatch_spec(viewport) matches Work::Dispatch { groups_x, groups_y } && {
            &&& 1 <= groups_x
            &&& 1 <= groups_y
            &&& viewport.width <= 8 * groups_x < viewport.width + 8
            &&& viewport.height <= 8 * groups_y < viewport.height + 8
        },
{
    let w = viewport.width as int;
    let h = viewport.height as int;
    assert(w <= 8 * ((w + 7) / 8) < w + 8) by (nonlinear_arith)
        requires 1 <= w;
    assert(h <= 8 * ((h + 7) / 8) < h + 8) by (nonlinear_arith)
        requires 1 <= h;
}

/// Size the compute grid to cover the viewport.
fn dispatch_for(viewport: Extent) -> (w: Work)
    requires
        !viewport.is_zero(),
    ensures
        w == dispatch_spec(viewport),
{
    let groups_x = ((viewport.width as u64 + 7) / 8) as u32;
    let groups_y = ((viewport.height as u64 + 7) / 8) as u32;
    Work::Dispatch { groups_x, groups_y }
}

/// Run the canvas stage for one frame, if its pipeline is ready and the
/// viewport is not collapsed.  On a run, the returned submission reads
/// the old front slot, writes the old target slot, and the pair's roles
/// are flipped — the flip happens only with a submission, never without
/// one, so a skipped frame leaves the previous front slot valid.
pub fn execute_canvas(registry: &PipelineRegistry, pair: &mut BufferPair, snap: &FrameSnapshot) -> (r: Option<Submission>)
    requires
        old(pair).wf(),
        old(pair).id == PairId::Canvas,
    ensures
        r is Some <==> (registry.ready_spec(StageId::Canvas) && !snap.viewport.is_zero()),
        r matches Some(s) ==> s == canvas_submission(*old(pair), *snap),
        r is Some ==> *final(pair) == old(pair).flipped(),
        r is None ==> *final(pair) == *old(pair),
{
    if !registry.is_ready(StageId::Canvas) {
        return None;
    }
    if snap.viewport.has_zero_side() {
        return None;
    }
    let src = pair.current();
    let dst = pair.target();
    // A pass must never bind the same slot as both source and
    // destination; this is proved, not just checked at run time.
    assert(src.slot != dst.slot);
    let submission = Submission {
        stage: StageId::Canvas,
        src,
        dst,
        params: ParamBlock::Canvas(
            CanvasParams {
                resolution: snap.viewport,
                radius_squared: snap.brush_radius_squared,
                drawing: snap.drawing,
                from: snap.from,
                to: snap.to,
                color: snap.brush_color,
            },
        ),
        work: Work::FullscreenDraw,
    };
    pair.flip();
    Some(submission)
}

/// Run the propagation stage for one frame, if its pipeline is ready and
/// the viewport is not collapsed.  `canvas_pair` is the canvas pair as
/// the canvas stage left it this frame: the source is its front slot,
/// so a chained pass sees a consistent view of the latest canvas.
pub fn execute_propagation(registry: &PipelineRegistry, canvas_pair: &BufferPair, pair: &mut BufferPair, snap: &FrameSnapshot) -> (r: Option<Submission>)
    requires
        canvas_pair.wf(),
        canvas_pair.id == PairId::Canvas,
        old(pair).wf(),
        old(pair).id == PairId::Propagation,
    ensures
        r is Some <==> (registry.ready_spec(StageId::Propagation) && !snap.viewport.is_zero()),
        r matches Some(s) ==> s == propagation_submission(*canvas_pair, *old(pair), *snap),
        r is Some ==> *final(pair) == old(pair).flipped(),
        r is None ==> *final(pair) == *old(pair),
{
    if !registry.is_ready(StageId::Propagation) {
        return None;
    }
    if snap.viewport.has_zero_side() {
        return None;
    }
    let src = canvas_pair.current();
    let dst = pair.target();
    // Source and destination live in different pairs, so they can never
    // alias.
    assert(src.pair != dst.pair);
    let submission = Submission {
        stage: StageId::Propagation,
        src,
        dst,
        params: ParamBlock::Propagation(
            PropagationParams {
                resolution: snap.viewport,
                ray_count: snap.ray_count,
                max_steps: snap.max_steps,
            },
        ),
        work: Work::FullscreenDraw,
    };
    pair.flip();
    Some(submission)
}

/// Run the refinement stage for one frame, if its pipeline is ready and
/// the viewport is not collapsed, appending its submissions to `out`.
///
/// The first running frame seeds the internal ping-pong from the canvas.
/// Every later running frame issues `budget` dispatches; each one reads
/// the propagation-pair slot the internal role names and writes the
/// other, then flips the role.  The internal role is independent of the
/// pair's own front flag, which this stage never touches.
pub fn execute_refinement(registry: &PipelineRegistry, canvas_pair: &BufferPair, pair: &BufferPair, phase: &mut RefinementPhase, budget: u32, snap: &FrameSnapshot, out: &mut Vec<Submission>)
    requires
        canvas_pair.wf(),
        canvas_pair.id == PairId::Canvas,
        pair.wf(),
        pair.id == PairId::Propagation,
    ensures
        !refinement_runs(*registry, *snap) ==> *final(phase) == *old(phase) && final(out)@ == old(
            out,
        )@,
        refinement_runs(*registry, *snap) ==> *final(phase) == refinement_phase_after(
            *old(phase),
            budget as nat,
        ) && final(out)@ == old(out)@ + refinement_submissions(
            *canvas_pair,
            *pair,
            *snap,
            *old(phase),
            budget as nat,
        ),
{
    if !registry.is_ready(StageId::Refinement) {
        return ;
    }
    if snap.viewport.has_zero_side() {
        return ;
    }
    let params = ParamBlock::Propagation(
        PropagationParams {
            resolution: snap.viewport,
            ray_count: snap.ray_count,
            max_steps: snap.max_steps,
        },
    );
    let work = dispatch_for(snap.viewport);
    let is_uninitialized = match *phase {
        RefinementPhase::Uninitialized => true,
        _ => false,
    };
    if is_uninitialized {
        let submission = Submission {
            stage: StageId::Refinement,
            src: canvas_pair.current(),
            dst: ImageView {
                pair: pair.id,
                slot: Slot::Slot0,
                size: pair.slot0.size,
                format: pair.slot0.format,
            },
            params,
            work,
        };
        out.push(submission);
        *phase = RefinementPhase::Initialized;
        assert(out@ =~= old(out)@ + refinement_submissions(
            *canvas_pair,
            *pair,
            *snap,
            *old(phase),
            budget as nat,
        ));
        return ;
    }
    let start = match *phase {
        RefinementPhase::Stepping { role } => role,
        _ => false,
    };
    let ghost prior = out@;
    let mut role = start;
    let mut i: u32 = 0;
    while i < budget
        invariant
            i <= budget,
            pair.wf(),
            pair.id == PairId::Propagation,
            !snap.viewport.is_zero(),
            role == role_after(start, i as nat),
            params == ParamBlock::Propagation(propagation_params_spec(*snap)),
            work == dispatch_spec(snap.viewport),
            out@.len() == prior.len() + i,
            forall|j: int|
                0 <= j < i ==> #[trigger] out@[prior.len() + j] == refinement_step_submission(
                    *pair,
                    *snap,
                    start,
                    j as nat,
                ),
            forall|j: int| 0 <= j < prior.len() ==> out@[j] == prior[j],
        decreases budget - i,
    {
        let src_slot = if role {
            Slot::Slot1
        } else {
            Slot::Slot0
        };
        let dst_slot = if role {
            Slot::Slot0
        } else {
            Slot::Slot1
        };
        // The internal ping-pong never reads the slot it writes.
        assert(src_slot != dst_slot);
        let submission = Submission {
            stage: StageId::Refinement,
            src: ImageView {
                pair: pair.id,
                slot: src_slot,
                size: pair.slot0.size,
                format: pair.slot0.format,
            },
            dst: ImageView {
                pair: pair.id,
                slot: dst_slot,
                size: pair.slot0.size,
                format: pair.slot0.format,
            },
            params,
            work,
        };
        out.push(submission);
        proof {
            assert((i + 1) % 2 != i % 2);
        }
        role = !role;
        i = i + 1;
    }
    *phase = RefinementPhase::Stepping { role };
    proof {
        let steps = refinement_steps(*pair, *snap, start, budget as nat);
        assert forall|k: int| 0 <= k < out@.len() implies out@[k] == (prior + steps)[k] by {
            if prior.len() <= k {
                let j = k - prior.len();
                assert(out@[prior.len() + j] == refinement_step_submission(
                    *pair,
                    *snap,
                    start,
                    j as nat,
                ));
            }
        }
        assert(out@ =~= prior + steps);
    }
}

} // verus!
