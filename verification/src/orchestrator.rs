//! The per-frame sequencing of the fixed pipeline.
//!
//! The orchestrator owns all buffer pairs, the pipeline registry and the
//! refinement sub-machine.  Once per frame the host hands it the captured
//! input and what the asynchronous pipeline compiler currently reports;
//! the orchestrator extracts the frame snapshot, advances the readiness
//! machines, runs the stages in their fixed order — canvas draw, then
//! propagation, then the optional multi-step refinement — and returns the
//! exact submissions for the host to perform, together with the view to
//! display and any newly degraded stages.
//!
//! Stages whose pipeline is not ready, and frames with a collapsed
//! viewport, are skipped without touching any buffer role, so the
//! previous front slot stays valid.  A compile failure degrades the
//! affected stage permanently and is reported exactly once; the frame
//! loop never aborts.

use vstd::prelude::*;

verus! {

use crate::buffers::{
    AllocationError,
    BufferPair,
    BufferSet,
    Extent,
    ImageFormat,
    ImageUsage,
    ImageView,
    ManagedImage,
    PairId,
};
use crate::passes::{
    canvas_submission,
    execute_canvas,
    execute_propagation,
    execute_refinement,
    propagation_submission,
    refinement_phase_after,
    refinement_submissions,
    Submission,
};
use crate::readiness::{CompilePoll, RefinementPhase};
use crate::registry::{PipelineRegistry, StageId};
use crate::snapshot::{Config, FrameSnapshot, HostInput};

/// What one frame's poll of the asynchronous compiler reported, per
/// stage.
#[derive(Clone, Copy, Debug, PartialEq, Eq, Structural)]
pub struct CompileEvents {
    pub canvas: CompilePoll,
    pub propagation: CompilePoll,
    pub refinement: CompilePoll,
}

/// Stages that moved to `Failed` this frame.  Each stage is reported
/// exactly once, on the frame of its transition; the signal is
/// non-fatal and the loop keeps running every unaffected stage.
#[derive(Clone, Copy, Debug, PartialEq, Eq, Structural)]
pub struct DegradeReport {
    pub canvas_failed: bool,
    pub propagation_failed: bool,
    pub refinement_failed: bool,
}

/// Everything one frame hands back to the host: the GPU submissions to
/// perform in order, the view to display afterwards, and newly degraded
/// stages.
#[derive(Debug, PartialEq, Eq)]
pub struct FrameOutput {
    pub submissions: Vec<Submission>,
    pub display: Option<ImageView>,
    pub degraded: DegradeReport,
}

/// Owner of the whole pipeline state.
#[derive(Clone, Copy, Debug, PartialEq, Eq)]
pub struct Orchestrator {
    pub config: Config,
    pub buffers: BufferSet,
    pub registry: PipelineRegistry,
    pub refinement: RefinementPhase,
    pub previous: FrameSnapshot,
    pub propagation_produced: bool,
}

/// The image both stages' pairs are allocated with.
pub open spec fn stage_image_spec(size: Extent) -> ManagedImage {
    ManagedImage {
        size,
        format: ImageFormat::Rgba8Linear,
        usage: ImageUsage {
            copy_dst: true,
            storage_binding: true,
            texture_binding: true,
            render_attachment: true,
        },
    }
}

/// A freshly allocated stage pair: two equal images, slot 0 in front.
pub open spec fn stage_pair_spec(id: PairId, size: Extent) -> BufferPair {
    BufferPair {
        id,
        slot0: stage_image_spec(size),
        slot1: stage_image_spec(size),
        front_is_slot0: true,
    }
}

/// The buffer set after (re)allocation at `size`: both pairs present
/// with slot 0 in front, or both absent when the size has no texels.
pub open spec fn allocated_buffers(size: Extent) -> BufferSet {
    if size.is_zero() {
        BufferSet { canvas: None, propagation: None }
    } else {
        BufferSet {
            canvas: Some(stage_pair_spec(PairId::Canvas, size)),
            propagation: Some(stage_pair_spec(PairId::Propagation, size)),
        }
    }
}

/// Does the canvas stage run this frame?
pub open spec fn canvas_runs(reg: PipelineRegistry, bufs: BufferSet, snap: FrameSnapshot) -> bool {
    &&& reg.ready_spec(StageId::Canvas)
    &&& bufs.canvas is Some
    &&& !snap.viewport.is_zero()
}

/// Does the propagation stage run this frame?  It needs its own pair
/// as destination and the canvas pair as source.
pub open spec fn propagation_runs(reg: PipelineRegistry, bufs: BufferSet, snap: FrameSnapshot) -> bool {
    &&& reg.ready_spec(StageId::Propagation)
    &&& bufs.canvas is Some
    &&& bufs.propagation is Some
    &&& !snap.viewport.is_zero()
}

/// Does the refinement stage run this frame?  It ping-pongs inside the
/// propagation pair and seeds from the canvas pair.
pub open spec fn refinement_stage_runs(reg: PipelineRegistry, bufs: BufferSet, snap: FrameSnapshot) -> bool {
    &&& reg.ready_spec(StageId::Refinement)
    &&& bufs.canvas is Some
    &&& bufs.propagation is Some
    &&& !snap.viewport.is_zero()
}

impl Orchestrator {
    /// Pairs well formed and correctly keyed, registry layouts fixed,
    /// configuration within its recognized bounds.
    pub open spec fn wf(self) -> bool {
        &&& self.config.wf()
        &&& self.buffers.wf()
        &&& self.registry.wf()
    }

    /// The orchestrator as built at startup.
    pub open spec fn new_spec(viewport: Extent, config: Config) -> Orchestrator {
        Orchestrator {
            config,
            buffers: allocated_buffers(viewport),
            registry: PipelineRegistry::initial_spec(),
            refinement: RefinementPhase::Uninitialized,
            previous: FrameSnapshot::initial_spec(viewport, config),
            propagation_produced: false,
        }
    }

    /// The orchestrator after a window resize: every pair reallocated at
    /// the new size with the role flags reset to their defined initial
    /// state (slot 0 front), the refinement ping-pong back to
    /// uninitialized, nothing produced yet.  Registry, configuration and
    /// the previous snapshot carry over.
    pub open spec fn resized_spec(self, new_size: Extent) -> Orchestrator {
        Orchestrator {
            buffers: allocated_buffers(new_size),
            refinement: RefinementPhase::Uninitialized,
            propagation_produced: false,
            ..self
        }
    }

    /// The registry after this frame's compiler poll.
    pub open spec fn polled_registry(self, events: CompileEvents) -> PipelineRegistry {
        self.registry.polled_spec(events.canvas, events.propagation, events.refinement)
    }

    /// This frame's snapshot, extracted from the host input before any
    /// stage runs.
    pub open spec fn frame_snapshot(self, input: HostInput) -> FrameSnapshot {
        FrameSnapshot::capture_spec(input, self.config, self.previous)
    }

    /// The whole state after one frame.  Each ready stage flips the pair
    /// it wrote; every skipped stage leaves its pair untouched.
    pub open spec fn frame_next(self, input: HostInput, events: CompileEvents) -> Orchestrator {
        let snap = self.frame_snapshot(input);
        let reg = self.polled_registry(events);
        let c_runs = canvas_runs(reg, self.buffers, snap);
        let p_runs = propagation_runs(reg, self.buffers, snap);
        let r_runs = refinement_stage_runs(reg, self.buffers, snap);
        Orchestrator {
            config: self.config,
            buffers: BufferSet {
                canvas: if c_runs {
                    Some(self.buffers.canvas.unwrap().flipped())
                } else {
                    self.buffers.canvas
                },
                propagation: if p_runs {
                    Some(self.buffers.propagation.unwrap().flipped())
                } else {
                    self.buffers.propagation
                },
            },
            registry: reg,
            refinement: if r_runs {
                refinement_phase_after(self.refinement, self.config.refinement_step_budget as nat)
            } else {
                self.refinement
            },
            previous: snap,
            propagation_produced: self.propagation_produced || p_runs,
        }
    }

    /// The submissions one frame issues, in stage order: at most one
    /// canvas draw, at most one propagation draw reading the canvas pair
    /// as the canvas stage left it, then the refinement dispatches.
    pub open spec fn frame_submissions(self, input: HostInput, events: CompileEvents) -> Seq<Submission> {
        let snap = self.frame_snapshot(input);
        let reg = self.polled_registry(events);
        let canvas_after = if canvas_runs(reg, self.buffers, snap) {
            self.buffers.canvas.unwrap().flipped()
        } else {
            self.buffers.canvas.unwrap()
        };
        let c_part: Seq<Submission> = if canvas_runs(reg, self.buffers, snap) {
            seq![canvas_submission(self.buffers.canvas.unwrap(), snap)]
        } else {
            Seq::empty()
        };
        let p_part: Seq<Submission> = if propagation_runs(reg, self.buffers, snap) {
            seq![propagation_submission(canvas_after, self.buffers.propagation.unwrap(), snap)]
        } else {
            Seq::empty()
        };
        let r_part: Seq<Submission> = if refinement_stage_runs(reg, self.buffers, snap) {
            refinement_submissions(
                canvas_after,
                self.buffers.propagation.unwrap(),
                snap,
                self.refinement,
                self.config.refinement_step_budget as nat,
            )
        } else {
            Seq::empty()
        };
        c_part + p_part + r_part
    }

    /// The view the host should display: the front slot of the
    /// propagation pair, or nothing while that stage has not yet
    /// produced a frame since startup or the last resize.
    pub open spec fn display_spec(self) -> Option<ImageView> {
        if self.propagation_produced && self.buffers.propagation is Some {
            Some(self.buffers.propagation.unwrap().current_view())
        } else {
            None
        }
    }

    /// Which stages degrade this frame: exactly those still compiling
    /// whose poll reported a compile error.
    pub open spec fn degrade_spec(self, events: CompileEvents) -> DegradeReport {
        DegradeReport {
            canvas_failed: self.registry.canvas.status is Loading && events.canvas is Error,
            propagation_failed: self.registry.propagation.status is Loading
                && events.propagation is Error,
            refinement_failed: self.registry.refinement.status is Loading
                && events.refinement is Error,
        }
    }

    /// Build the pipeline state at startup: allocate both stage pairs at
    /// the viewport size (none if the window is minimized; the next
    /// resize retries), register the pipelines, and start idle.
    pub fn new(viewport: Extent, config: Config) -> (r: Orchestrator)
        requires
            config.wf(),
        ensures
            r == Self::new_spec(viewport, config),
            r.wf(),
    {
        let buffers = Self::allocate_all(viewport);
        Orchestrator {
            config,
            buffers,
            registry: PipelineRegistry::new(),
            refinement: RefinementPhase::Uninitialized,
            previous: FrameSnapshot::initial(viewport, &config),
            propagation_produced: false,
        }
    }

    /// Reallocate every pair at the new size.  Only safe between frames:
    /// the caller must let in-flight frame work complete or discard it
    /// first.  Fails, leaving both pairs absent, when the new size has
    /// no texels; the failure is recoverable by the next resize.
    pub fn resize(&mut self, new_size: Extent) -> (r: Result<(), AllocationError>)
        ensures
            *final(self) == old(self).resized_spec(new_size),
            final(self).buffers.wf(),
            old(self).wf() ==> final(self).wf(),
            r is Ok <==> !new_size.is_zero(),
            r is Err ==> r == Result::<(), AllocationError>::Err(AllocationError::ZeroExtent),
    {
        self.buffers = Self::allocate_all(new_size);
        self.refinement = RefinementPhase::Uninitialized;
        self.propagation_produced = false;
        if new_size.has_zero_side() {
            Err(AllocationError::ZeroExtent)
        } else {
            Ok(())
        }
    }

    /// Allocate the canvas and propagation pairs at `size`.
    fn allocate_all(size: Extent) -> (r: BufferSet)
        ensures
            r == allocated_buffers(size),
            r.wf(),
    {
        if size.has_zero_side() {
            return BufferSet { canvas: None, propagation: None };
        }
        let usage = ImageUsage::full();
        let canvas = match BufferSet::allocate(PairId::Canvas, size, ImageFormat::Rgba8Linear, usage) {
            Ok(pair) => Some(pair),
            Err(_) => None,
        };
        let propagation = match BufferSet::allocate(
            PairId::Propagation,
            size,
            ImageFormat::Rgba8Linear,
            usage,
        ) {
            Ok(pair) => Some(pair),
            Err(_) => None,
        };
        BufferSet { canvas, propagation }
    }

    /// The view to display right now, without running a frame.
    pub fn display_view(&self) -> (r: Option<ImageView>)
        ensures
            r == self.display_spec(),
    {
        if self.propagation_produced {
            match &self.buffers.propagation {
                Some(pair) => Some(pair.current()),
                None => None,
            }
        } else {
            None
        }
    }

    /// Run one frame: extract the snapshot, fold in the compiler poll,
    /// run every ready stage in the fixed order, flip exactly the pairs
    /// that were written, and hand the host the submissions to perform.
    pub fn run_frame(&mut self, input: &HostInput, events: CompileEvents) -> (out: FrameOutput)
        requires
            old(self).wf(),
        ensures
            *final(self) == old(self).frame_next(*input, events),
            final(self).wf(),
            out.submissions@ == old(self).frame_submissions(*input, events),
            out.display == old(self).frame_next(*input, events).display_spec(),
            out.degraded == old(self).degrade_spec(events),
    {
        let snap = FrameSnapshot::capture(input, &self.config, &self.previous);
        self.previous = snap;
        let canvas_was_loading = match self.registry.canvas.status {
            crate::readiness::PipelineStatus::Loading => true,
            _ => false,
        };
        let propagation_was_loading = match self.registry.propagation.status {
            crate::readiness::PipelineStatus::Loading => true,
            _ => false,
        };
        let refinement_was_loading = match self.registry.refinement.status {
            crate::readiness::PipelineStatus::Loading => true,
            _ => false,
        };
        let degraded = DegradeReport {
            canvas_failed: canvas_was_loading && matches!(events.canvas, CompilePoll::Error),
            propagation_failed: propagation_was_loading && matches!(
                events.propagation,
                CompilePoll::Error,
            ),
            refinement_failed: refinement_was_loading && matches!(
                events.refinement,
                CompilePoll::Error,
            ),
        };
        self.registry.poll_all(events.canvas, events.propagation, events.refinement);
        let mut submissions: Vec<Submission> = Vec::new();
        if let Some(pair_in) = self.buffers.canvas {
            let mut pair = pair_in;
            let r = execute_canvas(&self.registry, &mut pair, &snap);
            self.buffers.canvas = Some(pair);
            if let Some(sub) = r {
                submissions.push(sub);
            }
        }
        if let Some(canvas_pair) = self.buffers.canvas {
            if let Some(pair_in) = self.buffers.propagation {
                let pair_before = pair_in;
                let mut pair = pair_in;
                let r = execute_propagation(&self.registry, &canvas_pair, &mut pair, &snap);
                self.buffers.propagation = Some(pair);
                if let Some(sub) = r {
                    submissions.push(sub);
                    self.propagation_produced = true;
                }
                let mut phase = self.refinement;
                execute_refinement(
                    &self.registry,
                    &canvas_pair,
                    &pair_before,
                    &mut phase,
                    self.config.refinement_step_budget,
                    &snap,
                    &mut submissions,
                );
                self.refinement = phase;
            }
        }
        let display = self.display_view();
        assert(submissions@ =~= old(self).frame_submissions(*input, events));
        FrameOutput { submissions, display, degraded }
    }
}

/// Does some submission in the list use the given stage's pipeline?
pub open spec fn issues_stage(subs: Seq<Submission>, stage: StageId) -> bool {
    exists|i: int| 0 <= i < subs.len() && #[trigger] subs[i].stage == stage
}

/// A stage whose pipeline is not ready — still loading, or failed — never
/// issues a submission and never flips buffer roles: its pair (for the
/// refinement stage, its internal role) is unchanged frame-over-frame, so
/// the previously committed front slot stays what the host displays.
pub proof fn lemma_unready_stage_is_inert(pre: Orchestrator, input: HostInput, events: CompileEvents)
    ensures
        !pre.polled_registry(events).ready_spec(StageId::Canvas) ==> pre.frame_next(
            input,
            events,
        ).buffers.canvas == pre.buffers.canvas && !issues_stage(
            pre.frame_submissions(input, events),
            StageId::Canvas,
        ),
        !pre.polled_registry(events).ready_spec(StageId::Propagation) ==> pre.frame_next(
            input,
            events,
        ).buffers.propagation == pre.buffers.propagation && !issues_stage(
            pre.frame_submissions(input, events),
            StageId::Propagation,
        ),
        !pre.polled_registry(events).ready_spec(StageId::Refinement) ==> pre.frame_next(
            input,
            events,
        ).refinement == pre.refinement && !issues_stage(
            pre.frame_submissions(input, events),
            StageId::Refinement,
        ),
{
    let subs = pre.frame_submissions(input, events);
    assert forall|i: int| 0 <= i < subs.len() implies pre.polled_registry(events).ready_spec(
        #[trigger] subs[i].stage,
    ) by {
        let snap = pre.frame_snapshot(input);
        let reg = pre.polled_registry(events);
        let c_len: int = if canvas_runs(reg, pre.buffers, snap) {
            1
        } else {
            0
        };
        let p_len: int = if propagation_runs(reg, pre.buffers, snap) {
            1
        } else {
            0
        };
        if i < c_len {
            assert(subs[i].stage == StageId::Canvas);
        } else if i < c_len + p_len {
            assert(subs[i].stage == StageId::Propagation);
        } else {
            assert(subs[i].stage == StageId::Refinement);
        }
    }
}

/// No submission of any frame ever binds the same image as both source
/// and destination: within a pair the two roles name different slots,
/// and across pairs the views differ already by their pair.
pub proof fn lemma_no_submission_aliases(pre: Orchestrator, input: HostInput, events: CompileEvents)
    requires
        pre.wf(),
    ensures
        forall|i: int|
            0 <= i < pre.frame_submissions(input, events).len() ==> (#[trigger] pre.frame_submissions(
                input,
                events,
            )[i]).src != pre.frame_submissions(input, events)[i].dst,
{
    let subs = pre.frame_submissions(input, events);
    assert forall|i: int| 0 <= i < subs.len() implies (#[trigger] subs[i]).src != subs[i].dst by {
        let snap = pre.frame_snapshot(input);
        let reg = pre.polled_registry(events);
        let c_len: int = if canvas_runs(reg, pre.buffers, snap) {
            1
        } else {
            0
        };
        let p_len: int = if propagation_runs(reg, pre.buffers, snap) {
            1
        } else {
            0
        };
        if i < c_len {
            assert(subs[i].src.slot != subs[i].dst.slot);
        } else if i < c_len + p_len {
            assert(subs[i].src.pair == PairId::Canvas && subs[i].dst.pair == PairId::Propagation);
        } else {
            match pre.refinement {
                RefinementPhase::Uninitialized => {
                    assert(subs[i].src.pair == PairId::Canvas && subs[i].dst.pair
                        == PairId::Propagation);
                },
                _ => {
                    assert(subs[i].src.slot != subs[i].dst.slot);
                },
            }
        }
    }
}

/// A resize to a collapsed extent leaves both pairs unallocated; the
/// following resize back to a real extent reproduces a pipeline whose
/// front slots are deterministically slot 0, at the new size.
pub proof fn lemma_resize_roundtrip(s: Orchestrator, collapsed: Extent, size: Extent)
    requires
        collapsed.is_zero(),
        !size.is_zero(),
    ensures
        s.resized_spec(collapsed).buffers.canvas is None,
        s.resized_spec(collapsed).buffers.propagation is None,
        s.resized_spec(collapsed).resized_spec(size).buffers.canvas matches Some(p)
            && p.front_is_slot0 && p.size() == size,
        s.resized_spec(collapsed).resized_spec(size).buffers.propagation matches Some(p)
            && p.front_is_slot0 && p.size() == size,
{
}

/// Two consecutive frames on a ready pipeline issue one canvas and one
/// propagation submission each — two submissions and two role flips per
/// pair in all — and an even number of flips leaves every front slot at
/// its starting parity.
pub proof fn lemma_two_ready_frames_restore_parity(s0: Orchestrator, input: HostInput, events: CompileEvents)
    requires
        s0.registry.canvas.status is Ready,
        s0.registry.propagation.status is Ready,
        s0.buffers.canvas is Some,
        s0.buffers.propagation is Some,
        !input.viewport.is_zero(),
    ensures
        s0.frame_submissions(input, events)[0] == canvas_submission(
            s0.buffers.canvas.unwrap(),
            s0.frame_snapshot(input),
        ),
        s0.frame_submissions(input, events)[1] == propagation_submission(
            s0.buffers.canvas.unwrap().flipped(),
            s0.buffers.propagation.unwrap(),
            s0.frame_snapshot(input),
        ),
        s0.frame_next(input, events).frame_submissions(input, events)[0] == canvas_submission(
            s0.buffers.canvas.unwrap().flipped(),
            s0.frame_next(input, events).frame_snapshot(input),
        ),
        s0.frame_next(input, events).frame_submissions(input, events)[1]
            == propagation_submission(
            s0.buffers.canvas.unwrap(),
            s0.buffers.propagation.unwrap().flipped(),
            s0.frame_next(input, events).frame_snapshot(input),
        ),
        s0.frame_next(input, events).frame_next(input, events).buffers.canvas.unwrap().front_is_slot0
            == s0.buffers.canvas.unwrap().front_is_slot0,
        s0.frame_next(input, events).frame_next(
            input,
            events,
        ).buffers.propagation.unwrap().front_is_slot0
            == s0.buffers.propagation.unwrap().front_is_slot0,
{
    assert(s0.buffers.canvas.unwrap().flipped().flipped() == s0.buffers.canvas.unwrap());
    assert(s0.buffers.propagation.unwrap().flipped().flipped()
        == s0.buffers.propagation.unwrap());
}

} // verus!
