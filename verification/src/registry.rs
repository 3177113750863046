//! The registry of compiled pipeline handles.
//!
//! The stage set is closed and small, so the registry is a plain struct
//! with one handle per stage rather than an open-ended map.  A handle is
//! created once at startup in the `Loading` state and is immutable
//! thereafter except for its lifecycle state, which advances as the
//! asynchronous compiler is polled.

use vstd::prelude::*;

verus! {

use crate::readiness::{status_step, CompilePoll, PipelineStatus};

/// The three fixed stages, in their per-frame order.
#[derive(Clone, Copy, Debug, PartialEq, Eq, Structural)]
pub enum StageId {
    Canvas,
    Propagation,
    Refinement,
}

/// Shape of a stage's bind group: a sampled source texture with sampler
/// and parameter uniform for draw-style stages, or a read-only plus a
/// write-only storage image for compute-style stages.
#[derive(Clone, Copy, Debug, PartialEq, Eq, Structural)]
pub enum LayoutKind {
    TextureSamplerUniform,
    StoragePair,
}

/// One pipeline: its bind-group layout and its compilation lifecycle.
/// The handle stands for an engine-side pipeline object; the host keeps
/// the actual object, keyed by the stage.
#[derive(Clone, Copy, Debug, PartialEq, Eq, Structural)]
pub struct PipelineHandle {
    pub layout: LayoutKind,
    pub status: PipelineStatus,
}

/// One handle per stage.
#[derive(Clone, Copy, Debug, PartialEq, Eq, Structural)]
pub struct PipelineRegistry {
    pub canvas: PipelineHandle,
    pub propagation: PipelineHandle,
    pub refinement: PipelineHandle,
}

impl PipelineRegistry {
    /// The two draw-style stages sample a texture; the refinement stage
    /// is compute-style and binds a storage image pair.
    pub open spec fn wf(self) -> bool {
        &&& self.canvas.layout == LayoutKind::TextureSamplerUniform
        &&& self.propagation.layout == LayoutKind::TextureSamplerUniform
        &&& self.refinement.layout == LayoutKind::StoragePair
    }

    pub open spec fn handle_of(self, stage: StageId) -> PipelineHandle {
        match stage {
            StageId::Canvas => self.canvas,
            StageId::Propagation => self.propagation,
            StageId::Refinement => self.refinement,
        }
    }

    pub open spec fn status_of(self, stage: StageId) -> PipelineStatus {
        self.handle_of(stage).status
    }

    /// The readiness query gating execution of a stage.
    pub open spec fn ready_spec(self, stage: StageId) -> bool {
        self.status_of(stage) is Ready
    }

    /// The registry after one frame's poll of all three compilations.
    pub open spec fn polled_spec(self, canvas: CompilePoll, propagation: CompilePoll, refinement: CompilePoll) -> PipelineRegistry {
        PipelineRegistry {
            canvas: PipelineHandle {
                layout: self.canvas.layout,
                status: status_step(self.canvas.status, canvas),
            },
            propagation: PipelineHandle {
                layout: self.propagation.layout,
                status: status_step(self.propagation.status, propagation),
            },
            refinement: PipelineHandle {
                layout: self.refinement.layout,
                status: status_step(self.refinement.status, refinement),
            },
        }
    }

    /// The registry as it stands right after startup: all three
    /// pipelines registered and still compiling.
    pub open spec fn initial_spec() -> PipelineRegistry {
        PipelineRegistry {
            canvas: PipelineHandle {
                layout: LayoutKind::TextureSamplerUniform,
                status: PipelineStatus::Loading,
            },
            propagation: PipelineHandle {
                layout: LayoutKind::TextureSamplerUniform,
                status: PipelineStatus::Loading,
            },
            refinement: PipelineHandle {
                layout: LayoutKind::StoragePair,
                status: PipelineStatus::Loading,
            },
        }
    }

    /// Register the three fixed pipelines, all still compiling.
    pub fn new() -> (r: PipelineRegistry)
        ensures
            r == Self::initial_spec(),
            r.wf(),
    {
        PipelineRegistry {
            canvas: PipelineHandle {
                layout: LayoutKind::TextureSamplerUniform,
                status: PipelineStatus::Loading,
            },
            propagation: PipelineHandle {
                layout: LayoutKind::TextureSamplerUniform,
                status: PipelineStatus::Loading,
            },
            refinement: PipelineHandle {
                layout: LayoutKind::StoragePair,
                status: PipelineStatus::Loading,
            },
        }
    }

    pub fn status(&self, stage: StageId) -> (s: PipelineStatus)
        ensures
            s == self.status_of(stage),
    {
        match stage {
            StageId::Canvas => self.canvas.status,
            StageId::Propagation => self.propagation.status,
            StageId::Refinement => self.refinement.status,
        }
    }

    /// May the stage execute this frame?
    pub fn is_ready(&self, stage: StageId) -> (r: bool)
        ensures
            r == self.ready_spec(stage),
    {
        match self.status(stage) {
            PipelineStatus::Ready => true,
            _ => false,
        }
    }

    /// Fold one frame's compiler poll into all three lifecycles.  Runs
    /// once per frame before pass dispatch and never blocks: it records
    /// what the compiler currently says and the frame proceeds or defers.
    pub fn poll_all(&mut self, canvas: CompilePoll, propagation: CompilePoll, refinement: CompilePoll)
        ensures
            *final(self) == old(self).polled_spec(canvas, propagation, refinement),
    {
        self.canvas.status = crate::readiness::advance_status(self.canvas.status, canvas);
        self.propagation.status = crate::readiness::advance_status(
            self.propagation.status,
            propagation,
        );
        self.refinement.status = crate::readiness::advance_status(
            self.refinement.status,
            refinement,
        );
    }
}

/// Polling preserves the registry's shape: layouts never change, and a
/// stage that is not `Loading` keeps its status.
pub proof fn lemma_poll_preserves_shape(r: PipelineRegistry, canvas: CompilePoll, propagation: CompilePoll, refinement: CompilePoll)
    ensures
        r.wf() ==> r.polled_spec(canvas, propagation, refinement).wf(),
        forall|stage: StageId|
            !(#[trigger] r.status_of(stage) is Loading) ==> r.polled_spec(
                canvas,
                propagation,
                refinement,
            ).status_of(stage) == r.status_of(stage),
{
}

} // verus!
