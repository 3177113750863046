//! Lifecycle tracking for asynchronously compiled pipelines.
//!
//! Compilation is submitted once at startup and polled, never awaited:
//! each frame the host reports what the compiler currently says, and the
//! state machine advances.  `Loading` moves one way to `Ready`; a compile
//! failure moves to `Failed`, which is terminal — the stage is then
//! permanently skipped and the condition surfaced once to the host as a
//! non-fatal degraded-mode signal, never a process abort.
//!
//! The multi-step refinement stage additionally runs a sub-machine of its
//! own once its pipeline is ready: `Uninitialized` until a seeding
//! dispatch was issued, then `Initialized`, then `Stepping(role)` where
//! the binary role drives which slot of the stage's internal ping-pong is
//! read and which is written — independent of the outer buffer-pair role
//! flags.

use vstd::prelude::*;

verus! {

/// Compilation lifecycle of one pipeline.
#[derive(Clone, Copy, Debug, PartialEq, Eq, Structural)]
pub enum PipelineStatus {
    Loading,
    Ready,
    Failed,
}

/// What one poll of the asynchronous compiler reported.
#[derive(Clone, Copy, Debug, PartialEq, Eq, Structural)]
pub enum CompilePoll {
    Pending,
    Compiled,
    Error,
}

/// One transition of the lifecycle machine.  `Ready` and `Failed` are
/// terminal; only `Loading` moves, and only as the poll dictates.
pub open spec fn status_step(status: PipelineStatus, poll: CompilePoll) -> PipelineStatus {
    match status {
        PipelineStatus::Loading => match poll {
            CompilePoll::Pending => PipelineStatus::Loading,
            CompilePoll::Compiled => PipelineStatus::Ready,
            CompilePoll::Error => PipelineStatus::Failed,
        },
        PipelineStatus::Ready => PipelineStatus::Ready,
        PipelineStatus::Failed => PipelineStatus::Failed,
    }
}

/// Advance a lifecycle state by one poll result.
pub fn advance_status(status: PipelineStatus, poll: CompilePoll) -> (r: PipelineStatus)
    ensures
        r == status_step(status, poll),
{
    match status {
        PipelineStatus::Loading => match poll {
            CompilePoll::Pending => PipelineStatus::Loading,
            CompilePoll::Compiled => PipelineStatus::Ready,
            CompilePoll::Error => PipelineStatus::Failed,
        },
        PipelineStatus::Ready => PipelineStatus::Ready,
        PipelineStatus::Failed => PipelineStatus::Failed,
    }
}

/// The lifecycle state after a whole sequence of polls.
pub open spec fn status_after(status: PipelineStatus, polls: Seq<CompilePoll>) -> PipelineStatus
    decreases polls.len(),
{
    if polls.len() == 0 {
        status
    } else {
        status_after(status_step(status, polls[0]), polls.skip(1))
    }
}

/// The lifecycle is monotonic and one-way: once `Ready`, a pipeline stays
/// `Ready` under every further poll sequence, and once `Failed` it stays
/// `Failed` — a failure is reported, not retried.
pub proof fn lemma_status_terminal(status: PipelineStatus, polls: Seq<CompilePoll>)
    ensures
        status is Ready ==> status_after(status, polls) is Ready,
        status is Failed ==> status_after(status, polls) is Failed,
    decreases polls.len(),
{
    if polls.len() > 0 {
        lemma_status_terminal(status_step(status, polls[0]), polls.skip(1));
    }
}

/// Whatever it reports over however many frames, a poll sequence leaves a
/// pipeline in exactly one of the three states, and it reaches `Ready`
/// or `Failed` only through what the compiler reported.
pub proof fn lemma_status_step_cases(status: PipelineStatus, poll: CompilePoll)
    ensures
        status_step(status, poll) is Ready <==> (status is Ready || (status is Loading
            && poll is Compiled)),
        status_step(status, poll) is Failed <==> (status is Failed || (status is Loading
            && poll is Error)),
{
}

/// Sub-machine of the multi-step refinement stage.
#[derive(Clone, Copy, Debug, PartialEq, Eq, Structural)]
pub enum RefinementPhase {
    /// The stage's internal ping-pong holds nothing usable yet.
    Uninitialized,
    /// The seeding dispatch was issued; stepping starts at role 0.
    Initialized,
    /// Stepping is under way; `role` is the parity of the internal
    /// ping-pong: the next step reads the slot `role` names and writes
    /// the other.
    Stepping { role: bool },
}

impl RefinementPhase {
    /// The internal role the next step starts from.
    pub open spec fn starting_role(self) -> bool {
        match self {
            RefinementPhase::Uninitialized => false,
            RefinementPhase::Initialized => false,
            RefinementPhase::Stepping { role } => role,
        }
    }
}

/// The internal role after `steps` alternations from `start`: the role
/// flips on every step, so only the parity of the step count matters.
pub open spec fn role_after(start: bool, steps: nat) -> bool {
    if steps % 2 == 0 {
        start
    } else {
        !start
    }
}

/// The internal refinement role alternates on every step: step `j` moves
/// the role from `role_after(start, j)` to its negation, and a whole run
/// of `steps` steps lands on `start` exactly when `steps` is even.
pub proof fn lemma_role_alternation(start: bool, steps: nat)
    ensures
        role_after(start, 0) == start,
        forall|j: nat| j < steps ==> role_after(start, (j + 1) as nat) == !#[trigger] role_after(
            start,
            j,
        ),
        role_after(start, steps) == if steps % 2 == 0 {
            start
        } else {
            !start
        },
{
    assert forall|j: nat| j < steps implies role_after(start, (j + 1) as nat) == !#[trigger] role_after(
        start,
        j,
    ) by {
        assert((j + 1) % 2 != j % 2);
    }
}

} // verus!
