//! Scheduled changes: claiming each due job and applying its flag patch in one transaction.
use crate::json::{json_of, Json};
use crate::status::{status_line, Status};
use serde_json::Value;
use vstd::prelude::*;

verus! {

/// How often due jobs are looked for, in seconds. Ticks that were missed are skipped.
pub const TICK_SECONDS: u64 = 60;

/// How many jobs one pass takes at most.
pub const BATCH: u32 = 50;

/// How long a job rests after an attempt before it is due again, in seconds.
pub const RETRY_AFTER_SECONDS: u64 = 60;

/// What the scheduler does next.
#[derive(Clone, Copy, Debug, PartialEq, Eq)]
pub enum RunStep {
    /// Wait for the next tick.
    AwaitTick,
    /// Take the due jobs.
    ExecuteDue,
}

/// The scheduler waits for a tick, takes the due jobs, and so on for ever.
pub fn run(done: RunStep) -> (next: RunStep)
    ensures
        done is AwaitTick ==> next is ExecuteDue,
        done is ExecuteDue ==> next is AwaitTick,
{
    match done {
        RunStep::AwaitTick => RunStep::ExecuteDue,
        RunStep::ExecuteDue => RunStep::AwaitTick,
    }
}

/// A job that was claimed.
#[derive(Debug, PartialEq, Eq)]
pub struct DueJob {
    pub id: String,
    pub env_id: String,
    pub flag_key: String,
}

/// What a job says.
pub struct JobView {
    pub id: Seq<char>,
    pub env_id: Seq<char>,
    pub flag_key: Seq<char>,
}

impl View for DueJob {
    type V = JobView;

    open spec fn view(&self) -> JobView {
        JobView { id: self.id@, env_id: self.env_id@, flag_key: self.flag_key@ }
    }
}

/// What a pass waits for.
#[derive(Debug, PartialEq, Eq)]
pub enum Phase {
    Begin,
    Claim,
    Savepoint { job: DueJob, patch: Value },
    Lock { job: DueJob, patch: Value },
    Patch { job: DueJob },
    MarkExecuted { job: DueJob, change: Value },
    CommitApplied { job: DueJob, change: Value },
    Emit,
    Rollback { job: DueJob, status: Status },
    RecordFailure,
    CommitFailure,
    Stopped,
}

/// What a phase says.
pub enum PhaseView {
    Begin,
    Claim,
    Savepoint { job: JobView, patch: Json },
    Lock { job: JobView, patch: Json },
    Patch { job: JobView },
    MarkExecuted { job: JobView, change: Json },
    CommitApplied { job: JobView, change: Json },
    Emit,
    Rollback { job: JobView, status: u16 },
    RecordFailure,
    CommitFailure,
    Stopped,
}

impl View for Phase {
    type V = PhaseView;

    open spec fn view(&self) -> PhaseView {
        match self {
            Phase::Begin => PhaseView::Begin,
            Phase::Claim => PhaseView::Claim,
            Phase::Savepoint { job, patch } => PhaseView::Savepoint {
                job: job@,
                patch: json_of(*patch),
            },
            Phase::Lock { job, patch } => PhaseView::Lock { job: job@, patch: json_of(*patch) },
            Phase::Patch { job } => PhaseView::Patch { job: job@ },
            Phase::MarkExecuted { job, change } => PhaseView::MarkExecuted {
                job: job@,
                change: json_of(*change),
            },
            Phase::CommitApplied { job, change } => PhaseView::CommitApplied {
                job: job@,
                change: json_of(*change),
            },
            Phase::Emit => PhaseView::Emit,
            Phase::Rollback { job, status } => PhaseView::Rollback { job: job@, status: status@ },
            Phase::RecordFailure => PhaseView::RecordFailure,
            Phase::CommitFailure => PhaseView::CommitFailure,
            Phase::Stopped => PhaseView::Stopped,
        }
    }
}

/// One pass over the due jobs: the transactions that it may still begin after the present one,
/// and what it waits for.
#[derive(Debug, PartialEq, Eq)]
pub struct DuePass {
    pub rounds_left: u32,
    pub phase: Phase,
}

/// What a pass says.
pub struct PassView {
    pub rounds_left: u32,
    pub phase: PhaseView,
}

impl View for DuePass {
    type V = PassView;

    open spec fn view(&self) -> PassView {
        PassView { rounds_left: self.rounds_left, phase: self.phase@ }
    }
}

/// What a pass asks for.
#[derive(Debug, PartialEq, Eq)]
pub enum PassAction {
    /// Begin a transaction.
    Begin,
    /// Claim the next due job that is not executed, not locked, and not tried in the last so many
    /// seconds.
    Claim { retry_after_seconds: u64 },
    /// Set a savepoint, so that a failed flag write can be undone and the claim kept.
    Savepoint,
    /// Lock the environment, and tell whether it asks for approvals.
    LockEnvironment { env_id: String },
    /// Apply the patch to the flag.
    ApplyPatch { env_id: String, flag_key: String, patch: Value },
    /// Mark the job executed, clear its error and count the attempt.
    MarkExecuted { id: String },
    /// Commit the transaction.
    Commit,
    /// Tell the world of the change that the patch came to.
    Emit { job: DueJob, change: Value },
    /// Undo what was done since the savepoint.
    RollbackToSavepoint,
    /// Note the error on the job and count the attempt, where it is not executed.
    RecordFailure { id: String, error: String },
    /// End the pass. A transaction that is still open is dropped, and nothing of it remains.
    Stop,
}

/// What an action says.
pub enum PassActionView {
    Begin,
    Claim { retry_after_seconds: u64 },
    Savepoint,
    LockEnvironment { env_id: Seq<char> },
    ApplyPatch { env_id: Seq<char>, flag_key: Seq<char>, patch: Json },
    MarkExecuted { id: Seq<char> },
    Commit,
    Emit { job: JobView, change: Json },
    RollbackToSavepoint,
    RecordFailure { id: Seq<char>, error: Seq<char> },
    Stop,
}

impl View for PassAction {
    type V = PassActionView;

    open spec fn view(&self) -> PassActionView {
        match self {
            PassAction::Begin => PassActionView::Begin,
            PassAction::Claim { retry_after_seconds } => PassActionView::Claim {
                retry_after_seconds: *retry_after_seconds,
            },
            PassAction::Savepoint => PassActionView::Savepoint,
            PassAction::LockEnvironment { env_id } => PassActionView::LockEnvironment {
                env_id: env_id@,
            },
            PassAction::ApplyPatch { env_id, flag_key, patch } => PassActionView::ApplyPatch {
                env_id: env_id@,
                flag_key: flag_key@,
                patch: json_of(*patch),
            },
            PassAction::MarkExecuted { id } => PassActionView::MarkExecuted { id: id@ },
            PassAction::Commit => PassActionView::Commit,
            PassAction::Emit { job, change } => PassActionView::Emit {
                job: job@,
                change: json_of(*change),
            },
            PassAction::RollbackToSavepoint => PassActionView::RollbackToSavepoint,
            PassAction::RecordFailure { id, error } => PassActionView::RecordFailure {
                id: id@,
                error: error@,
            },
            PassAction::Stop => PassActionView::Stop,
        }
    }
}

/// What came back.
#[derive(Debug, PartialEq, Eq)]
pub enum PassReply {
    /// It was done.
    Done,
    /// The database failed.
    Failed,
    /// The job that was claimed, with its patch; none where no job is due.
    Claimed(Option<(DueJob, Value)>),
    /// The environment is locked.
    Locked { approval_required: bool },
    /// The patch was applied, and this is the change that it came to.
    Patched(Value),
    /// The environment could not be locked, or the patch could not be applied.
    Refused(Status),
}

/// What a reply says.
pub enum PassReplyView {
    Done,
    Failed,
    Claimed(Option<(JobView, Json)>),
    Locked { approval_required: bool },
    Patched(Json),
    Refused(u16),
}

impl View for PassReply {
    type V = PassReplyView;

    open spec fn view(&self) -> PassReplyView {
        match self {
            PassReply::Done => PassReplyView::Done,
            PassReply::Failed => PassReplyView::Failed,
            PassReply::Claimed(claim) => PassReplyView::Claimed(
                match claim {
                    Some((job, patch)) => Some((job@, json_of(*patch))),
                    None => None,
                },
            ),
            PassReply::Locked { approval_required } => PassReplyView::Locked {
                approval_required: *approval_required,
            },
            PassReply::Patched(change) => PassReplyView::Patched(json_of(*change)),
            PassReply::Refused(status) => PassReplyView::Refused(status@),
        }
    }
}

/// The reply is one that the phase waits for.
pub open spec fn pass_awaits(phase: PhaseView, reply: PassReplyView) -> bool {
    match phase {
        PhaseView::Claim => reply is Claimed || reply is Failed,
        PhaseView::Lock { .. } => reply is Locked || reply is Refused,
        PhaseView::Patch { .. } => reply is Patched || reply is Refused,
        PhaseView::Emit => reply is Done,
        PhaseView::Stopped => false,
        _ => reply is Done || reply is Failed,
    }
}

/// The end of a pass.
pub open spec fn stop(rounds_left: u32) -> (PassView, PassActionView) {
    (PassView { rounds_left, phase: PhaseView::Stopped }, PassActionView::Stop)
}

/// The next job, where the pass may take one more.
pub open spec fn next_round(rounds_left: u32) -> (PassView, PassActionView) {
    if rounds_left == 0 {
        stop(0)
    } else {
        (
            PassView { rounds_left: (rounds_left - 1) as u32, phase: PhaseView::Begin },
            PassActionView::Begin,
        )
    }
}

/// A job that failed: what was done for it is undone first.
pub open spec fn give_up(rounds_left: u32, job: JobView, status: u16) -> (
    PassView,
    PassActionView,
) {
    (
        PassView { rounds_left, phase: PhaseView::Rollback { job, status } },
        PassActionView::RollbackToSavepoint,
    )
}

/// The step that follows a reply.
pub open spec fn pass_next(pass: PassView, reply: PassReplyView) -> (PassView, PassActionView) {
    let rounds = pass.rounds_left;
    let failed = reply is Failed;
    match pass.phase {
        PhaseView::Begin => if failed {
            stop(rounds)
        } else {
            (
                PassView { rounds_left: rounds, phase: PhaseView::Claim },
                PassActionView::Claim { retry_after_seconds: RETRY_AFTER_SECONDS },
            )
        },
        PhaseView::Claim => match reply {
            PassReplyView::Claimed(Some((job, patch))) => (
                PassView { rounds_left: rounds, phase: PhaseView::Savepoint { job, patch } },
                PassActionView::Savepoint,
            ),
            _ => stop(rounds),
        },
        PhaseView::Savepoint { job, patch } => if failed {
            stop(rounds)
        } else {
            (
                PassView { rounds_left: rounds, phase: PhaseView::Lock { job, patch } },
                PassActionView::LockEnvironment { env_id: job.env_id },
            )
        },
        PhaseView::Lock { job, patch } => match reply {
            PassReplyView::Refused(status) => give_up(rounds, job, status),
            PassReplyView::Locked { approval_required: true } => give_up(rounds, job, 409),
            _ => (
                PassView { rounds_left: rounds, phase: PhaseView::Patch { job } },
                PassActionView::ApplyPatch { env_id: job.env_id, flag_key: job.flag_key, patch },
            ),
        },
        PhaseView::Patch { job } => match reply {
            PassReplyView::Patched(change) => (
                PassView { rounds_left: rounds, phase: PhaseView::MarkExecuted { job, change } },
                PassActionView::MarkExecuted { id: job.id },
            ),
            PassReplyView::Refused(status) => give_up(rounds, job, status),
            _ => stop(rounds),
        },
        PhaseView::MarkExecuted { job, change } => if failed {
            give_up(rounds, job, 500)
        } else {
            (
                PassView { rounds_left: rounds, phase: PhaseView::CommitApplied { job, change } },
                PassActionView::Commit,
            )
        },
        PhaseView::CommitApplied { job, change } => if failed {
            stop(rounds)
        } else {
            (
                PassView { rounds_left: rounds, phase: PhaseView::Emit },
                PassActionView::Emit { job, change },
            )
        },
        PhaseView::Emit => next_round(rounds),
        PhaseView::Rollback { job, status } => if failed {
            stop(rounds)
        } else {
            (
                PassView { rounds_left: rounds, phase: PhaseView::RecordFailure },
                PassActionView::RecordFailure { id: job.id, error: status_line(status) },
            )
        },
        PhaseView::RecordFailure => if failed {
            stop(rounds)
        } else {
            (
                PassView { rounds_left: rounds, phase: PhaseView::CommitFailure },
                PassActionView::Commit,
            )
        },
        PhaseView::CommitFailure => if failed {
            stop(rounds)
        } else {
            next_round(rounds)
        },
        PhaseView::Stopped => stop(rounds),
    }
}

/// The first step of a pass.
pub open spec fn pass_start() -> (PassView, PassActionView) {
    next_round(BATCH)
}

fn halt(rounds_left: u32) -> (step: (DuePass, PassAction))
    ensures
        (step.0@, step.1@) == stop(rounds_left),
{
    (DuePass { rounds_left, phase: Phase::Stopped }, PassAction::Stop)
}

fn begin_round(rounds_left: u32) -> (step: (DuePass, PassAction))
    ensures
        (step.0@, step.1@) == next_round(rounds_left),
{
    if rounds_left == 0 {
        halt(0)
    } else {
        (DuePass { rounds_left: rounds_left - 1, phase: Phase::Begin }, PassAction::Begin)
    }
}

fn undo(rounds_left: u32, job: DueJob, status: Status) -> (step: (DuePass, PassAction))
    ensures
        (step.0@, step.1@) == give_up(rounds_left, job@, status@),
{
    (
        DuePass { rounds_left, phase: Phase::Rollback { job, status } },
        PassAction::RollbackToSavepoint,
    )
}

/// Starts a pass over the due jobs.
pub fn start_pass() -> (step: (DuePass, PassAction))
    ensures
        (step.0@, step.1@) == pass_start(),
{
    begin_round(BATCH)
}

/// Takes the due jobs, step by step, fifty at most. Each is claimed, patched and marked executed
/// in one transaction. A job that fails stays pending: its patch is undone, the error and the
/// attempt are noted, and the pass goes on to the next. A database that fails ends the pass.
pub fn execute_due(pass: DuePass, reply: PassReply) -> (step: (DuePass, PassAction))
    requires
        pass_awaits(pass@.phase, reply@),
    ensures
        (step.0@, step.1@) == pass_next(pass@, reply@),
{
    let rounds_left: u32 = pass.rounds_left;
    match (pass.phase, reply) {
        (Phase::Begin, PassReply::Done) => (
            DuePass { rounds_left, phase: Phase::Claim },
            PassAction::Claim { retry_after_seconds: RETRY_AFTER_SECONDS },
        ),
        (Phase::Claim, PassReply::Claimed(Some((job, patch)))) => (
            DuePass { rounds_left, phase: Phase::Savepoint { job, patch } },
            PassAction::Savepoint,
        ),
        (Phase::Savepoint { job, patch }, PassReply::Done) => {
            let env_id: String = job.env_id.clone();
            (
                DuePass { rounds_left, phase: Phase::Lock { job, patch } },
                PassAction::LockEnvironment { env_id },
            )
        },
        (Phase::Lock { job, patch }, PassReply::Locked { approval_required }) => {
            if approval_required {
                undo(rounds_left, job, Status::conflict())
            } else {
                let env_id: String = job.env_id.clone();
                let flag_key: String = job.flag_key.clone();
                (
                    DuePass { rounds_left, phase: Phase::Patch { job } },
                    PassAction::ApplyPatch { env_id, flag_key, patch },
                )
            }
        },
        (Phase::Lock { job, .. }, PassReply::Refused(status)) => undo(rounds_left, job, status),
        (Phase::Patch { job }, PassReply::Patched(change)) => {
            let id: String = job.id.clone();
            (
                DuePass { rounds_left, phase: Phase::MarkExecuted { job, change } },
                PassAction::MarkExecuted { id },
            )
        },
        (Phase::Patch { job }, PassReply::Refused(status)) => undo(rounds_left, job, status),
        (Phase::MarkExecuted { job, change }, PassReply::Done) => (
            DuePass { rounds_left, phase: Phase::CommitApplied { job, change } },
            PassAction::Commit,
        ),
        (Phase::MarkExecuted { job, .. }, PassReply::Failed) => undo(
            rounds_left,
            job,
            Status::internal_server_error(),
        ),
        (Phase::CommitApplied { job, change }, PassReply::Done) => (
            DuePass { rounds_left, phase: Phase::Emit },
            PassAction::Emit { job, change },
        ),
        (Phase::Emit, _) => begin_round(rounds_left),
        (Phase::Rollback { job, status }, PassReply::Done) => (
            DuePass { rounds_left, phase: Phase::RecordFailure },
            PassAction::RecordFailure { id: job.id, error: status.line() },
        ),
        (Phase::RecordFailure, PassReply::Done) => (
            DuePass { rounds_left, phase: Phase::CommitFailure },
            PassAction::Commit,
        ),
        (Phase::CommitFailure, PassReply::Done) => begin_round(rounds_left),
        _ => halt(rounds_left),
    }
}

} // verus!
