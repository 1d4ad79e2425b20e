//! What a pass over the due jobs leaves behind, whatever the database answers.
//!
//! The model is one row per claimed job: whether its patch is in force on the flag, when it is
//! due, when it was executed and last tried, how often it was tried, and its last error. The row
//! exists as it was claimed, as it is on disk, as the open transaction sees it, and as it was at
//! the savepoint. The clock of a transaction is the time at which it began.
use crate::json::Json;
use crate::scheduler::{
    next_round, pass_awaits, pass_next, pass_start, JobView, PassActionView, PassReplyView,
    PassView, PhaseView, BATCH, RETRY_AFTER_SECONDS,
};
use crate::status::{reason_phrase, status_line};
use crate::text::decimal_of;
use vstd::prelude::*;

verus! {

/// A scheduled job and the flag that it patches. Times are in seconds.
pub struct JobRow {
    pub patched: bool,
    pub scheduled_at: int,
    pub executed_at: Option<int>,
    pub attempts: nat,
    pub last_error: Option<Seq<char>>,
    pub last_attempt_at: Option<int>,
}

/// A transaction, as far as it concerns one job.
pub struct Txn {
    /// The time at which it began.
    pub began: int,
    /// The job that it claimed, and the patch.
    pub claimed: Option<(JobView, Json)>,
    /// The row as it sees it.
    pub working: JobRow,
    /// The row at the savepoint.
    pub saved: JobRow,
    /// The status that refused the job.
    pub refused: Option<u16>,
    /// The change that the patch came to.
    pub change: Option<Json>,
}

/// The job of the present round, and what the pass has done so far.
pub struct Ledger {
    /// The row when it was claimed.
    pub claimed: JobRow,
    /// The time of the transaction that claimed it.
    pub claimed_at: int,
    /// The row on disk.
    pub durable: JobRow,
    /// The transaction of the present round.
    pub txn: Txn,
    /// Transactions begun.
    pub begun: nat,
    /// Commits that put a patch in force.
    pub applied: nat,
    /// Changes told to the world.
    pub emitted: nat,
}

/// One reply, and what the reply does not say: the time, the row that a claim found, and whether
/// a patch that was refused had already touched the flag inside the transaction.
pub struct Turn {
    pub reply: PassReplyView,
    pub now: int,
    pub found: JobRow,
    pub touched: bool,
}

/// A row that was not executed, its patch not in force.
pub open spec fn pending(row: JobRow) -> bool {
    row.executed_at is None && !row.patched
}

/// A row that is due: its time has come, it was not executed, and its last attempt is so many
/// seconds past.
pub open spec fn due(row: JobRow, now: int, retry_after: int) -> bool {
    &&& row.executed_at is None
    &&& row.scheduled_at <= now
    &&& row.last_attempt_at matches Some(tried) ==> tried + retry_after <= now
}

/// The row of a job that was applied: marked executed, its error cleared, the attempt counted and
/// its time noted.
pub open spec fn applied_row(row: JobRow, now: int) -> JobRow {
    JobRow {
        patched: true,
        executed_at: Some(now),
        attempts: row.attempts + 1,
        last_error: None,
        last_attempt_at: Some(now),
        ..row
    }
}

/// The row of a job that failed with an error: still pending, the attempt counted and its time
/// noted.
pub open spec fn failed_row(row: JobRow, error: Seq<char>, now: int) -> JobRow {
    JobRow {
        attempts: row.attempts + 1,
        last_error: Some(error),
        last_attempt_at: Some(now),
        ..row
    }
}

/// The row as the open transaction sees it after an action was answered. An action that names
/// another job leaves the row as it is.
pub open spec fn row_after(t: Txn, action: PassActionView, turn: Turn) -> JobRow {
    let done = turn.reply is Done;
    let row = t.working;
    match (action, t.claimed) {
        (
            PassActionView::ApplyPatch { env_id, flag_key, patch },
            Some((job, asked)),
        ) if env_id == job.env_id && flag_key == job.flag_key && patch == asked => JobRow {
            patched: row.patched || turn.reply is Patched || turn.touched,
            ..row
        },
        (PassActionView::MarkExecuted { id }, Some((job, _))) if done && id == job.id => JobRow {
            executed_at: Some(t.began),
            attempts: row.attempts + 1,
            last_error: None,
            last_attempt_at: Some(t.began),
            ..row
        },
        (PassActionView::RollbackToSavepoint, _) if done => t.saved,
        (
            PassActionView::RecordFailure { id, error },
            Some((job, _)),
        ) if done && id == job.id && row.executed_at is None => failed_row(row, error, t.began),
        _ => row,
    }
}

/// The status with which a reply refuses the job: the one that came back, 409 where the
/// environment asks for an approval, 500 where the job could not be marked executed.
pub open spec fn refusal(action: PassActionView, reply: PassReplyView) -> Option<u16> {
    match (action, reply) {
        (PassActionView::LockEnvironment { .. }, PassReplyView::Refused(code)) => Some(code),
        (
            PassActionView::LockEnvironment { .. },
            PassReplyView::Locked { approval_required: true },
        ) => Some(409),
        (PassActionView::ApplyPatch { .. }, PassReplyView::Refused(code)) => Some(code),
        (PassActionView::MarkExecuted { .. }, PassReplyView::Failed) => Some(500),
        _ => None,
    }
}

/// The transaction after an action was answered.
pub open spec fn txn_after(t: Txn, action: PassActionView, turn: Turn) -> Txn {
    match (action, turn.reply) {
        (PassActionView::Begin, PassReplyView::Done) => Txn { began: turn.now, ..t },
        (PassActionView::Claim { .. }, PassReplyView::Claimed(Some(claim))) => Txn {
            began: t.began,
            claimed: Some(claim),
            working: turn.found,
            saved: turn.found,
            refused: None,
            change: None,
        },
        (PassActionView::Savepoint, PassReplyView::Done) => Txn { saved: t.working, ..t },
        (PassActionView::ApplyPatch { .. }, PassReplyView::Patched(change)) => Txn {
            working: row_after(t, action, turn),
            change: Some(change),
            ..t
        },
        _ => Txn {
            working: row_after(t, action, turn),
            refused: match refusal(action, turn.reply) {
                Some(code) => Some(code),
                None => t.refused,
            },
            ..t
        },
    }
}

/// What an action that was answered does to the job.
pub open spec fn effect(l: Ledger, action: PassActionView, turn: Turn) -> Ledger {
    let done = turn.reply is Done;
    let txn = txn_after(l.txn, action, turn);
    match action {
        PassActionView::Begin if done => Ledger { txn, begun: l.begun + 1, ..l },
        PassActionView::Claim { .. } if turn.reply matches PassReplyView::Claimed(
            Some(_),
        ) => Ledger {
            txn,
            claimed: turn.found,
            claimed_at: l.txn.began,
            durable: turn.found,
            ..l
        },
        PassActionView::Commit if done => Ledger {
            txn,
            durable: l.txn.working,
            applied: l.applied + (if l.txn.working.executed_at is Some {
                1nat
            } else {
                0nat
            }),
            ..l
        },
        PassActionView::Emit { .. } if done => Ledger { txn, emitted: l.emitted + 1, ..l },
        _ => Ledger { txn, ..l },
    }
}

/// A transaction that has claimed nothing.
pub open spec fn no_txn(row: JobRow) -> Txn {
    Txn { began: 0, claimed: None, working: row, saved: row, refused: None, change: None }
}

/// The pass before any reply, with no job claimed.
pub open spec fn opening(row: JobRow) -> (PassView, PassActionView, Ledger) {
    (
        pass_start().0,
        pass_start().1,
        Ledger {
            claimed: row,
            claimed_at: 0,
            durable: row,
            txn: no_txn(row),
            begun: 0,
            applied: 0,
            emitted: 0,
        },
    )
}

/// The pass, its last action and the ledger after some turns.
pub open spec fn replay(row: JobRow, turns: Seq<Turn>) -> (PassView, PassActionView, Ledger)
    decreases turns.len(),
{
    if turns.len() == 0 {
        opening(row)
    } else {
        let (pass, action, l) = replay(row, turns.drop_last());
        let turn = turns.last();
        let step = pass_next(pass, turn.reply);
        (step.0, step.1, effect(l, action, turn))
    }
}

/// A claim found a job only where it was due, by what the claim asked for.
pub open spec fn claim_is_due(action: PassActionView, began: int, turn: Turn) -> bool {
    match (action, turn.reply) {
        (
            PassActionView::Claim { retry_after_seconds },
            PassReplyView::Claimed(Some(_)),
        ) => pending(turn.found) && due(turn.found, began, retry_after_seconds as int),
        _ => true,
    }
}

/// Every reply was waited for, and every job that was claimed was due.
pub open spec fn orderly(row: JobRow, turns: Seq<Turn>) -> bool
    decreases turns.len(),
{
    if turns.len() == 0 {
        true
    } else {
        let (pass, action, l) = replay(row, turns.drop_last());
        &&& orderly(row, turns.drop_last())
        &&& pass_awaits(pass.phase, turns.last().reply)
        &&& claim_is_due(action, l.txn.began, turns.last())
    }
}

/// The row on disk is the claimed one untouched, or that of the applied job, or that of the
/// failed job with the line of the status that refused it; in the last two cases with the time of
/// the transaction.
pub open spec fn settled(l: Ledger) -> bool {
    ||| l.durable == l.claimed
    ||| l.durable == applied_row(l.claimed, l.claimed_at)
    ||| (l.txn.refused matches Some(code) && l.durable == failed_row(
        l.claimed,
        status_line(code),
        l.claimed_at,
    ))
}

/// What a transaction that holds a job is about, by what its pass waits for. `row` is the row as
/// it was claimed.
pub open spec fn txn_in_step(
    row: JobRow,
    phase: PhaseView,
    action: PassActionView,
    t: Txn,
) -> bool {
    &&& t.claimed is Some
    &&& ({
        let (job, patch) = t.claimed->0;
        match phase {
            PhaseView::Savepoint { job: j, patch: p } => {
                j == job && p == patch && t.working == row
            },
            PhaseView::Lock { job: j, patch: p } => {
                j == job && p == patch && t.working == row && t.saved == row
            },
            PhaseView::Patch { job: j } => {
                &&& j == job
                &&& t.working == row
                &&& t.saved == row
                &&& action == (PassActionView::ApplyPatch {
                    env_id: job.env_id,
                    flag_key: job.flag_key,
                    patch,
                })
            },
            PhaseView::MarkExecuted { job: j, change } => {
                &&& j == job
                &&& t.change == Some(change)
                &&& t.working == (JobRow { patched: true, ..row })
                &&& t.saved == row
                &&& action == (PassActionView::MarkExecuted { id: job.id })
            },
            PhaseView::CommitApplied { job: j, change } => {
                &&& j == job
                &&& t.change == Some(change)
                &&& t.working == applied_row(row, t.began)
            },
            PhaseView::Rollback { job: j, status } => {
                j == job && t.refused == Some(status) && t.saved == row
            },
            PhaseView::RecordFailure => {
                &&& t.refused is Some
                &&& t.working == row
                &&& action == (PassActionView::RecordFailure {
                    id: job.id,
                    error: status_line(t.refused->0),
                })
            },
            PhaseView::CommitFailure => {
                t.refused is Some && t.working == failed_row(
                    row,
                    status_line(t.refused->0),
                    t.began,
                )
            },
            _ => true,
        }
    })
}

/// The action that goes with what a pass waits for.
pub open spec fn action_in_step(phase: PhaseView, action: PassActionView) -> bool {
    match phase {
        PhaseView::Begin => action is Begin,
        PhaseView::Claim => action == (PassActionView::Claim {
            retry_after_seconds: RETRY_AFTER_SECONDS,
        }),
        PhaseView::Savepoint { .. } => action is Savepoint,
        PhaseView::Lock { .. } => action is LockEnvironment,
        PhaseView::Patch { .. } => action is ApplyPatch,
        PhaseView::MarkExecuted { .. } => action is MarkExecuted,
        PhaseView::CommitApplied { .. } => action is Commit,
        PhaseView::Emit => action is Emit,
        PhaseView::Rollback { .. } => action is RollbackToSavepoint,
        PhaseView::RecordFailure => action is RecordFailure,
        PhaseView::CommitFailure => action is Commit,
        PhaseView::Stopped => action is Stop,
    }
}

/// The pass is between the claim of a job and the commit.
pub open spec fn holding(phase: PhaseView) -> bool {
    !(phase is Begin || phase is Claim || phase is Emit || phase is Stopped)
}

/// Every reply keeps the action in step with what the pass waits for.
pub proof fn lemma_action_in_step(pass: PassView, reply: PassReplyView)
    requires
        pass_awaits(pass.phase, reply),
    ensures
        action_in_step(pass_next(pass, reply).0.phase, pass_next(pass, reply).1),
{
}

/// Every reply keeps a transaction in step with its pass, as long as it holds a job.
pub proof fn lemma_txn_in_step(
    row: JobRow,
    pass: PassView,
    action: PassActionView,
    t: Txn,
    turn: Turn,
)
    requires
        pass_awaits(pass.phase, turn.reply),
        action_in_step(pass.phase, action),
        pending(row),
        holding(pass.phase) ==> txn_in_step(row, pass.phase, action, t),
        pass.phase is Claim ==> turn.found == row,
    ensures
        ({
            let step = pass_next(pass, turn.reply);
            holding(step.0.phase) ==> txn_in_step(
                row,
                step.0.phase,
                step.1,
                txn_after(t, action, turn),
            )
        }),
{
}

/// The job of the present round, as far as the pass has come.
spec fn in_step(pass: PassView, action: PassActionView, l: Ledger) -> bool {
    &&& pending(l.claimed)
    &&& settled(l)
    &&& action_in_step(pass.phase, action)
    &&& l.begun + pass.rounds_left <= BATCH
    &&& pass.phase is Begin ==> l.begun + pass.rounds_left < BATCH
    &&& holding(pass.phase) ==> {
        &&& txn_in_step(l.claimed, pass.phase, action, l.txn)
        &&& l.durable == l.claimed
        &&& l.txn.began == l.claimed_at
    }
    &&& if pass.phase is Emit {
        &&& l.applied == l.emitted + 1
        &&& l.durable == applied_row(l.claimed, l.claimed_at)
        &&& l.txn.claimed is Some
        &&& l.txn.change is Some
        &&& action == (PassActionView::Emit {
            job: (l.txn.claimed->0).0,
            change: l.txn.change->0,
        })
    } else {
        l.applied == l.emitted
    }
}

proof fn lemma_in_step(row: JobRow, turns: Seq<Turn>)
    requires
        pending(row),
        orderly(row, turns),
    ensures
        ({
            let (pass, action, l) = replay(row, turns);
            in_step(pass, action, l)
        }),
    decreases turns.len(),
{
    if turns.len() > 0 {
        lemma_in_step(row, turns.drop_last());
        let (pass, action, l) = replay(row, turns.drop_last());
        let turn = turns.last();
        let claimed = if pass.phase is Claim {
            turn.found
        } else {
            l.claimed
        };
        lemma_action_in_step(pass, turn.reply);
        if pending(claimed) {
            lemma_txn_in_step(claimed, pass, action, l.txn, turn);
        }
    }
}

/// A job is applied as a whole or not at all. At every moment of every pass, whatever failed along
/// the way, its row on disk is the one that was claimed, untouched; or executed, with its patch in
/// force and its error cleared; or still pending, its patch not in force, with the line of the
/// status that refused it. In the last two cases the attempt is counted once and the time of the
/// transaction is noted. The job is marked executed exactly where its patch is in force.
pub proof fn law_job_is_applied_whole_or_not_at_all(row: JobRow, turns: Seq<Turn>)
    requires
        pending(row),
        orderly(row, turns),
    ensures
        settled(replay(row, turns).2),
        replay(row, turns).2.durable.executed_at is Some <==> replay(row, turns).2.durable.patched,
{
    lemma_in_step(row, turns);
}

/// A change is told to the world only after it is on disk, and once for each change that is. What
/// is told is the job that was claimed and the very change that its patch came to.
pub proof fn law_emitted_once_and_after_commit(row: JobRow, turns: Seq<Turn>)
    requires
        pending(row),
        orderly(row, turns),
    ensures
        ({
            let (pass, action, l) = replay(row, turns);
            &&& l.applied == l.emitted + (if action is Emit {
                1nat
            } else {
                0nat
            })
            &&& action matches PassActionView::Emit { job, change } ==> {
                &&& l.durable == applied_row(l.claimed, l.claimed_at)
                &&& l.txn.claimed matches Some((claimed, _)) && job == claimed
                &&& l.txn.change == Some(change)
            }
        }),
{
    lemma_in_step(row, turns);
}

/// Where a patch was applied and its transaction goes through, the action that follows the commit
/// tells the world of that job and of the change that came back.
pub proof fn law_applied_change_is_emitted(pass: PassView, change: Json)
    requires
        pass.phase is Patch,
    ensures
        ({
            let marked = pass_next(pass, PassReplyView::Patched(change)).0;
            let committed = pass_next(marked, PassReplyView::Done).0;
            pass_next(committed, PassReplyView::Done).1 == (PassActionView::Emit {
                job: pass.phase->Patch_job,
                change,
            })
        }),
{
}

/// Nothing is told to the world of a job whose patch, bookkeeping or commit failed: only the
/// commit of an applied job that went through is followed by it.
pub proof fn law_failures_are_not_emitted(pass: PassView, reply: PassReplyView)
    requires
        pass_awaits(pass.phase, reply),
    ensures
        pass_next(pass, reply).1 is Emit <==> pass.phase is CommitApplied && reply is Done,
{
}

/// A pass begins fifty transactions at most.
pub proof fn law_pass_is_bounded(row: JobRow, turns: Seq<Turn>)
    requires
        pending(row),
        orderly(row, turns),
    ensures
        replay(row, turns).2.begun <= BATCH,
{
    lemma_in_step(row, turns);
}

/// How many replies a pass may still wait for, at most.
pub open spec fn pass_fuel(pass: PassView) -> nat {
    pass.rounds_left as nat * 10 + match pass.phase {
        PhaseView::Begin => 10nat,
        PhaseView::Claim => 9,
        PhaseView::Savepoint { .. } => 8,
        PhaseView::Lock { .. } => 7,
        PhaseView::Patch { .. } => 6,
        PhaseView::MarkExecuted { .. } => 5,
        PhaseView::Rollback { .. } => 4,
        PhaseView::RecordFailure => 3,
        PhaseView::CommitApplied { .. } => 2,
        PhaseView::CommitFailure => 1,
        PhaseView::Emit => 1,
        PhaseView::Stopped => 0,
    }
}

/// Every pass ends: each reply brings it closer to the end, and it is stopped exactly when it
/// asks for nothing more.
pub proof fn law_pass_ends(pass: PassView, reply: PassReplyView)
    requires
        pass_awaits(pass.phase, reply),
    ensures
        pass_fuel(pass_next(pass, reply).0) < pass_fuel(pass),
        pass_next(pass, reply).0.phase is Stopped <==> pass_next(pass, reply).1 is Stop,
{
}

/// An environment that asks for approvals makes the job wait: it fails with 409, and no patch is
/// tried.
pub proof fn law_approval_makes_jobs_wait(pass: PassView)
    requires
        pass.phase is Lock,
    ensures
        ({
            let step = pass_next(pass, PassReplyView::Locked { approval_required: true });
            step.0.phase == (PhaseView::Rollback {
                job: pass.phase->Lock_job,
                status: 409,
            }) && step.1 is RollbackToSavepoint
        }),
{
}

/// A job that failed does not hold up the others: once its failure is on disk, the pass goes on
/// to the next round.
pub proof fn law_failed_job_does_not_end_the_pass(pass: PassView)
    requires
        pass.phase is CommitFailure,
    ensures
        pass_next(pass, PassReplyView::Done) == next_round(pass.rounds_left),
{
}

/// A job that failed rests for sixty seconds and is due again from then on. Every claim of a pass
/// asks for that rest.
pub proof fn law_failed_job_rests_sixty_seconds(
    row: JobRow,
    turns: Seq<Turn>,
    error: Seq<char>,
    tried: int,
    now: int,
)
    requires
        pending(row),
        orderly(row, turns),
        row.scheduled_at <= tried <= now,
    ensures
        replay(row, turns).1 matches PassActionView::Claim { retry_after_seconds } ==> {
            &&& retry_after_seconds == 60
            &&& due(failed_row(row, error, tried), now, retry_after_seconds as int) <==> tried + 60
                <= now
        },
        pending(failed_row(row, error, tried)),
{
    lemma_in_step(row, turns);
}

/// Where a job that failed is applied later, both attempts are counted, the error is cleared and
/// the time is that of the later one; from then on it is never due.
pub proof fn law_retried_job_is_applied(
    row: JobRow,
    error: Seq<char>,
    tried: int,
    again: int,
    now: int,
    retry_after: int,
)
    ensures
        ({
            let applied = applied_row(failed_row(row, error, tried), again);
            &&& applied.attempts == row.attempts + 2
            &&& applied.last_error is None
            &&& applied.executed_at == Some(again)
            &&& applied.last_attempt_at == Some(again)
            &&& !due(applied, now, retry_after)
        }),
{
}

// ---------------------------------------------------------------------------
// What follows each reply
// ---------------------------------------------------------------------------
/// A pass begins with a transaction, and may begin forty-nine more.
pub proof fn law_pass_starts_with_fifty_rounds()
    ensures
        pass_start().0.rounds_left == 49,
        pass_start().0.phase is Begin,
        pass_start().1 is Begin,
{
}

/// A pass ends in three cases and no other: the database failed, and not where the job could not
/// be marked executed; no job is due; or a job is done with and the pass may take no more. In
/// particular no refusal of a job ends it.
pub proof fn law_pass_ends_only_when(pass: PassView, reply: PassReplyView)
    requires
        pass_awaits(pass.phase, reply),
    ensures
        pass_next(pass, reply).1 is Stop <==> {
            ||| reply is Failed && !(pass.phase is MarkExecuted)
            ||| reply == PassReplyView::Claimed(None)
            ||| reply is Done && (pass.phase is Emit || pass.phase is CommitFailure)
                && pass.rounds_left == 0
        },
{
}

/// A pass takes up a further job exactly after one that was told to the world or whose failure is
/// on disk, and that uses up one round; nothing else does.
pub proof fn law_rounds_are_used_up_by_jobs(pass: PassView, reply: PassReplyView)
    requires
        pass_awaits(pass.phase, reply),
    ensures
        pass_next(pass, reply).1 is Begin <==> reply is Done && (pass.phase is Emit
            || pass.phase is CommitFailure) && pass.rounds_left > 0,
        pass_next(pass, reply).0.rounds_left == pass.rounds_left - (if pass_next(
            pass,
            reply,
        ).1 is Begin {
            1int
        } else {
            0int
        }),
{
}

/// A job is refused, and undone first, exactly where its environment could not be locked, asks
/// for approvals, its patch was refused, or it could not be marked executed. The refusal carries
/// the job and the status that came back, 409 for approvals and 500 for the mark.
pub proof fn law_every_refusal_is_undone(pass: PassView, reply: PassReplyView)
    requires
        pass_awaits(pass.phase, reply),
    ensures
        pass_next(pass, reply).1 is RollbackToSavepoint <==> {
            ||| reply is Refused
            ||| reply == (PassReplyView::Locked { approval_required: true })
            ||| reply is Failed && pass.phase is MarkExecuted
        },
        match (pass.phase, reply) {
            (PhaseView::Lock { job, .. }, PassReplyView::Refused(code)) => {
                pass_next(pass, reply).0.phase == (PhaseView::Rollback { job, status: code })
            },
            (PhaseView::Patch { job }, PassReplyView::Refused(code)) => {
                pass_next(pass, reply).0.phase == (PhaseView::Rollback { job, status: code })
            },
            (PhaseView::Lock { job, .. }, PassReplyView::Locked { approval_required: true }) => {
                pass_next(pass, reply).0.phase == (PhaseView::Rollback { job, status: 409 })
            },
            (PhaseView::MarkExecuted { job, .. }, PassReplyView::Failed) => {
                pass_next(pass, reply).0.phase == (PhaseView::Rollback { job, status: 500 })
            },
            _ => true,
        },
{
}

/// Whatever status refuses a job, the pass undoes the job, notes the status line on that very
/// job, commits, and goes on to the next one where it may take more.
pub proof fn law_refused_job_is_recorded(pass: PassView, job: JobView, code: u16)
    requires
        pass.phase == (PhaseView::Patch { job }) || (pass.phase matches PhaseView::Lock {
            job: j,
            patch,
        } && j == job),
    ensures
        ({
            let undo = pass_next(pass, PassReplyView::Refused(code));
            let note = pass_next(undo.0, PassReplyView::Done);
            let commit = pass_next(note.0, PassReplyView::Done);
            let next = pass_next(commit.0, PassReplyView::Done);
            &&& undo.1 is RollbackToSavepoint
            &&& note.1 == (PassActionView::RecordFailure {
                id: job.id,
                error: decimal_of(code as nat) + seq![' '] + reason_phrase(code),
            })
            &&& commit.1 is Commit
            &&& pass.rounds_left > 0 ==> next.1 is Begin && next.0.phase is Begin
                && next.0.rounds_left == pass.rounds_left - 1
            &&& pass.rounds_left == 0 ==> next.1 is Stop
        }),
{
}

/// Where nothing fails, a job goes all the way: it is claimed, its environment is locked, its own
/// patch is applied to its own flag, it is marked executed, committed and told to the world, and
/// then the next one is taken up.
pub proof fn law_job_goes_all_the_way(
    pass: PassView,
    job: JobView,
    patch: Json,
    change: Json,
)
    requires
        pass.phase is Begin,
        pass.rounds_left > 0,
    ensures
        ({
            let claim = pass_next(pass, PassReplyView::Done);
            let savepoint = pass_next(claim.0, PassReplyView::Claimed(Some((job, patch))));
            let lock = pass_next(savepoint.0, PassReplyView::Done);
            let apply = pass_next(lock.0, PassReplyView::Locked { approval_required: false });
            let mark = pass_next(apply.0, PassReplyView::Patched(change));
            let commit = pass_next(mark.0, PassReplyView::Done);
            let emit = pass_next(commit.0, PassReplyView::Done);
            let next = pass_next(emit.0, PassReplyView::Done);
            &&& claim.1 == (PassActionView::Claim { retry_after_seconds: 60 })
            &&& savepoint.1 is Savepoint
            &&& lock.1 == (PassActionView::LockEnvironment { env_id: job.env_id })
            &&& apply.1 == (PassActionView::ApplyPatch {
                env_id: job.env_id,
                flag_key: job.flag_key,
                patch,
            })
            &&& mark.1 == (PassActionView::MarkExecuted { id: job.id })
            &&& commit.1 is Commit
            &&& emit.1 == (PassActionView::Emit { job, change })
            &&& next.1 is Begin
            &&& next.0.phase is Begin
            &&& next.0.rounds_left == pass.rounds_left - 1
        }),
{
}

/// What a pass holds of its job is what was claimed: no reply changes the job or the patch.
pub proof fn law_job_is_kept(pass: PassView, reply: PassReplyView)
    requires
        pass_awaits(pass.phase, reply),
    ensures
        ({
            let next = pass_next(pass, reply).0.phase;
            &&& pass.phase is Claim ==> (next matches PhaseView::Savepoint { job, patch }
                ==> reply == PassReplyView::Claimed(Some((job, patch))))
            &&& pass.phase matches PhaseView::Savepoint { job, patch } ==> next is Stopped || next
                == (PhaseView::Lock { job, patch })
            &&& pass.phase matches PhaseView::Lock { job, patch } ==> next == (PhaseView::Patch {
                job,
            }) || (next matches PhaseView::Rollback { job: j, status } && j == job)
            &&& pass.phase matches PhaseView::Patch { job } ==> (next
                matches PhaseView::MarkExecuted { job: j, change } && j == job && reply
                == PassReplyView::Patched(change)) || (next matches PhaseView::Rollback {
                job: j,
                status,
            } && j == job)
            &&& pass.phase matches PhaseView::MarkExecuted { job, change } ==> next == (
            PhaseView::CommitApplied { job, change }) || (next matches PhaseView::Rollback {
                job: j,
                status,
            } && j == job)
        }),
{
}

/// A refused patch leaves its mark on disk: where rollback, note and commit go through, the row is
/// the one that was claimed, with the attempt counted, its time noted, and the line of the very
/// status that refused it; it is not executed and its patch is not in force.
pub proof fn law_refused_patch_is_on_disk(
    row: JobRow,
    turns: Seq<Turn>,
    code: u16,
    refused: Turn,
    undone: Turn,
    noted: Turn,
    committed: Turn,
)
    requires
        pending(row),
        orderly(row, turns),
        replay(row, turns).0.phase is Patch,
        refused.reply == PassReplyView::Refused(code),
        undone.reply is Done,
        noted.reply is Done,
        committed.reply is Done,
    ensures
        ({
            let before = replay(row, turns).2;
            let after = replay(
                row,
                turns.push(refused).push(undone).push(noted).push(committed),
            ).2;
            let disk = after.durable;
            &&& disk.executed_at is None
            &&& !disk.patched
            &&& disk.attempts == before.claimed.attempts + 1
            &&& disk.last_error == Some(decimal_of(code as nat) + seq![' '] + reason_phrase(code))
            &&& disk.last_attempt_at == Some(before.claimed_at)
            &&& disk.scheduled_at == before.claimed.scheduled_at
        }),
{
    lemma_in_step(row, turns);
    let t1 = turns.push(refused);
    let t2 = t1.push(undone);
    let t3 = t2.push(noted);
    let t4 = t3.push(committed);
    assert(t1.drop_last() =~= turns);
    assert(t2.drop_last() =~= t1);
    assert(t3.drop_last() =~= t2);
    assert(t4.drop_last() =~= t3);
    assert(orderly(row, t1));
    assert(orderly(row, t2));
    assert(orderly(row, t3));
    assert(orderly(row, t4));
    lemma_in_step(row, t1);
    lemma_in_step(row, t2);
    lemma_in_step(row, t3);
    lemma_in_step(row, t4);
}

/// A pass takes every answer that the database can give to what it asked: to a claim a job, none
/// or a failure; to a lock whether approvals are asked for, or a refusal with any status; to a
/// patch the change, or a refusal with any status; and to anything else that it was done or
/// failed, but for what was told to the world, which cannot fail.
pub proof fn law_every_answer_is_taken(phase: PhaseView, reply: PassReplyView)
    ensures
        phase is Claim ==> (pass_awaits(phase, reply) <==> reply is Claimed || reply is Failed),
        phase is Lock ==> (pass_awaits(phase, reply) <==> reply is Locked || reply is Refused),
        phase is Patch ==> (pass_awaits(phase, reply) <==> reply is Patched || reply is Refused),
        phase is Emit ==> (pass_awaits(phase, reply) <==> reply is Done),
        phase is Begin || phase is Savepoint || phase is MarkExecuted || phase is CommitApplied
            || phase is Rollback || phase is RecordFailure || phase is CommitFailure ==> (
        pass_awaits(phase, reply) <==> reply is Done || reply is Failed),
        phase is Stopped ==> !pass_awaits(phase, reply),
{
}

} // verus!
