//! What several workers do to one job when their passes run at the same time.
//!
//! The database is modelled by what it promises of one row: a claim finds the row only while it is
//! due and no other open transaction has claimed it, and a transaction keeps its claim until it
//! commits or is dropped. The passes may be interleaved in any order, and may take other jobs in
//! between.
use crate::scheduler::{
    pass_awaits, pass_next, pass_start, PassActionView, PassReplyView, PassView,
    RETRY_AFTER_SECONDS,
};
use crate::scheduler_laws::{
    action_in_step, applied_row, due, failed_row, holding, lemma_action_in_step,
    lemma_txn_in_step, no_txn, pending, txn_after, txn_in_step, JobRow, Turn, Txn,
};
use crate::status::status_line;
use vstd::prelude::*;

verus! {

/// The job on disk, and what was done to it.
pub struct SharedJob {
    pub row: JobRow,
    /// The worker whose open transaction has claimed the row.
    pub owner: Option<int>,
    /// Commits that put the patch in force.
    pub applied: nat,
    /// Commits that noted a failure.
    pub failed: nat,
    /// Times that the change was told to the world.
    pub emitted: nat,
    /// The time of the transaction that was committed last.
    pub attempted_at: int,
    /// The status that refused the job in that transaction.
    pub refused: Option<u16>,
}

/// One worker: its pass, what it was asked to do, and what it does to the job.
pub struct Worker {
    pub pass: PassView,
    pub action: PassActionView,
    /// Its open transaction has claimed the job.
    pub holds: bool,
    /// It has committed the patch of the job, and not yet told the world.
    pub emits: bool,
    /// Its transaction.
    pub txn: Txn,
}

/// One worker is answered. `ours` tells whether a job that it claims is the job at hand.
pub struct WorkerTurn {
    pub worker: int,
    pub turn: Turn,
    pub ours: bool,
}

/// The worker claims the job at hand.
pub open spec fn claims_job(w: Worker, e: WorkerTurn) -> bool {
    w.action is Claim && e.ours && (e.turn.reply matches PassReplyView::Claimed(Some(_)))
}

/// The worker commits what it did to the job.
pub open spec fn commits_job(w: Worker, e: WorkerTurn) -> bool {
    w.holds && w.action is Commit && e.turn.reply is Done
}

/// The worker after it was answered.
pub open spec fn worker_after(w: Worker, e: WorkerTurn) -> Worker {
    let step = pass_next(w.pass, e.turn.reply);
    Worker {
        pass: step.0,
        action: step.1,
        holds: (w.holds || claims_job(w, e)) && !commits_job(w, e) && !(step.1 is Stop),
        emits: if commits_job(w, e) {
            w.txn.working.executed_at is Some
        } else {
            w.emits && !(w.action is Emit)
        },
        txn: txn_after(w.txn, w.action, e.turn),
    }
}

/// The job after a worker was answered.
pub open spec fn job_after(job: SharedJob, w: Worker, e: WorkerTurn) -> SharedJob {
    let commits = commits_job(w, e);
    let executed = w.txn.working.executed_at is Some;
    SharedJob {
        row: if commits {
            w.txn.working
        } else {
            job.row
        },
        owner: if claims_job(w, e) {
            Some(e.worker)
        } else if w.holds && !worker_after(w, e).holds {
            None
        } else {
            job.owner
        },
        applied: job.applied + (if commits && executed {
            1nat
        } else {
            0nat
        }),
        failed: job.failed + (if commits && !executed {
            1nat
        } else {
            0nat
        }),
        emitted: job.emitted + (if w.emits && w.action is Emit && e.turn.reply is Done {
            1nat
        } else {
            0nat
        }),
        attempted_at: if commits {
            w.txn.began
        } else {
            job.attempted_at
        },
        refused: if commits {
            w.txn.refused
        } else {
            job.refused
        },
    }
}

/// Some workers that have just started their passes.
pub open spec fn fresh_workers(row: JobRow, n: nat) -> Seq<Worker> {
    Seq::new(
        n,
        |i: int|
            Worker {
                pass: pass_start().0,
                action: pass_start().1,
                holds: false,
                emits: false,
                txn: no_txn(row),
            },
    )
}

/// The job before anyone has claimed it.
pub open spec fn untouched(row: JobRow) -> SharedJob {
    SharedJob {
        row,
        owner: None,
        applied: 0,
        failed: 0,
        emitted: 0,
        attempted_at: 0,
        refused: None,
    }
}

/// The job and the workers after some turns.
pub open spec fn share(row: JobRow, n: nat, turns: Seq<WorkerTurn>) -> (SharedJob, Seq<Worker>)
    decreases turns.len(),
{
    if turns.len() == 0 {
        (untouched(row), fresh_workers(row, n))
    } else {
        let (job, workers) = share(row, n, turns.drop_last());
        let e = turns.last();
        let w = workers[e.worker];
        (job_after(job, w, e), workers.update(e.worker, worker_after(w, e)))
    }
}

/// A worker claimed the job only while nobody else had, while it was due by what the claim asked
/// for, and as it is on disk.
pub open spec fn claim_is_isolated(job: SharedJob, w: Worker, e: WorkerTurn) -> bool {
    claims_job(w, e) ==> {
        &&& job.owner is None
        &&& e.turn.found == job.row
        &&& due(job.row, w.txn.began, w.action->Claim_retry_after_seconds as int)
    }
}

/// Every reply was waited for, and every claim was isolated.
pub open spec fn isolated(row: JobRow, n: nat, turns: Seq<WorkerTurn>) -> bool
    decreases turns.len(),
{
    if turns.len() == 0 {
        true
    } else {
        let (job, workers) = share(row, n, turns.drop_last());
        let e = turns.last();
        &&& isolated(row, n, turns.drop_last())
        &&& 0 <= e.worker < n
        &&& pass_awaits(workers[e.worker].pass.phase, e.turn.reply)
        &&& claim_is_isolated(job, workers[e.worker], e)
    }
}

/// What a worker is about, by what its pass waits for.
spec fn worker_in_step(row: JobRow, w: Worker) -> bool {
    &&& action_in_step(w.pass.phase, w.action)
    &&& w.emits ==> w.pass.phase is Emit
    &&& w.holds ==> holding(w.pass.phase) && txn_in_step(row, w.pass.phase, w.action, w.txn)
}

/// What holds of the job and the workers at every moment.
spec fn in_order(start: JobRow, job: SharedJob, workers: Seq<Worker>) -> bool {
    &&& job.row.executed_at is Some <==> job.row.patched
    &&& job.applied == (if job.row.patched {
        1nat
    } else {
        0nat
    })
    &&& job.row.attempts == start.attempts + job.failed + job.applied
    &&& job.emitted <= job.applied
    &&& job.owner matches Some(i) ==> 0 <= i < workers.len() && !job.row.patched
    &&& forall|i: int|
        0 <= i < workers.len() ==> {
            &&& worker_in_step(job.row, #[trigger] workers[i])
            &&& workers[i].holds == (job.owner == Some(i))
            &&& workers[i].emits ==> job.applied == 1 && job.emitted == 0
        }
    &&& forall|i: int, j: int|
        0 <= i < workers.len() && 0 <= j < workers.len() && (#[trigger] workers[i]).emits && (
        #[trigger] workers[j]).emits ==> i == j
}

proof fn lemma_in_order(row: JobRow, n: nat, turns: Seq<WorkerTurn>)
    requires
        pending(row),
        isolated(row, n, turns),
    ensures
        ({
            let (job, workers) = share(row, n, turns);
            workers.len() == n && in_order(row, job, workers)
        }),
    decreases turns.len(),
{
    if turns.len() > 0 {
        lemma_in_order(row, n, turns.drop_last());
        let (job, workers) = share(row, n, turns.drop_last());
        lemma_step(row, job, workers, turns.last());
    }
}

proof fn lemma_step(start: JobRow, job: SharedJob, workers: Seq<Worker>, e: WorkerTurn)
    requires
        in_order(start, job, workers),
        0 <= e.worker < workers.len(),
        pass_awaits(workers[e.worker].pass.phase, e.turn.reply),
        claim_is_isolated(job, workers[e.worker], e),
    ensures
        ({
            let w = workers[e.worker];
            in_order(start, job_after(job, w, e), workers.update(e.worker, worker_after(w, e)))
        }),
{
    let w = workers[e.worker];
    let next = worker_after(w, e);
    let after = job_after(job, w, e);
    let all = workers.update(e.worker, next);
    lemma_action_in_step(w.pass, e.turn.reply);
    if w.holds || claims_job(w, e) {
        lemma_txn_in_step(job.row, w.pass, w.action, w.txn, e.turn);
    }
    assert(worker_in_step(after.row, next));
    assert forall|i: int| 0 <= i < all.len() implies {
        &&& worker_in_step(after.row, #[trigger] all[i])
        &&& all[i].holds == (after.owner == Some(i))
        &&& all[i].emits ==> after.applied == 1 && after.emitted == 0
    } by {
        if i != e.worker {
            assert(all[i] == workers[i]);
        }
    }
    assert forall|i: int, j: int|
        0 <= i < all.len() && 0 <= j < all.len() && (#[trigger] all[i]).emits && (
        #[trigger] all[j]).emits implies i == j by {
        if i != e.worker {
            assert(all[i] == workers[i]);
        }
        if j != e.worker {
            assert(all[j] == workers[j]);
        }
    }
}

/// However many workers run at the same time, a job is executed once: its patch is put in force
/// by one commit at most, and by one exactly where it is marked executed; the change is told to
/// the world once at most, and only after that commit; and every attempt is counted, the failures
/// and the one that succeeded.
pub proof fn law_concurrent_workers_execute_once(row: JobRow, n: nat, turns: Seq<WorkerTurn>)
    requires
        pending(row),
        isolated(row, n, turns),
    ensures
        ({
            let job = share(row, n, turns).0;
            &&& job.row.executed_at is Some <==> job.row.patched
            &&& job.row.executed_at is Some <==> job.applied == 1
            &&& job.applied <= 1
            &&& job.emitted <= job.applied
            &&& job.row.attempts == row.attempts + job.failed + job.applied
        }),
{
    lemma_in_order(row, n, turns);
}

/// No two workers have claimed a job at the same time, and a job that is executed is claimed by
/// nobody.
pub proof fn law_one_worker_holds_the_job(
    row: JobRow,
    n: nat,
    turns: Seq<WorkerTurn>,
    i: int,
    j: int,
)
    requires
        pending(row),
        isolated(row, n, turns),
        0 <= i < n,
        0 <= j < n,
    ensures
        ({
            let (job, workers) = share(row, n, turns);
            &&& workers[i].holds && workers[j].holds ==> i == j
            &&& workers[i].holds ==> job.row.executed_at is None
        }),
{
    lemma_in_order(row, n, turns);
    let (job, workers) = share(row, n, turns);
    assert(workers[i].holds == (job.owner == Some(i)));
    assert(workers[j].holds == (job.owner == Some(j)));
}

/// What is done stays done: a row that was executed is never changed again, and the attempts of a
/// job never decrease, whatever the workers do later on.
pub proof fn law_executed_row_is_final(row: JobRow, n: nat, turns: Seq<WorkerTurn>, k: nat)
    requires
        pending(row),
        isolated(row, n, turns),
        k <= turns.len(),
    ensures
        ({
            let before = share(row, n, turns.take(k as int)).0;
            let after = share(row, n, turns).0;
            &&& before.row.executed_at is Some ==> after.row == before.row
            &&& before.row.attempts <= after.row.attempts
        }),
    decreases turns.len(),
{
    if k == turns.len() {
        assert(turns.take(k as int) =~= turns);
    } else {
        let earlier = turns.drop_last();
        law_executed_row_is_final(row, n, earlier, k);
        assert(earlier.take(k as int) =~= turns.take(k as int));
        lemma_in_order(row, n, earlier);
        lemma_in_order(row, n, turns);
        let (job, workers) = share(row, n, earlier);
        let w = workers[turns.last().worker];
        assert(w.holds == (job.owner == Some(turns.last().worker)));
    }
}

// ---------------------------------------------------------------------------
// One minute
// ---------------------------------------------------------------------------
/// What became of the job: nothing; or it was applied once; or it failed once, with the line of
/// the status that refused it. In the last two cases the row holds the time of the transaction.
pub open spec fn outcome(start: JobRow, job: SharedJob) -> bool {
    ||| job.applied == 0 && job.failed == 0 && job.row == start
    ||| job.applied == 1 && job.failed == 0 && job.row == applied_row(start, job.attempted_at)
    ||| (job.applied == 0 && job.failed == 1 && (job.refused matches Some(code) && job.row
        == failed_row(start, status_line(code), job.attempted_at)))
}

/// The transaction of a worker, once begun, began in the minute from `t0` on.
spec fn began_within(w: Worker, t0: int) -> bool {
    w.pass.phase is Begin || w.pass.phase is Stopped || t0 <= w.txn.began < t0
        + RETRY_AFTER_SECONDS
}

spec fn within_a_minute(start: JobRow, job: SharedJob, workers: Seq<Worker>, t0: int) -> bool {
    &&& outcome(start, job)
    &&& job.applied + job.failed > 0 ==> job.owner is None && t0 <= job.attempted_at < t0
        + RETRY_AFTER_SECONDS
    &&& forall|i: int| 0 <= i < workers.len() ==> began_within(#[trigger] workers[i], t0)
}

proof fn lemma_within_a_minute(row: JobRow, n: nat, turns: Seq<WorkerTurn>, t0: int)
    requires
        pending(row),
        isolated(row, n, turns),
        forall|k: int|
            0 <= k < turns.len() ==> t0 <= (#[trigger] turns[k]).turn.now < t0
                + RETRY_AFTER_SECONDS,
    ensures
        within_a_minute(row, share(row, n, turns).0, share(row, n, turns).1, t0),
    decreases turns.len(),
{
    lemma_in_order(row, n, turns);
    if turns.len() > 0 {
        let earlier = turns.drop_last();
        assert forall|k: int| 0 <= k < earlier.len() implies t0 <= (
        #[trigger] earlier[k]).turn.now < t0 + RETRY_AFTER_SECONDS by {
            assert(earlier[k] == turns[k]);
        }
        lemma_in_order(row, n, earlier);
        lemma_within_a_minute(row, n, earlier, t0);
        let (job, workers) = share(row, n, earlier);
        let e = turns.last();
        assert(e == turns[turns.len() - 1]);
        let w = workers[e.worker];
        let next = worker_after(w, e);
        let all = workers.update(e.worker, next);
        assert(began_within(w, t0));
        assert(worker_in_step(job.row, w));
        assert(began_within(next, t0));
        assert forall|i: int| 0 <= i < all.len() implies began_within(#[trigger] all[i], t0) by {
            if i != e.worker {
                assert(all[i] == workers[i]);
            }
        }
    }
}

/// Within one minute a job is tried once at most, however many workers and passes there are and
/// whatever fails along the way. Its row ends in one of three states: unchanged; executed, with
/// its patch in force, its error cleared, the attempt counted and its time noted; or still
/// pending, its patch not in force, with the line of the status that refused it, the attempt
/// counted and its time noted.
pub proof fn law_job_is_tried_once_in_a_minute(
    row: JobRow,
    n: nat,
    turns: Seq<WorkerTurn>,
    t0: int,
)
    requires
        pending(row),
        isolated(row, n, turns),
        forall|k: int|
            0 <= k < turns.len() ==> t0 <= (#[trigger] turns[k]).turn.now < t0
                + RETRY_AFTER_SECONDS,
    ensures
        outcome(row, share(row, n, turns).0),
        share(row, n, turns).0.row.executed_at is Some <==> share(row, n, turns).0.row.patched,
{
    lemma_within_a_minute(row, n, turns, t0);
    lemma_in_order(row, n, turns);
}

} // verus!
