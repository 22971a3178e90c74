//! The supervisor's laws: the properties the decision core guarantees,
//! stated over the transition functions and proved once and for all.

use vstd::prelude::*;
use crate::job::{ExitOutcome, JobHandle, JobStatus};
use crate::supervisor::{BatchDirective, RunnerV2, TriggerBatch};

verus! {

/// At most one of the supervisor's job slots holds a running job.
pub open spec fn single_flight_at(s: RunnerV2) -> bool {
    !(s.current_running() && s.then_running())
}

/// The supervisor state after a whole sequence of trigger batches, the
/// `i`-th handled at moment `times[i]`.
pub open spec fn run_batches(start: RunnerV2, batches: Seq<TriggerBatch>, times: Seq<u64>) -> RunnerV2
    decreases batches.len(),
{
    if batches.len() == 0 {
        start
    } else {
        RunnerV2::batch_step(
            run_batches(start, batches.drop_last(), times.drop_last()),
            batches.last(),
            times.last(),
        ).0
    }
}

/// One trigger batch keeps the supervisor invariant, and hands out at most
/// two fresh job ids.
pub proof fn lemma_batch_step_wf(pre: RunnerV2, batch: TriggerBatch, now: u64)
    requires
        pre.wf(),
        pre.next_job_id + 2 <= u64::MAX,
    ensures
        RunnerV2::batch_step(pre, batch, now).0.wf(),
        RunnerV2::batch_step(pre, batch, now).0.next_job_id <= pre.next_job_id + 2,
{
}

/// A completion event keeps the supervisor invariant and never touches the
/// id counter.
pub proof fn lemma_completion_post_wf(pre: RunnerV2, job_id: u64, outcome: ExitOutcome)
    requires
        pre.wf(),
    ensures
        RunnerV2::completion_post(pre, job_id, outcome).wf(),
        RunnerV2::completion_post(pre, job_id, outcome).next_job_id == pre.next_job_id,
{
}

/// Single-flight, one step: after any trigger batch at most one job runs,
/// and when the batch starts a new job, every job the start displaced is
/// handed back dead — cancelled, unless it had already completed on its own
/// — before the new job, under a fresh id, is the one tracked as current.
pub proof fn lemma_single_flight(pre: RunnerV2, batch: TriggerBatch, now: u64)
    requires
        pre.wf(),
        pre.next_job_id + 2 <= u64::MAX,
    ensures
        ({
            let (post, d) = RunnerV2::batch_step(pre, batch, now);
            &&& post.wf()
            &&& single_flight_at(post)
            &&& (d matches BatchDirective::Start { job_id, then_job_id, preempted, preempted_then }
                ==> {
                &&& (preempted matches Some(p) ==> p.status.is_dead())
                &&& (preempted_then matches Some(p) ==> p.status.is_dead())
                &&& (pre.current matches Some(c) ==> preempted == Some(
                    JobHandle { id: c.id, status: c.status.after_cancel() },
                ) && job_id != c.id)
                &&& post.current == Some(JobHandle { id: job_id, status: JobStatus::Running })
            })
        }),
{
}

/// Single-flight, whole histories: after every prefix of any sequence of
/// trigger batches — however fast they arrive — at most one job is running.
pub proof fn lemma_single_flight_sequence(start: RunnerV2, batches: Seq<TriggerBatch>, times: Seq<
    u64,
>)
    requires
        start.wf(),
        times.len() == batches.len(),
        start.next_job_id + 2 * batches.len() <= u64::MAX,
    ensures
        forall|i: int|
            0 <= i <= batches.len() ==> single_flight_at(
                #[trigger] run_batches(start, batches.take(i), times.take(i)),
            ),
{
    assert forall|i: int|
        0 <= i <= batches.len() implies single_flight_at(
        run_batches(start, batches.take(i), times.take(i)),
    ) by {
        lemma_run_batches_wf(start, batches.take(i), times.take(i));
    }
}

/// The invariant holds after any sequence of trigger batches, and the id
/// counter grows by at most two per batch.
pub proof fn lemma_run_batches_wf(start: RunnerV2, batches: Seq<TriggerBatch>, times: Seq<u64>)
    requires
        start.wf(),
        times.len() == batches.len(),
        start.next_job_id + 2 * batches.len() <= u64::MAX,
    ensures
        run_batches(start, batches, times).wf(),
        run_batches(start, batches, times).next_job_id <= start.next_job_id + 2 * batches.len(),
    decreases batches.len(),
{
    if batches.len() > 0 {
        lemma_run_batches_wf(start, batches.drop_last(), times.drop_last());
        lemma_batch_step_wf(
            run_batches(start, batches.drop_last(), times.drop_last()),
            batches.last(),
            times.last(),
        );
    }
}

/// Preemption suppresses chaining: when a change-event batch preempts the
/// job tracked as current, a completion event for that job arriving any time
/// later is no longer relevant — the supervisor discards it, so no follow-up
/// is started for the preempted run and no report is produced for it.
pub proof fn lemma_preemption_suppresses_chain(
    pre: RunnerV2,
    batch: TriggerBatch,
    now: u64,
    preempted_job: JobHandle,
    outcome: ExitOutcome,
)
    requires
        pre.wf(),
        !pre.shutdown,
        pre.next_job_id + 2 <= u64::MAX,
        pre.current == Some(preempted_job),
        !batch.spec_has_interrupt(),
        batch.has_change,
    ensures
        ({
            let (post, d) = RunnerV2::batch_step(pre, batch, now);
            &&& !RunnerV2::completion_relevant(post, preempted_job.id)
            &&& RunnerV2::completion_post(post, preempted_job.id, outcome) == post
        }),
{
}

/// Signal precedence: a batch that carries an interrupt shuts the
/// supervisor down — even when the same batch also carries a change event.
/// No job id is handed out, so no new run is started; a still-running job is
/// cancelled.
pub proof fn lemma_signal_precedence(pre: RunnerV2, batch: TriggerBatch, now: u64)
    requires
        !pre.shutdown,
        batch.spec_has_interrupt(),
    ensures
        ({
            let (post, d) = RunnerV2::batch_step(pre, batch, now);
            &&& d == BatchDirective::Shutdown
            &&& post.shutdown
            &&& post.next_job_id == pre.next_job_id
            &&& (pre.current matches Some(j) ==> post.current == Some(
                JobHandle { id: j.id, status: j.status.after_cancel() },
            ))
        }),
{
}

/// Directory restore: the `cd` sequence of a run is computed from the
/// starting directory and the stored script paths alone, no supervisor step
/// changes those, and the sequence always begins at the starting directory —
/// so one run's directory change cannot leak into the next run's.
pub proof fn lemma_directory_restore(
    pre: RunnerV2,
    batch: TriggerBatch,
    now: u64,
    job_id: u64,
    outcome: ExitOutcome,
)
    requires
        pre.wf(),
    ensures
        RunnerV2::batch_step(pre, batch, now).0.payload.file_cd_seq()
            == pre.payload.file_cd_seq(),
        RunnerV2::completion_post(pre, job_id, outcome).payload == pre.payload,
        pre.payload.file_cd_seq()[0] == pre.payload.initial_dir.unwrap(),
        pre.payload.file_cd_seq().len() >= 1,
{
}

} // verus!
