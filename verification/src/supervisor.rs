//! The action supervisor: the decision core that turns trigger batches and
//! job completions into directives for the surrounding plumbing.
//!
//! The supervisor owns at most one primary job and one pending follow-up job
//! at a time. A trigger batch with an interrupt signal shuts it down; any
//! other batch with a change event preempts whatever runs and starts a fresh
//! primary job. A completion event only counts when it names the job the
//! supervisor still tracks; completions of preempted jobs are discarded.

use vstd::prelude::*;
use vstd::string::StringExecFns;
use crate::job::{ExitOutcome, JobHandle, JobStatus};
use crate::payload::Payload;
use crate::plan::{clone_dir, spec_invocation};
use crate::report::{RunReport, views};

verus! {

/// The banner shown when watching begins: the watched path, and the
/// follow-up script when one is configured.
pub open spec fn spec_startup_lines(p: Payload) -> Seq<Seq<char>> {
    seq!["Watching: "@ + p.raw_file_path.unwrap().raw@] + (match p.raw_then_path {
        Some(t) => seq!["Then Running: "@ + t.raw@],
        None => Seq::<Seq<char>>::empty(),
    })
}

/// A signal as the supervisor classifies it: the interrupt that requests
/// shutdown, or anything else.
#[derive(Clone, Copy, Debug, PartialEq, Eq, Structural)]
pub enum SignalKind {
    Interrupt,
    Other,
}

/// One delivery from the watch driver: whether a change event for the
/// watched path is present, and which signals were observed with it.
#[derive(Clone, Debug)]
pub struct TriggerBatch {
    pub has_change: bool,
    pub signals: Vec<SignalKind>,
}

impl TriggerBatch {
    /// Whether the batch carries an interrupt signal.
    pub open spec fn spec_has_interrupt(self) -> bool {
        exists|i: int| 0 <= i < self.signals@.len() && self.signals@[i] is Interrupt
    }

    /// Scan the batch's signals for an interrupt.
    pub fn has_interrupt(&self) -> (r: bool)
        ensures
            r == self.spec_has_interrupt(),
    {
        let mut idx: usize = 0;
        while idx < self.signals.len()
            invariant
                idx <= self.signals.len(),
                forall|i: int| 0 <= i < idx ==> !(self.signals@[i] is Interrupt),
            decreases self.signals.len() - idx,
        {
            match self.signals[idx] {
                SignalKind::Interrupt => {
                    return true;
                },
                SignalKind::Other => {},
            }
            idx = idx + 1;
        }
        false
    }
}

/// What the plumbing must do after a trigger batch was handled.
#[derive(Clone, Copy, Debug, PartialEq, Eq)]
pub enum BatchDirective {
    /// Stop watching: reap whatever still runs and leave the main loop.
    Shutdown,
    /// A fresh primary job was started. `preempted` and `preempted_then`
    /// hand back the jobs this start displaced, already cancelled, for the
    /// plumbing to reap; `then_job_id` names the follow-up job to create but
    /// not yet start.
    Start { job_id: u64, then_job_id: Option<u64>, preempted: Option<JobHandle>, preempted_then: Option<JobHandle> },
    /// Nothing to do for this batch.
    Ignore,
}

/// What the plumbing must do after a completion event was handled.
#[derive(Clone, Debug, PartialEq, Eq)]
pub enum CompletionDirective {
    /// The completion named the tracked run. `start_then` names the
    /// follow-up job to start, when the run succeeded and one is pending;
    /// `report` carries the run report, absent for a cancelled run.
    Finished { start_then: Option<u64>, report: Option<RunReport> },
    /// The completion was stale (a preempted run, or one after shutdown):
    /// discard it silently.
    Ignore,
}

/// The supervisor itself: the payload it was configured with, the job slots
/// it owns, the next free job id, and whether it has shut down.
#[derive(Clone, Debug)]
pub struct RunnerV2 {
    pub payload: Payload,
    /// The primary job of the most recent run, if any.
    pub current: Option<JobHandle>,
    /// The follow-up job created for the most recent run, if any.
    pub pending_then: Option<JobHandle>,
    /// Job ids are handed out from this counter in increasing order.
    pub next_job_id: u64,
    /// Set once an interrupt was handled; no further work is started.
    pub shutdown: bool,
}

/// A cancelled copy of a job slot: a dead job is kept as it was, a live one
/// becomes `Cancelled`.
pub open spec fn cancel_slot(slot: Option<JobHandle>) -> Option<JobHandle> {
    match slot {
        Some(j) => Some(JobHandle { id: j.id, status: j.status.after_cancel() }),
        None => None,
    }
}

impl RunnerV2 {
    /// The primary job slot holds a running job.
    pub open spec fn current_running(self) -> bool {
        self.current matches Some(j) && j.status is Running
    }

    /// The follow-up job slot holds a running job.
    pub open spec fn then_running(self) -> bool {
        self.pending_then matches Some(j) && j.status is Running
    }

    /// The supervisor's invariant. Centrally: at most one job is running at
    /// any time (single-flight), ids of held jobs are below the id counter
    /// (so a fresh id never collides with a held job), nothing runs after
    /// shutdown, a running primary job has its start moment recorded, and a
    /// pending follow-up is still unstarted while the primary runs.
    pub open spec fn wf(self) -> bool {
        &&& self.payload.runnable()
        &&& (self.current matches Some(j) ==> j.id < self.next_job_id)
        &&& (self.pending_then matches Some(j) ==> j.id < self.next_job_id)
        &&& (self.current is Some && self.pending_then is Some ==> self.current.unwrap().id
            != self.pending_then.unwrap().id)
        &&& !(self.current_running() && self.then_running())
        &&& (self.shutdown ==> !self.current_running() && !self.then_running())
        &&& (self.current_running() ==> self.payload.start_tick is Some)
        &&& (self.pending_then is Some ==> self.payload.raw_then_path is Some)
        &&& (self.current_running() && self.pending_then is Some
            ==> self.pending_then.unwrap().status is Unstarted)
    }

    /// A supervisor that has not yet seen any trigger.
    pub fn new(payload: Payload) -> (r: RunnerV2)
        requires
            payload.runnable(),
        ensures
            r.payload == payload,
            r.current is None,
            r.pending_then is None,
            r.next_job_id == 0,
            !r.shutdown,
            r.wf(),
    {
        RunnerV2 { payload, current: None, pending_then: None, next_job_id: 0, shutdown: false }
    }

    /// The lines announced when watching begins.
    pub fn startup_lines(&self) -> (lines: Vec<String>)
        requires
            self.payload.raw_file_path is Some,
        ensures
            views(lines@) == spec_startup_lines(self.payload),
    {
        let mut lines: Vec<String> = Vec::new();
        let mut watching = String::from_str("Watching: ");
        watching.append(self.payload.watch_path().as_str());
        lines.push(watching);
        match &self.payload.raw_then_path {
            Some(t) => {
                let mut chained = String::from_str("Then Running: ");
                chained.append(t.raw.as_str());
                lines.push(chained);
            },
            None => {},
        }
        proof {
            assert(views(lines@) =~= spec_startup_lines(self.payload));
        }
        lines
    }

    /// The state and directive after one trigger batch: shutdown on an
    /// interrupt (the signal wins over any change event in the same batch),
    /// a preempting fresh start on a change event, nothing otherwise.
    pub open spec fn batch_step(pre: RunnerV2, batch: TriggerBatch, now: u64) -> (RunnerV2,
        BatchDirective,
    ) {
        if pre.shutdown {
            (pre, BatchDirective::Ignore)
        } else if batch.spec_has_interrupt() {
            (
                RunnerV2 {
                    payload: pre.payload,
                    current: cancel_slot(pre.current),
                    pending_then: cancel_slot(pre.pending_then),
                    next_job_id: pre.next_job_id,
                    shutdown: true,
                },
                BatchDirective::Shutdown,
            )
        } else if batch.has_change {
            let primary_id = pre.next_job_id;
            let has_chain = pre.payload.raw_then_path is Some;
            let then_id: Option<u64> = if has_chain {
                Some((pre.next_job_id + 1) as u64)
            } else {
                None
            };
            (
                RunnerV2 {
                    payload: Payload {
                        initial_dir: pre.payload.initial_dir,
                        raw_file_path: pre.payload.raw_file_path,
                        raw_then_path: pre.payload.raw_then_path,
                        start_tick: Some(now),
                    },
                    current: Some(JobHandle { id: primary_id, status: JobStatus::Running }),
                    pending_then: match then_id {
                        Some(tid) => Some(JobHandle { id: tid, status: JobStatus::Unstarted }),
                        None => None,
                    },
                    next_job_id: if has_chain {
                        (pre.next_job_id + 2) as u64
                    } else {
                        (pre.next_job_id + 1) as u64
                    },
                    shutdown: false,
                },
                BatchDirective::Start {
                    job_id: primary_id,
                    then_job_id: then_id,
                    preempted: cancel_slot(pre.current),
                    preempted_then: cancel_slot(pre.pending_then),
                },
            )
        } else {
            (pre, BatchDirective::Ignore)
        }
    }

    /// Handle one trigger batch, in arrival order. The interrupt check comes
    /// first and wins over any change event in the same batch. On a change
    /// event, whatever still runs is cancelled before the fresh primary job
    /// is started, and the start moment is recorded.
    pub fn handle_batch(&mut self, batch: &TriggerBatch, now: u64) -> (d: BatchDirective)
        requires
            old(self).wf(),
            !old(self).shutdown,
            old(self).next_job_id + 2 <= u64::MAX,
        ensures
            final(self).wf(),
            (*final(self), d) == RunnerV2::batch_step(*old(self), *batch, now),
    {
        if batch.has_interrupt() {
            match &mut self.current {
                Some(j) => j.cancel(),
                None => {},
            }
            match &mut self.pending_then {
                Some(j) => j.cancel(),
                None => {},
            }
            self.shutdown = true;
            BatchDirective::Shutdown
        } else if batch.has_change {
            match &mut self.current {
                Some(j) => j.cancel(),
                None => {},
            }
            match &mut self.pending_then {
                Some(j) => j.cancel(),
                None => {},
            }
            let preempted = self.current;
            let preempted_then = self.pending_then;
            let primary_id = self.next_job_id;
            let mut job = JobHandle::new(primary_id);
            job.start();
            self.current = Some(job);
            let then_job_id: Option<u64>;
            if self.payload.raw_then_path.is_some() {
                let tid = self.next_job_id + 1;
                self.pending_then = Some(JobHandle::new(tid));
                self.next_job_id = self.next_job_id + 2;
                then_job_id = Some(tid);
            } else {
                self.pending_then = None;
                self.next_job_id = self.next_job_id + 1;
                then_job_id = None;
            }
            self.payload.mark_time(now);
            BatchDirective::Start { job_id: primary_id, then_job_id, preempted, preempted_then }
        } else {
            BatchDirective::Ignore
        }
    }

    /// A completion event counts only when the supervisor has not shut down
    /// and the event names the job still tracked as current, while that job
    /// is running. Everything else is a stale completion.
    pub open spec fn completion_relevant(pre: RunnerV2, job_id: u64) -> bool {
        &&& !pre.shutdown
        &&& pre.current matches Some(j) && j.id == job_id && j.status is Running
    }

    /// The follow-up job to start for a completion: only a successful run
    /// chains, and only when a follow-up is pending.
    pub open spec fn chain_target(pre: RunnerV2, outcome: ExitOutcome) -> Option<u64> {
        if outcome is Success && pre.pending_then is Some {
            Some(pre.pending_then.unwrap().id)
        } else {
            None
        }
    }

    /// The start moment recorded for the run in flight.
    pub open spec fn start_mark(pre: RunnerV2) -> u64 {
        match pre.payload.start_tick {
            Some(t) => t,
            None => 0,
        }
    }

    /// Elapsed milliseconds between a start mark and a completion moment;
    /// zero if the clock ran backwards.
    pub open spec fn spec_elapsed(started: u64, now: u64) -> u64 {
        if now >= started {
            (now - started) as u64
        } else {
            0
        }
    }

    /// The supervisor state after a completion event: a relevant completion
    /// moves the tracked job to its terminal status and starts the pending
    /// follow-up on success; a stale one changes nothing.
    pub open spec fn completion_post(pre: RunnerV2, job_id: u64, outcome: ExitOutcome) -> RunnerV2 {
        if Self::completion_relevant(pre, job_id) {
            let j = pre.current.unwrap();
            RunnerV2 {
                payload: pre.payload,
                current: Some(JobHandle { id: j.id, status: outcome.as_status() }),
                pending_then: if Self::chain_target(pre, outcome) is Some {
                    Some(
                        JobHandle {
                            id: pre.pending_then.unwrap().id,
                            status: JobStatus::Running,
                        },
                    )
                } else {
                    pre.pending_then
                },
                next_job_id: pre.next_job_id,
                shutdown: pre.shutdown,
            }
        } else {
            pre
        }
    }

    /// Handle the completion of the job named `job_id`. A completion for a
    /// job that is no longer current is discarded without any state change,
    /// report or chaining; for the tracked run, success starts the pending
    /// follow-up, and a non-cancelled completion yields a report.
    pub fn handle_completion(&mut self, job_id: u64, outcome: ExitOutcome, now: u64) -> (d:
        CompletionDirective)
        requires
            old(self).wf(),
        ensures
            final(self).wf(),
            *final(self) == RunnerV2::completion_post(*old(self), job_id, outcome),
            !RunnerV2::completion_relevant(*old(self), job_id) ==> d
                == CompletionDirective::Ignore,
            RunnerV2::completion_relevant(*old(self), job_id) ==> (d matches
                CompletionDirective::Finished { start_then, report } && {
                &&& start_then == RunnerV2::chain_target(*old(self), outcome)
                &&& (outcome is Cancelled ==> report is None)
                &&& (!(outcome is Cancelled) ==> (report matches Some(r) && {
                    &&& r.started_at == RunnerV2::start_mark(*old(self))
                    &&& r.elapsed_ms == RunnerV2::spec_elapsed(
                        RunnerV2::start_mark(*old(self)),
                        now,
                    )
                    &&& r.directory == old(self).payload.raw_file_path.unwrap().parent
                    &&& r.command_label@ == spec_invocation(
                        old(self).payload.raw_file_path.unwrap().name@,
                    )
                }))
            }),
    {
        let relevant: bool = if self.shutdown {
            false
        } else {
            match &self.current {
                Some(j) => {
                    let running = match j.status {
                        JobStatus::Running => true,
                        _ => false,
                    };
                    j.id == job_id && running
                },
                None => false,
            }
        };
        if !relevant {
            return CompletionDirective::Ignore;
        }
        let success = match outcome {
            ExitOutcome::Success => true,
            _ => false,
        };
        match &mut self.current {
            Some(j) => j.complete(outcome),
            None => {
                proof {
                    assert(false);
                }
            },
        }
        let start_then: Option<u64>;
        if success && self.pending_then.is_some() {
            match &mut self.pending_then {
                Some(t) => {
                    t.start();
                    start_then = Some(t.id);
                },
                None => {
                    proof {
                        assert(false);
                    }
                    start_then = None;
                },
            }
        } else {
            start_then = None;
        }
        let report: Option<RunReport> = match outcome {
            ExitOutcome::Cancelled => None,
            _ => {
                let started = match self.payload.start_tick {
                    Some(t) => t,
                    None => 0,
                };
                let elapsed = if now >= started {
                    now - started
                } else {
                    0
                };
                let directory = match &self.payload.raw_file_path {
                    Some(p) => clone_dir(&p.parent),
                    None => None,
                };
                let command_label = self.payload.file_command();
                Some(RunReport { started_at: started, elapsed_ms: elapsed, directory, command_label })
            },
        };
        CompletionDirective::Finished { start_then, report }
    }
}

} // verus!
