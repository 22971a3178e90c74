//! Job handles: the lifecycle of a single supervised process invocation.

use vstd::prelude::*;

verus! {

/// Lifecycle stage of one process invocation.
#[derive(Clone, Copy, Debug, PartialEq, Eq, Structural)]
pub enum JobStatus {
    Unstarted,
    Running,
    CompletedSuccess,
    CompletedFailure,
    Cancelled,
}

/// How a job left the `Running` state.
#[derive(Clone, Copy, Debug, PartialEq, Eq, Structural)]
pub enum ExitOutcome {
    Success,
    Failure(i32),
    Cancelled,
}

impl JobStatus {
    /// A job is dead once it has completed or been cancelled; an unstarted
    /// job is not yet dead, and a running one is alive.
    pub open spec fn is_dead(self) -> bool {
        self is CompletedSuccess || self is CompletedFailure || self is Cancelled
    }

    /// The status after a cancellation request: a dead job stays exactly as
    /// it was, anything else becomes `Cancelled`.
    pub open spec fn after_cancel(self) -> JobStatus {
        if self.is_dead() {
            self
        } else {
            JobStatus::Cancelled
        }
    }
}

impl ExitOutcome {
    /// The terminal status a running job reaches for this outcome.
    pub open spec fn as_status(self) -> JobStatus {
        match self {
            ExitOutcome::Success => JobStatus::CompletedSuccess,
            ExitOutcome::Failure(_) => JobStatus::CompletedFailure,
            ExitOutcome::Cancelled => JobStatus::Cancelled,
        }
    }
}

/// One process invocation, identified by a generation number that the
/// supervisor hands out in increasing order. The identity lets a completion
/// event for a stale, preempted job be told apart from one for the job the
/// supervisor still tracks.
#[derive(Clone, Copy, Debug, PartialEq, Eq, Structural)]
pub struct JobHandle {
    pub id: u64,
    pub status: JobStatus,
}

impl JobHandle {
    /// A freshly created, not yet started job.
    pub fn new(id: u64) -> (j: JobHandle)
        ensures
            j.id == id,
            j.status is Unstarted,
    {
        JobHandle { id, status: JobStatus::Unstarted }
    }

    /// Move an unstarted job into the running state.
    pub fn start(&mut self)
        requires
            old(self).status is Unstarted,
        ensures
            final(self).id == old(self).id,
            final(self).status is Running,
    {
        self.status = JobStatus::Running;
    }

    /// Whether the job has completed or been cancelled.
    pub fn is_dead(&self) -> (r: bool)
        ensures
            r == self.status.is_dead(),
    {
        match self.status {
            JobStatus::CompletedSuccess => true,
            JobStatus::CompletedFailure => true,
            JobStatus::Cancelled => true,
            JobStatus::Unstarted => false,
            JobStatus::Running => false,
        }
    }

    /// Request termination. Cancelling a job that is already dead is a no-op:
    /// the handle is left exactly as it was.
    pub fn cancel(&mut self)
        ensures
            final(self).id == old(self).id,
            final(self).status == old(self).status.after_cancel(),
            old(self).status.is_dead() ==> *final(self) == *old(self),
    {
        if !self.is_dead() {
            self.status = JobStatus::Cancelled;
        }
    }

    /// Record how a running job exited.
    pub fn complete(&mut self, outcome: ExitOutcome)
        requires
            old(self).status is Running,
        ensures
            final(self).id == old(self).id,
            final(self).status == outcome.as_status(),
    {
        self.status = match outcome {
            ExitOutcome::Success => JobStatus::CompletedSuccess,
            ExitOutcome::Failure(_) => JobStatus::CompletedFailure,
            ExitOutcome::Cancelled => JobStatus::Cancelled,
        };
    }
}

/// Cancellation is idempotent: a second cancellation changes nothing, and a
/// job that is already dead is left untouched by the first one.
pub proof fn lemma_cancel_idempotent(s: JobStatus)
    ensures
        s.after_cancel().after_cancel() == s.after_cancel(),
        s.is_dead() ==> s.after_cancel() == s,
{
}

} // verus!
