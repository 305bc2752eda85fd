//! A target host: its name and its tally of task outcomes. The host
//! is the first of the two bookkeeping layers; the run-wide aggregator
//! is the second.

use vstd::prelude::*;
use crate::request::TaskRequest;
use crate::response::{Bucket, TaskResponse, TaskStatus, spec_bucket_of, spec_legal_status};

verus! {

/// One host of the inventory, with its per-host outcome counters.
/// `attempted` counts every recorded response; each of the other
/// counters counts the responses whose status fell in that bucket.
pub struct Host {
    pub name: String,
    pub attempted: u64,
    pub created: u64,
    pub removed: u64,
    pub modified: u64,
    pub executed: u64,
    pub passive: u64,
    pub matched: u64,
    pub skipped: u64,
    pub failed: u64,
}

impl Host {
    /// Sum of the per-bucket counters.
    pub open spec fn spec_bucket_sum(&self) -> int {
        self.created + self.removed + self.modified + self.executed + self.passive
            + self.matched + self.skipped + self.failed
    }

    /// Well-formedness: every bucketed outcome was also attempted, so
    /// the bucket counters can never together exceed `attempted`.
    pub open spec fn wf(&self) -> bool {
        self.spec_bucket_sum() <= self.attempted
    }

    /// A fresh host: all counters at zero.
    pub fn new(name: String) -> (h: Host)
        ensures
            h.name == name,
            h.attempted == 0,
            h.created == 0,
            h.removed == 0,
            h.modified == 0,
            h.executed == 0,
            h.passive == 0,
            h.matched == 0,
            h.skipped == 0,
            h.failed == 0,
            h.wf(),
    {
        Host {
            name,
            attempted: 0,
            created: 0,
            removed: 0,
            modified: 0,
            executed: 0,
            passive: 0,
            matched: 0,
            skipped: 0,
            failed: 0,
        }
    }

    /// Record one response: bump `attempted`, then the counter of the
    /// status's bucket. The response must be protocol-legal for the
    /// request that produced it.
    pub fn record_task_response(&mut self, request: &TaskRequest, response: &TaskResponse)
        requires
            old(self).wf(),
            old(self).attempted < u64::MAX,
            spec_legal_status(request.request_type, response.status),
        ensures
            spec_recorded(*old(self), *final(self), response.status),
    {
        self.attempted = self.attempted + 1;
        match response.status {
            TaskStatus::IsValidated => {},
            TaskStatus::IsMatched => { self.matched = self.matched + 1; },
            TaskStatus::NeedsCreation => { self.created = self.created + 1; },
            TaskStatus::NeedsModification => { self.modified = self.modified + 1; },
            TaskStatus::NeedsRemoval => { self.removed = self.removed + 1; },
            TaskStatus::NeedsExecution => { self.executed = self.executed + 1; },
            TaskStatus::IsCreated => { self.created = self.created + 1; },
            TaskStatus::IsModified => { self.modified = self.modified + 1; },
            TaskStatus::IsRemoved => { self.removed = self.removed + 1; },
            TaskStatus::IsExecuted => { self.executed = self.executed + 1; },
            TaskStatus::IsPassive => { self.passive = self.passive + 1; },
            TaskStatus::IsSkipped => { self.skipped = self.skipped + 1; },
            TaskStatus::Failed => { self.failed = self.failed + 1; },
        }
    }
}

/// What recording one response with the given status does to a host's
/// counters: one more attempt, one more in the status's bucket, all
/// other counters and the name untouched.
pub open spec fn spec_recorded(pre: Host, post: Host, status: TaskStatus) -> bool {
    &&& post.wf()
    &&& post.name == pre.name
    &&& post.attempted == pre.attempted + 1
    &&& post.created == pre.created
        + if spec_bucket_of(status) == Some(Bucket::Created) { 1int } else { 0int }
    &&& post.removed == pre.removed
        + if spec_bucket_of(status) == Some(Bucket::Removed) { 1int } else { 0int }
    &&& post.modified == pre.modified
        + if spec_bucket_of(status) == Some(Bucket::Modified) { 1int } else { 0int }
    &&& post.executed == pre.executed
        + if spec_bucket_of(status) == Some(Bucket::Executed) { 1int } else { 0int }
    &&& post.passive == pre.passive
        + if spec_bucket_of(status) == Some(Bucket::Passive) { 1int } else { 0int }
    &&& post.matched == pre.matched
        + if spec_bucket_of(status) == Some(Bucket::Matched) { 1int } else { 0int }
    &&& post.skipped == pre.skipped
        + if spec_bucket_of(status) == Some(Bucket::Skipped) { 1int } else { 0int }
    &&& post.failed == pre.failed
        + if spec_bucket_of(status) == Some(Bucket::Failed) { 1int } else { 0int }
}

/// Law: for any well-formed host, the number of attempts bounds the
/// sum of all bucketed outcome counts, so no bucket combination can
/// ever exceed what was attempted.
pub proof fn lemma_host_attempts_bound_outcomes(h: &Host)
    requires
        h.wf(),
    ensures
        h.created + h.removed + h.modified + h.executed + h.passive + h.matched + h.skipped
            + h.failed <= h.attempted,
{
}

} // verus!
