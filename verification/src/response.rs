//! Response side of the status protocol: the closed set of response
//! statuses, the per-request-kind whitelist of legal statuses, and the
//! mapping from a status to the aggregation bucket it counts toward.

use vstd::prelude::*;
use crate::request::TaskRequestType;
use crate::command::CommandResult;

verus! {

/// Outcome reported by module logic for one request on one host.
#[derive(Clone, Copy, PartialEq, Eq, Structural, Debug)]
pub enum TaskStatus {
    IsValidated,
    IsMatched,
    NeedsCreation,
    NeedsModification,
    NeedsRemoval,
    NeedsExecution,
    IsCreated,
    IsModified,
    IsRemoved,
    IsExecuted,
    IsPassive,
    IsSkipped,
    Failed,
}

/// The per-request-kind whitelist: which statuses a request of the
/// given kind may legally produce. `IsExecuted`, `IsPassive`,
/// `IsSkipped` and `Failed` may end any phase; every other status is
/// tied to exactly one phase.
pub open spec fn spec_legal_status(kind: TaskRequestType, status: TaskStatus) -> bool {
    match status {
        TaskStatus::IsValidated => kind == TaskRequestType::Validate,
        TaskStatus::IsMatched => kind == TaskRequestType::Query,
        TaskStatus::NeedsCreation => kind == TaskRequestType::Query,
        TaskStatus::NeedsModification => kind == TaskRequestType::Query,
        TaskStatus::NeedsRemoval => kind == TaskRequestType::Query,
        TaskStatus::NeedsExecution => kind == TaskRequestType::Query,
        TaskStatus::IsCreated => kind == TaskRequestType::Create,
        TaskStatus::IsModified => kind == TaskRequestType::Modify,
        TaskStatus::IsRemoved => kind == TaskRequestType::Remove,
        TaskStatus::IsExecuted => true,
        TaskStatus::IsPassive => true,
        TaskStatus::IsSkipped => true,
        TaskStatus::Failed => true,
    }
}

/// Runtime form of the whitelist, for callers outside proof contexts.
pub fn is_legal_status(kind: TaskRequestType, status: TaskStatus) -> (r: bool)
    ensures
        r == spec_legal_status(kind, status),
{
    match status {
        TaskStatus::IsValidated => kind == TaskRequestType::Validate,
        TaskStatus::IsMatched => kind == TaskRequestType::Query,
        TaskStatus::NeedsCreation => kind == TaskRequestType::Query,
        TaskStatus::NeedsModification => kind == TaskRequestType::Query,
        TaskStatus::NeedsRemoval => kind == TaskRequestType::Query,
        TaskStatus::NeedsExecution => kind == TaskRequestType::Query,
        TaskStatus::IsCreated => kind == TaskRequestType::Create,
        TaskStatus::IsModified => kind == TaskRequestType::Modify,
        TaskStatus::IsRemoved => kind == TaskRequestType::Remove,
        TaskStatus::IsExecuted => true,
        TaskStatus::IsPassive => true,
        TaskStatus::IsSkipped => true,
        TaskStatus::Failed => true,
    }
}

/// Aggregation bucket that a terminal status counts toward. A real
/// outcome and its check-mode "would do" counterpart share a bucket,
/// which is what makes the two reporting modes symmetric.
#[derive(Clone, Copy, PartialEq, Eq, Structural, Debug)]
pub enum Bucket {
    Created,
    Removed,
    Modified,
    Executed,
    Passive,
    Matched,
    Skipped,
    Failed,
}

/// Bucket of a status, or `None` for `IsValidated`, which only counts
/// as an attempt.
pub open spec fn spec_bucket_of(status: TaskStatus) -> Option<Bucket> {
    match status {
        TaskStatus::IsValidated => None,
        TaskStatus::IsMatched => Some(Bucket::Matched),
        TaskStatus::NeedsCreation => Some(Bucket::Created),
        TaskStatus::NeedsModification => Some(Bucket::Modified),
        TaskStatus::NeedsRemoval => Some(Bucket::Removed),
        TaskStatus::NeedsExecution => Some(Bucket::Executed),
        TaskStatus::IsCreated => Some(Bucket::Created),
        TaskStatus::IsModified => Some(Bucket::Modified),
        TaskStatus::IsRemoved => Some(Bucket::Removed),
        TaskStatus::IsExecuted => Some(Bucket::Executed),
        TaskStatus::IsPassive => Some(Bucket::Passive),
        TaskStatus::IsSkipped => Some(Bucket::Skipped),
        TaskStatus::Failed => Some(Bucket::Failed),
    }
}

/// A bucket that counts as an adjustment of the host: something was
/// (or would be) created, modified, removed or executed.
pub open spec fn spec_adjusting_bucket(b: Bucket) -> bool {
    match b {
        Bucket::Created => true,
        Bucket::Removed => true,
        Bucket::Modified => true,
        Bucket::Executed => true,
        Bucket::Passive => false,
        Bucket::Matched => false,
        Bucket::Skipped => false,
        Bucket::Failed => false,
    }
}

/// A status whose bucket adjusts the host.
pub open spec fn spec_status_adjusting(status: TaskStatus) -> bool {
    match spec_bucket_of(status) {
        Some(b) => spec_adjusting_bucket(b),
        None => false,
    }
}

/// Statuses the real-mode reporter accepts as a successful terminal
/// outcome; anything else reaching it is a protocol violation.
pub open spec fn spec_real_mode_final(status: TaskStatus) -> bool {
    match status {
        TaskStatus::IsCreated => true,
        TaskStatus::IsRemoved => true,
        TaskStatus::IsModified => true,
        TaskStatus::IsExecuted => true,
        TaskStatus::IsPassive => true,
        TaskStatus::IsMatched => true,
        TaskStatus::IsSkipped => true,
        TaskStatus::Failed => true,
        _ => false,
    }
}

/// Statuses the check-mode reporter accepts as a successful terminal
/// outcome: the "would do" vocabulary plus the mode-independent ones.
pub open spec fn spec_check_mode_final(status: TaskStatus) -> bool {
    match status {
        TaskStatus::NeedsCreation => true,
        TaskStatus::NeedsRemoval => true,
        TaskStatus::NeedsModification => true,
        TaskStatus::NeedsExecution => true,
        TaskStatus::IsPassive => true,
        TaskStatus::IsMatched => true,
        TaskStatus::IsSkipped => true,
        TaskStatus::Failed => true,
        _ => false,
    }
}

/// The check-mode status that reports the same host drift as the given
/// real-mode status: each applied outcome maps to its "would do"
/// counterpart, and the mode-independent outcomes map to themselves.
pub open spec fn spec_check_counterpart(status: TaskStatus) -> TaskStatus {
    match status {
        TaskStatus::IsCreated => TaskStatus::NeedsCreation,
        TaskStatus::IsRemoved => TaskStatus::NeedsRemoval,
        TaskStatus::IsModified => TaskStatus::NeedsModification,
        TaskStatus::IsExecuted => TaskStatus::NeedsExecution,
        _ => status,
    }
}

/// A check-mode run and a real-mode run that observe the same host
/// drift feed the same aggregator bucket: the check counterpart of
/// every real-mode terminal status is a check-mode terminal status
/// with the identical bucket.
pub proof fn lemma_check_mode_bucket_parity(status: TaskStatus)
    requires
        spec_real_mode_final(status),
    ensures
        spec_check_mode_final(spec_check_counterpart(status)),
        spec_bucket_of(spec_check_counterpart(status)) == spec_bucket_of(status),
        spec_status_adjusting(spec_check_counterpart(status)) == spec_status_adjusting(status),
{
}

/// Law: the check-mode reporter never consumes the outcome of an
/// applied change. The statuses that the create, modify, remove and
/// command constructors produce lie outside the check-mode
/// vocabulary, so a run that reports through the check-mode reporter
/// cannot have performed any of those mutations.
pub proof fn lemma_check_mode_rejects_applied_outcomes()
    ensures
        !spec_check_mode_final(TaskStatus::IsCreated),
        !spec_check_mode_final(TaskStatus::IsModified),
        !spec_check_mode_final(TaskStatus::IsRemoved),
        !spec_check_mode_final(TaskStatus::IsExecuted),
{
}

/// Immutable record of one task outcome: status, optional structured
/// changes (for the modify family), optional diagnostic message (for
/// failures), optional command result.
#[derive(Debug)]
pub struct TaskResponse {
    pub status: TaskStatus,
    pub changes: Option<Vec<(String, String)>>,
    pub msg: Option<String>,
    pub command_result: Option<CommandResult>,
}

} // verus!
