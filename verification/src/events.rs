//! Lifecycle events of a playbook run. The core emits these values;
//! a pluggable renderer outside the core turns them into colorized
//! terminal output, structured logs, or anything else, so the
//! protocol and aggregation logic stay free of presentation.

use vstd::prelude::*;
use crate::command::CommandResult;
use crate::response::TaskStatus;

verus! {

/// Whether a task runs in the normal sequence or as a handler
/// triggered by notification.
#[derive(Clone, Copy, PartialEq, Eq, Structural, Debug)]
pub enum HandlerMode {
    NormalTasks,
    Handlers,
}

/// One user-visible lifecycle event of the run.
pub enum Event {
    PlaybookStart { path: String },
    PlayStart { play: String },
    PlayComplete { play: String },
    PlayFailed { play: String },
    TaskStart { is_handler: HandlerMode, role: Option<String>, task: String },
    BatchStart { batch_num: usize, batch_count: usize, batch_size: usize },
    HostTaskStart { host: String },
    HandlerNotified { host: String, handler: String },
    Delegating { host: String, delegate: String },
    HostCreated { host: String },
    HostRemoved { host: String },
    HostModified { host: String },
    HostExecuted { host: String },
    HostPassive { host: String },
    HostMatched { host: String },
    HostSkipped { host: String },
    HostFailedIgnored { host: String },
    WouldCreate { host: String },
    WouldRemove { host: String },
    WouldModify { host: String },
    WouldExecute { host: String },
    RetryNotice { host: String, retries: u64, delay: u64 },
    TaskFailedCommand { host: String, result: CommandResult },
    TaskFailedMessage { host: String, msg: String },
    TaskFailedBare { host: String },
    ConnectionFailed { host: String },
    TransferNotice { host: String, path: String },
    ExecNotice { host: String, cmd: String },
    CommandOkDetail { host: String, result: CommandResult },
    CommandFailedDetail { host: String, result: CommandResult },
    HostDebug { host: String, message: String },
}

/// The event the real-mode reporter emits for a terminal status.
/// Meaningful only for statuses in the real-mode vocabulary.
pub open spec fn spec_real_event(status: TaskStatus, host: String) -> Event {
    match status {
        TaskStatus::IsCreated => Event::HostCreated { host },
        TaskStatus::IsRemoved => Event::HostRemoved { host },
        TaskStatus::IsModified => Event::HostModified { host },
        TaskStatus::IsExecuted => Event::HostExecuted { host },
        TaskStatus::IsPassive => Event::HostPassive { host },
        TaskStatus::IsMatched => Event::HostMatched { host },
        TaskStatus::IsSkipped => Event::HostSkipped { host },
        _ => Event::HostFailedIgnored { host },
    }
}

/// The event the check-mode reporter emits for a terminal status.
/// Meaningful only for statuses in the check-mode vocabulary.
pub open spec fn spec_check_event(status: TaskStatus, host: String) -> Event {
    match status {
        TaskStatus::NeedsCreation => Event::WouldCreate { host },
        TaskStatus::NeedsRemoval => Event::WouldRemove { host },
        TaskStatus::NeedsModification => Event::WouldModify { host },
        TaskStatus::NeedsExecution => Event::WouldExecute { host },
        TaskStatus::IsPassive => Event::HostPassive { host },
        TaskStatus::IsMatched => Event::HostMatched { host },
        TaskStatus::IsSkipped => Event::HostSkipped { host },
        _ => Event::HostFailedIgnored { host },
    }
}

} // verus!
