//! The task handle: the only object module logic is given. It
//! constructs protocol-legal responses (one constructor per legal
//! request-kind/status pairing), records every response into the
//! host's counters, forwards command execution to the connection, and
//! collects module diagnostics for the reporting surface.

use vstd::prelude::*;
use crate::command::CommandResult;
use crate::connection::Connection;
use crate::hosts::{Host, spec_recorded};
use crate::request::{TaskRequest, TaskRequestType};
use crate::response::{TaskResponse, TaskStatus, spec_legal_status};

verus! {

/// The mediator between one unit of module logic and one host: owns
/// the host's bookkeeping, the host's connection, and a log of
/// diagnostic lines bound for the reporting surface.
pub struct TaskHandle<C: Connection> {
    pub connection: C,
    pub host: Host,
    pub log: Vec<String>,
}

impl<C: Connection> TaskHandle<C> {
    /// A handle bound to one host and its connection, with an empty
    /// diagnostic log.
    pub fn new(connection: C, host: Host) -> (h: TaskHandle<C>)
        ensures
            h.connection == connection,
            h.host == host,
            h.log@ == Seq::<String>::empty(),
    {
        TaskHandle { connection, host, log: Vec::new() }
    }

    /// Forward one command to the connection. Success is recorded as
    /// an executed outcome carrying the command result; a failure
    /// reported by the connection is recorded as a command failure.
    /// Commands may not run in the validation phase, which must stay
    /// side-effect-free.
    pub fn run(&mut self, request: &TaskRequest, cmd: &String) -> (r: Result<
        TaskResponse,
        TaskResponse,
    >)
        requires
            request.request_type != TaskRequestType::Validate,
            old(self).host.wf(),
            old(self).host.attempted < u64::MAX,
        ensures
            final(self).log == old(self).log,
            match r {
                Ok(resp) => {
                    &&& resp.status == TaskStatus::IsExecuted
                    &&& resp.command_result is Some
                    &&& resp.changes is None
                    &&& resp.msg is None
                    &&& spec_legal_status(request.request_type, resp.status)
                    &&& spec_recorded(old(self).host, final(self).host, TaskStatus::IsExecuted)
                },
                Err(resp) => {
                    &&& resp.status == TaskStatus::Failed
                    &&& resp.command_result is Some
                    &&& resp.changes is None
                    &&& resp.msg is None
                    &&& spec_legal_status(request.request_type, resp.status)
                    &&& spec_recorded(old(self).host, final(self).host, TaskStatus::Failed)
                },
            },
    {
        match self.connection.run_command(cmd) {
            Ok(result) => Ok(self.command_ok(request, result)),
            Err(result) => Err(self.command_failed(request, result)),
        }
    }

    /// Hand one diagnostic line to the reporting surface. No counter
    /// changes.
    pub fn debug(&mut self, _request: &TaskRequest, message: &String)
        ensures
            final(self).log@ == old(self).log@.push(*message),
            final(self).host == old(self).host,
            final(self).connection == old(self).connection,
    {
        self.log.push(message.clone());
    }

    /// Same as `debug`: informational pass-through.
    pub fn info(&mut self, request: &TaskRequest, message: &String)
        ensures
            final(self).log@ == old(self).log@.push(*message),
            final(self).host == old(self).host,
            final(self).connection == old(self).connection,
    {
        self.debug(request, message);
    }

    /// Hand several diagnostic lines over, keeping their order.
    pub fn info_lines(&mut self, request: &TaskRequest, messages: &Vec<String>)
        ensures
            final(self).log@ == old(self).log@ + messages@,
            final(self).host == old(self).host,
            final(self).connection == old(self).connection,
    {
        let mut i: usize = 0;
        while i < messages.len()
            invariant
                i <= messages.len(),
                self.log@ == old(self).log@ + messages@.subrange(0, i as int),
                self.host == old(self).host,
                self.connection == old(self).connection,
            decreases messages.len() - i,
        {
            self.info(request, &messages[i]);
            proof {
                assert(old(self).log@ + messages@.subrange(0, i + 1) =~= (old(self).log@
                    + messages@.subrange(0, i as int)).push(messages@[i as int]));
            }
            i = i + 1;
        }
        proof {
            assert(messages@.subrange(0, messages@.len() as int) =~= messages@);
        }
    }

    /// Terminal failure with a diagnostic message. Legal for every
    /// request kind.
    pub fn is_failed(&mut self, request: &TaskRequest, msg: String) -> (r: TaskResponse)
        requires
            old(self).host.wf(),
            old(self).host.attempted < u64::MAX,
        ensures
            r.status == TaskStatus::Failed,
            r.changes is None,
            r.msg == Some(msg),
            r.command_result is None,
            spec_legal_status(request.request_type, r.status),
            spec_recorded(old(self).host, final(self).host, r.status),
            final(self).log == old(self).log,
            final(self).connection == old(self).connection,
    {
        let response = TaskResponse {
            status: TaskStatus::Failed,
            changes: None,
            msg: Some(msg),
            command_result: None,
        };
        self.host.record_task_response(request, &response);
        response
    }

    /// Terminal failure of an executed command, carrying its result.
    /// Legal for every request kind.
    pub fn command_failed(&mut self, request: &TaskRequest, result: CommandResult) -> (r:
        TaskResponse)
        requires
            old(self).host.wf(),
            old(self).host.attempted < u64::MAX,
        ensures
            r.status == TaskStatus::Failed,
            r.changes is None,
            r.msg is None,
            r.command_result == Some(result),
            spec_legal_status(request.request_type, r.status),
            spec_recorded(old(self).host, final(self).host, r.status),
            final(self).log == old(self).log,
            final(self).connection == old(self).connection,
    {
        let response = TaskResponse {
            status: TaskStatus::Failed,
            changes: None,
            msg: None,
            command_result: Some(result),
        };
        self.host.record_task_response(request, &response);
        response
    }

    /// Successful command execution, carrying its result. An executed
    /// outcome is legal for every request kind.
    pub fn command_ok(&mut self, request: &TaskRequest, result: CommandResult) -> (r: TaskResponse)
        requires
            old(self).host.wf(),
            old(self).host.attempted < u64::MAX,
        ensures
            r.status == TaskStatus::IsExecuted,
            r.changes is None,
            r.msg is None,
            r.command_result == Some(result),
            spec_legal_status(request.request_type, r.status),
            spec_recorded(old(self).host, final(self).host, r.status),
            final(self).log == old(self).log,
            final(self).connection == old(self).connection,
    {
        let response = TaskResponse {
            status: TaskStatus::IsExecuted,
            changes: None,
            msg: None,
            command_result: Some(result),
        };
        self.host.record_task_response(request, &response);
        response
    }

    /// The task's parameters check out. Only a validation request may
    /// produce this.
    pub fn is_validated(&mut self, request: &TaskRequest) -> (r: TaskResponse)
        requires
            request.request_type == TaskRequestType::Validate,
            old(self).host.wf(),
            old(self).host.attempted < u64::MAX,
        ensures
            r.status == TaskStatus::IsValidated,
            r.changes is None,
            r.msg is None,
            r.command_result is None,
            spec_legal_status(request.request_type, r.status),
            spec_recorded(old(self).host, final(self).host, r.status),
            final(self).log == old(self).log,
            final(self).connection == old(self).connection,
    {
        let response = TaskResponse {
            status: TaskStatus::IsValidated,
            changes: None,
            msg: None,
            command_result: None,
        };
        self.host.record_task_response(request, &response);
        response
    }

    /// The resource was created. Only a creation request may produce
    /// this.
    pub fn is_created(&mut self, request: &TaskRequest) -> (r: TaskResponse)
        requires
            request.request_type == TaskRequestType::Create,
            old(self).host.wf(),
            old(self).host.attempted < u64::MAX,
        ensures
            r.status == TaskStatus::IsCreated,
            r.changes is None,
            r.msg is None,
            r.command_result is None,
            spec_legal_status(request.request_type, r.status),
            spec_recorded(old(self).host, final(self).host, r.status),
            final(self).log == old(self).log,
            final(self).connection == old(self).connection,
    {
        let response = TaskResponse {
            status: TaskStatus::IsCreated,
            changes: None,
            msg: None,
            command_result: None,
        };
        self.host.record_task_response(request, &response);
        response
    }

    /// The resource was removed. Only a removal request may produce
    /// this.
    pub fn is_removed(&mut self, request: &TaskRequest) -> (r: TaskResponse)
        requires
            request.request_type == TaskRequestType::Remove,
            old(self).host.wf(),
            old(self).host.attempted < u64::MAX,
        ensures
            r.status == TaskStatus::IsRemoved,
            r.changes is None,
            r.msg is None,
            r.command_result is None,
            spec_legal_status(request.request_type, r.status),
            spec_recorded(old(self).host, final(self).host, r.status),
            final(self).log == old(self).log,
            final(self).connection == old(self).connection,
    {
        let response = TaskResponse {
            status: TaskStatus::IsRemoved,
            changes: None,
            msg: None,
            command_result: None,
        };
        self.host.record_task_response(request, &response);
        response
    }

    /// The resource was modified, with the given field-by-field
    /// changes. Only a modification request may produce this.
    pub fn is_modified(&mut self, request: &TaskRequest, changes: Option<Vec<(String, String)>>)
        -> (r: TaskResponse)
        requires
            request.request_type == TaskRequestType::Modify,
            old(self).host.wf(),
            old(self).host.attempted < u64::MAX,
        ensures
            r.status == TaskStatus::IsModified,
            r.changes == changes,
            r.msg is None,
            r.command_result is None,
            spec_legal_status(request.request_type, r.status),
            spec_recorded(old(self).host, final(self).host, r.status),
            final(self).log == old(self).log,
            final(self).connection == old(self).connection,
    {
        let response = TaskResponse {
            status: TaskStatus::IsModified,
            changes,
            msg: None,
            command_result: None,
        };
        self.host.record_task_response(request, &response);
        response
    }

    /// Drift: the resource is missing. Only a query request may
    /// produce this.
    pub fn needs_creation(&mut self, request: &TaskRequest) -> (r: TaskResponse)
        requires
            request.request_type == TaskRequestType::Query,
            old(self).host.wf(),
            old(self).host.attempted < u64::MAX,
        ensures
            r.status == TaskStatus::NeedsCreation,
            r.changes is None,
            r.msg is None,
            r.command_result is None,
            spec_legal_status(request.request_type, r.status),
            spec_recorded(old(self).host, final(self).host, r.status),
            final(self).log == old(self).log,
            final(self).connection == old(self).connection,
    {
        let response = TaskResponse {
            status: TaskStatus::NeedsCreation,
            changes: None,
            msg: None,
            command_result: None,
        };
        self.host.record_task_response(request, &response);
        response
    }

    /// Drift: the resource diverges in the given fields. Only a query
    /// request may produce this.
    pub fn needs_modification(
        &mut self,
        request: &TaskRequest,
        changes: Option<Vec<(String, String)>>,
    ) -> (r: TaskResponse)
        requires
            request.request_type == TaskRequestType::Query,
            old(self).host.wf(),
            old(self).host.attempted < u64::MAX,
        ensures
            r.status == TaskStatus::NeedsModification,
            r.changes == changes,
            r.msg is None,
            r.command_result is None,
            spec_legal_status(request.request_type, r.status),
            spec_recorded(old(self).host, final(self).host, r.status),
            final(self).log == old(self).log,
            final(self).connection == old(self).connection,
    {
        let response = TaskResponse {
            status: TaskStatus::NeedsModification,
            changes,
            msg: None,
            command_result: None,
        };
        self.host.record_task_response(request, &response);
        response
    }

    /// Drift: the resource should not exist. Only a query request may
    /// produce this.
    pub fn needs_removal(&mut self, request: &TaskRequest) -> (r: TaskResponse)
        requires
            request.request_type == TaskRequestType::Query,
            old(self).host.wf(),
            old(self).host.attempted < u64::MAX,
        ensures
            r.status == TaskStatus::NeedsRemoval,
            r.changes is None,
            r.msg is None,
            r.command_result is None,
            spec_legal_status(request.request_type, r.status),
            spec_recorded(old(self).host, final(self).host, r.status),
            final(self).log == old(self).log,
            final(self).connection == old(self).connection,
    {
        let response = TaskResponse {
            status: TaskStatus::NeedsRemoval,
            changes: None,
            msg: None,
            command_result: None,
        };
        self.host.record_task_response(request, &response);
        response
    }
}

} // verus!
