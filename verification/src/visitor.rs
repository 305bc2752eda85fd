//! The reporting surface: the sole consumer of task responses outside
//! the task handle. It turns protocol outcomes into lifecycle events,
//! feeds the run-wide aggregator, computes the final exit status and
//! assembles the end-of-run summary.

use vstd::prelude::*;
use crate::command::CommandResult;
use crate::context::{
    PlaybookContext, same_identity, seq_contains_name, spec_note, tally_bumped,
    lemma_note_contains, lemma_unchanged_counts_nonnegative,
};
use crate::events::{Event, HandlerMode, spec_check_event, spec_real_event};
use crate::response::{
    Bucket, TaskResponse, TaskStatus, spec_bucket_of, spec_check_mode_final, spec_real_mode_final,
    spec_status_adjusting,
};
use vstd::pervasive::unreached;

verus! {

/// Whether the run evaluates drift without applying changes.
#[derive(Clone, Copy, PartialEq, Eq, Structural, Debug)]
pub enum CheckMode {
    Yes,
    No,
}

/// What reporting one successful terminal outcome does to the
/// aggregator: one more attempt by the host, one more outcome in the
/// status's bucket with the host noted there, the host noted as
/// adjusted when the bucket adjusts, and nothing else. An ignored
/// failure outcome counts as attempted only. Real mode and check mode
/// both record exactly this, which is their symmetry.
pub open spec fn spec_outcome_recorded(
    pre: &PlaybookContext,
    post: &PlaybookContext,
    status: TaskStatus,
    host: String,
) -> bool {
    &&& post.wf()
    &&& same_identity(pre, post)
    &&& tally_bumped(pre.attempted, post.attempted, host, true)
    &&& tally_bumped(pre.created, post.created, host, spec_bucket_of(status) == Some(Bucket::Created))
    &&& tally_bumped(pre.removed, post.removed, host, spec_bucket_of(status) == Some(Bucket::Removed))
    &&& tally_bumped(
        pre.modified,
        post.modified,
        host,
        spec_bucket_of(status) == Some(Bucket::Modified),
    )
    &&& tally_bumped(
        pre.executed,
        post.executed,
        host,
        spec_bucket_of(status) == Some(Bucket::Executed),
    )
    &&& tally_bumped(pre.passive, post.passive, host, spec_bucket_of(status) == Some(Bucket::Passive))
    &&& tally_bumped(pre.matched, post.matched, host, spec_bucket_of(status) == Some(Bucket::Matched))
    &&& tally_bumped(pre.skipped, post.skipped, host, spec_bucket_of(status) == Some(Bucket::Skipped))
    &&& post.failed == pre.failed
    &&& post.adjusted_hosts@ == if spec_status_adjusting(status) {
        spec_note(pre.adjusted_hosts@, host)
    } else {
        pre.adjusted_hosts@
    }
}

/// The run's reporting component, fixed to one outcome vocabulary at
/// construction.
pub struct PlaybookVisitor {
    pub check_mode: CheckMode,
}

impl PlaybookVisitor {
    /// A visitor for the given run mode.
    pub fn new(check_mode: CheckMode) -> (v: PlaybookVisitor)
        ensures
            v.check_mode == check_mode,
    {
        PlaybookVisitor { check_mode }
    }

    /// Whether this run only reports what it would do.
    pub fn is_check_mode(&self) -> (r: bool)
        ensures
            r == (self.check_mode == CheckMode::Yes),
    {
        self.check_mode == CheckMode::Yes
    }

    /// The playbook begins.
    pub fn on_playbook_start(&self, context: &PlaybookContext) -> (ev: Event)
        requires
            context.playbook_path is Some,
        ensures
            match context.playbook_path {
                Some(path) => ev == (Event::PlaybookStart { path }),
                None => false,
            },
    {
        match &context.playbook_path {
            Some(path) => Event::PlaybookStart { path: path.clone() },
            None => unreached(),
        }
    }

    /// A play begins.
    pub fn on_play_start(&self, context: &PlaybookContext) -> (ev: Event)
        requires
            context.play is Some,
        ensures
            match context.play {
                Some(play) => ev == (Event::PlayStart { play }),
                None => false,
            },
    {
        match &context.play {
            Some(play) => Event::PlayStart { play: play.clone() },
            None => unreached(),
        }
    }

    /// A role begins: nothing is reported.
    pub fn on_role_start(&self, _context: &PlaybookContext) {
    }

    /// A role ends: nothing is reported.
    pub fn on_role_stop(&self, _context: &PlaybookContext) {
    }

    /// A play ends; it failed only if every host in it failed.
    pub fn on_play_stop(&self, context: &PlaybookContext, failed: bool) -> (ev: Event)
        requires
            context.play is Some,
        ensures
            match context.play {
                Some(play) => ev == if failed {
                    Event::PlayFailed { play }
                } else {
                    Event::PlayComplete { play }
                },
                None => false,
            },
    {
        match &context.play {
            Some(play) => {
                if failed {
                    Event::PlayFailed { play: play.clone() }
                } else {
                    Event::PlayComplete { play: play.clone() }
                }
            },
            None => unreached(),
        }
    }

    /// A task (or handler) begins, qualified by the current role if
    /// one is set.
    pub fn on_task_start(&self, context: &PlaybookContext, is_handler: HandlerMode) -> (ev: Event)
        requires
            context.task is Some,
        ensures
            match context.task {
                Some(task) => ev == (Event::TaskStart { is_handler, role: context.role, task }),
                None => false,
            },
    {
        let role = match &context.role {
            Some(r) => Some(r.clone()),
            None => None,
        };
        match &context.task {
            Some(task) => Event::TaskStart { is_handler, role, task: task.clone() },
            None => unreached(),
        }
    }

    /// A batch of hosts starts executing.
    pub fn on_batch(&self, batch_num: usize, batch_count: usize, batch_size: usize) -> (ev: Event)
        ensures
            ev == (Event::BatchStart { batch_num, batch_count, batch_size }),
    {
        Event::BatchStart { batch_num, batch_count, batch_size }
    }

    /// One host begins the current task.
    pub fn on_host_task_start(&self, _context: &PlaybookContext, host: &String) -> (ev: Event)
        ensures
            ev == (Event::HostTaskStart { host: *host }),
    {
        Event::HostTaskStart { host: host.clone() }
    }

    /// A handler was notified by this host.
    pub fn on_notify_handler(&self, host: &String, which_handler: &String) -> (ev: Event)
        ensures
            ev == (Event::HandlerNotified { host: *host, handler: *which_handler }),
    {
        Event::HandlerNotified { host: host.clone(), handler: which_handler.clone() }
    }

    /// This host's task is delegated to another.
    pub fn on_host_delegate(&self, host: &String, delegated: &String) -> (ev: Event)
        ensures
            ev == (Event::Delegating { host: *host, delegate: *delegated }),
    {
        Event::Delegating { host: host.clone(), delegate: delegated.clone() }
    }

    /// Module-originated diagnostic text for one host.
    pub fn debug_host(&self, host: &String, message: &String) -> (ev: Event)
        ensures
            ev == (Event::HostDebug { host: *host, message: *message }),
    {
        Event::HostDebug { host: host.clone(), message: message.clone() }
    }

    /// A host finished a task in real mode: record the attempt and
    /// the outcome's bucket, and report the outcome. A status outside
    /// the real-mode vocabulary is a protocol violation and is ruled
    /// out here rather than detected downstream.
    pub fn on_host_task_ok(
        &self,
        context: &mut PlaybookContext,
        task_response: &TaskResponse,
        host: &String,
    ) -> (ev: Event)
        requires
            old(context).wf(),
            old(context).attempted.total < u64::MAX,
            spec_real_mode_final(task_response.status),
        ensures
            spec_outcome_recorded(old(context), final(context), task_response.status, *host),
            ev == spec_real_event(task_response.status, *host),
    {
        context.increment_attempted_for_host(host);
        let ev = match task_response.status {
            TaskStatus::IsCreated => {
                context.increment_created_for_host(host);
                Event::HostCreated { host: host.clone() }
            },
            TaskStatus::IsRemoved => {
                context.increment_removed_for_host(host);
                Event::HostRemoved { host: host.clone() }
            },
            TaskStatus::IsModified => {
                context.increment_modified_for_host(host);
                Event::HostModified { host: host.clone() }
            },
            TaskStatus::IsExecuted => {
                context.increment_executed_for_host(host);
                Event::HostExecuted { host: host.clone() }
            },
            TaskStatus::IsPassive => {
                context.increment_passive_for_host(host);
                Event::HostPassive { host: host.clone() }
            },
            TaskStatus::IsMatched => {
                context.increment_matched_for_host(host);
                Event::HostMatched { host: host.clone() }
            },
            TaskStatus::IsSkipped => {
                context.increment_skipped_for_host(host);
                Event::HostSkipped { host: host.clone() }
            },
            TaskStatus::Failed => Event::HostFailedIgnored { host: host.clone() },
            _ => unreached(),
        };
        proof {
            assert forall|x: Seq<char>| #[trigger]
                seq_contains_name(context.adjusted_hosts@, x) implies seq_contains_name(
                context.attempted.hosts@,
                x,
            ) by {
                lemma_note_contains(old(context).adjusted_hosts@, *host, x);
                lemma_note_contains(old(context).attempted.hosts@, *host, x);
            }
        }
        ev
    }

    /// A host finished a task in check mode: same bookkeeping as real
    /// mode, with the "would do" vocabulary. A drift that real mode
    /// would apply lands in the same bucket here.
    pub fn on_host_task_check_ok(
        &self,
        context: &mut PlaybookContext,
        task_response: &TaskResponse,
        host: &String,
    ) -> (ev: Event)
        requires
            old(context).wf(),
            old(context).attempted.total < u64::MAX,
            spec_check_mode_final(task_response.status),
        ensures
            spec_outcome_recorded(old(context), final(context), task_response.status, *host),
            ev == spec_check_event(task_response.status, *host),
    {
        context.increment_attempted_for_host(host);
        let ev = match task_response.status {
            TaskStatus::NeedsCreation => {
                context.increment_created_for_host(host);
                Event::WouldCreate { host: host.clone() }
            },
            TaskStatus::NeedsRemoval => {
                context.increment_removed_for_host(host);
                Event::WouldRemove { host: host.clone() }
            },
            TaskStatus::NeedsModification => {
                context.increment_modified_for_host(host);
                Event::WouldModify { host: host.clone() }
            },
            TaskStatus::NeedsExecution => {
                context.increment_executed_for_host(host);
                Event::WouldExecute { host: host.clone() }
            },
            TaskStatus::IsPassive => {
                context.increment_passive_for_host(host);
                Event::HostPassive { host: host.clone() }
            },
            TaskStatus::IsMatched => {
                context.increment_matched_for_host(host);
                Event::HostMatched { host: host.clone() }
            },
            TaskStatus::IsSkipped => {
                context.increment_skipped_for_host(host);
                Event::HostSkipped { host: host.clone() }
            },
            TaskStatus::Failed => Event::HostFailedIgnored { host: host.clone() },
            _ => unreached(),
        };
        proof {
            assert forall|x: Seq<char>| #[trigger]
                seq_contains_name(context.adjusted_hosts@, x) implies seq_contains_name(
                context.attempted.hosts@,
                x,
            ) by {
                lemma_note_contains(old(context).adjusted_hosts@, *host, x);
                lemma_note_contains(old(context).attempted.hosts@, *host, x);
            }
        }
        ev
    }

    /// A retry notice is informational only: it reports the retries
    /// left and the delay before the next attempt, and changes no
    /// counter; only the eventual terminal response does.
    pub fn on_host_task_retry(
        &self,
        context: &mut PlaybookContext,
        host: &String,
        retries: u64,
        delay: u64,
    ) -> (ev: Event)
        ensures
            *final(context) == *old(context),
            ev == (Event::RetryNotice { host: *host, retries, delay }),
    {
        Event::RetryNotice { host: host.clone(), retries, delay }
    }

    /// A host's task failed terminally: count the failure for the
    /// host and report whatever diagnostic detail the response
    /// carries — the command triple when present, else the message,
    /// else the bare fact.
    pub fn on_host_task_failed(
        &self,
        context: &mut PlaybookContext,
        task_response: &TaskResponse,
        host: &String,
    ) -> (ev: Event)
        requires
            old(context).wf(),
            old(context).failed.total < u64::MAX,
        ensures
            final(context).wf(),
            same_identity(old(context), final(context)),
            tally_bumped(old(context).failed, final(context).failed, *host, true),
            final(context).attempted == old(context).attempted,
            final(context).created == old(context).created,
            final(context).removed == old(context).removed,
            final(context).modified == old(context).modified,
            final(context).executed == old(context).executed,
            final(context).passive == old(context).passive,
            final(context).matched == old(context).matched,
            final(context).skipped == old(context).skipped,
            final(context).adjusted_hosts == old(context).adjusted_hosts,
            ev == match (task_response.command_result, task_response.msg) {
                (Some(result), _) => Event::TaskFailedCommand { host: *host, result },
                (None, Some(msg)) => Event::TaskFailedMessage { host: *host, msg },
                (None, None) => Event::TaskFailedBare { host: *host },
            },
    {
        let ev = match (&task_response.command_result, &task_response.msg) {
            (Some(result), _) => Event::TaskFailedCommand {
                host: host.clone(),
                result: result.clone(),
            },
            (None, Some(msg)) => Event::TaskFailedMessage { host: host.clone(), msg: msg.clone() },
            (None, None) => Event::TaskFailedBare { host: host.clone() },
        };
        context.increment_failed_for_host(host);
        ev
    }

    /// A host's connection failed: in aggregate identical to a task
    /// failure, reported distinctly. The host is not counted as
    /// attempted.
    pub fn on_host_connect_failed(&self, context: &mut PlaybookContext, host: &String) -> (ev:
        Event)
        requires
            old(context).wf(),
            old(context).failed.total < u64::MAX,
        ensures
            final(context).wf(),
            same_identity(old(context), final(context)),
            tally_bumped(old(context).failed, final(context).failed, *host, true),
            final(context).attempted == old(context).attempted,
            final(context).created == old(context).created,
            final(context).removed == old(context).removed,
            final(context).modified == old(context).modified,
            final(context).executed == old(context).executed,
            final(context).passive == old(context).passive,
            final(context).matched == old(context).matched,
            final(context).skipped == old(context).skipped,
            final(context).adjusted_hosts == old(context).adjusted_hosts,
            ev == (Event::ConnectionFailed { host: *host }),
    {
        context.increment_failed_for_host(host);
        Event::ConnectionFailed { host: host.clone() }
    }

    /// The run's pass/fail signal: zero exactly when no host ended
    /// the run with a failure.
    pub fn get_exit_status(&self, context: &PlaybookContext) -> (r: i32)
        ensures
            (r == 0) <==> (context.failed.hosts@.len() == 0),
            r == 0 || r == 1,
    {
        let failed_hosts = context.get_hosts_failed_count();
        match failed_hosts {
            0 => 0,
            _ => 1,
        }
    }

    /// A file transfer to the host is about to start; logged above
    /// verbosity zero.
    pub fn on_before_transfer(
        &self,
        context: &PlaybookContext,
        host: &String,
        path: &String,
    ) -> (ev: Option<Event>)
        ensures
            ev == if context.verbosity > 0 {
                Some(Event::TransferNotice { host: *host, path: *path })
            } else {
                None::<Event>
            },
    {
        if context.verbosity > 0 {
            Some(Event::TransferNotice { host: host.clone(), path: path.clone() })
        } else {
            None
        }
    }

    /// A command is about to run on the host; logged above verbosity
    /// zero.
    pub fn on_command_run(&self, context: &PlaybookContext, host: &String, cmd: &String) -> (ev:
        Option<Event>)
        ensures
            ev == if context.verbosity > 0 {
                Some(Event::ExecNotice { host: *host, cmd: *cmd })
            } else {
                None::<Event>
            },
    {
        if context.verbosity > 0 {
            Some(Event::ExecNotice { host: host.clone(), cmd: cmd.clone() })
        } else {
            None
        }
    }

    /// A command succeeded; its full detail is logged only above
    /// verbosity two.
    pub fn on_command_ok(
        &self,
        context: &PlaybookContext,
        host: &String,
        result: &Option<CommandResult>,
    ) -> (ev: Option<Event>)
        requires
            result is Some,
        ensures
            match result {
                Some(r) => ev == if context.verbosity > 2 {
                    Some(Event::CommandOkDetail { host: *host, result: *r })
                } else {
                    None::<Event>
                },
                None => false,
            },
    {
        match result {
            Some(r) => {
                if context.verbosity > 2 {
                    Some(Event::CommandOkDetail { host: host.clone(), result: r.clone() })
                } else {
                    None
                }
            },
            None => unreached(),
        }
    }

    /// A command failed; its full detail is logged only above
    /// verbosity two.
    pub fn on_command_failed(
        &self,
        context: &PlaybookContext,
        host: &String,
        result: &Option<CommandResult>,
    ) -> (ev: Option<Event>)
        requires
            result is Some,
        ensures
            match result {
                Some(r) => ev == if context.verbosity > 2 {
                    Some(Event::CommandFailedDetail { host: *host, result: *r })
                } else {
                    None::<Event>
                },
                None => false,
            },
    {
        match result {
            Some(r) => {
                if context.verbosity > 2 {
                    Some(Event::CommandFailedDetail { host: host.clone(), result: r.clone() })
                } else {
                    None
                }
            },
            None => unreached(),
        }
    }
}

/// Law: a check-mode run and a real-mode run that observe the same
/// host drift leave the aggregator with identical counters. If, from
/// one starting state, real mode records a terminal status and check
/// mode records its "would do" counterpart, every category total,
/// every distinct-host list and the adjusted-host list come out the
/// same; only the reported wording differs.
pub proof fn lemma_mode_symmetry(
    pre: &PlaybookContext,
    post_real: &PlaybookContext,
    post_check: &PlaybookContext,
    status: TaskStatus,
    host: String,
)
    requires
        spec_real_mode_final(status),
        spec_outcome_recorded(pre, post_real, status, host),
        spec_outcome_recorded(pre, post_check, crate::response::spec_check_counterpart(status), host),
    ensures
        post_check.attempted.total == post_real.attempted.total,
        post_check.attempted.hosts@ == post_real.attempted.hosts@,
        post_check.created.total == post_real.created.total,
        post_check.created.hosts@ == post_real.created.hosts@,
        post_check.removed.total == post_real.removed.total,
        post_check.removed.hosts@ == post_real.removed.hosts@,
        post_check.modified.total == post_real.modified.total,
        post_check.modified.hosts@ == post_real.modified.hosts@,
        post_check.executed.total == post_real.executed.total,
        post_check.executed.hosts@ == post_real.executed.hosts@,
        post_check.passive.total == post_real.passive.total,
        post_check.passive.hosts@ == post_real.passive.hosts@,
        post_check.matched.total == post_real.matched.total,
        post_check.matched.hosts@ == post_real.matched.hosts@,
        post_check.skipped.total == post_real.skipped.total,
        post_check.skipped.hosts@ == post_real.skipped.hosts@,
        post_check.failed == post_real.failed,
        post_check.adjusted_hosts@ == post_real.adjusted_hosts@,
{
    crate::response::lemma_check_mode_bucket_parity(status);
}

/// The closing one-line verdict, by precedence: failures first, then
/// applied actions, else everything matched policy.
#[derive(Clone, Copy, PartialEq, Eq, Structural, Debug)]
pub enum Verdict {
    AllMatched,
    ActionsApplied,
    Failures,
}

/// The end-of-run summary: one row per outcome category with its
/// total and distinct-host counts, the derived unchanged and changed
/// rows, and the verdict.
pub struct PlaybookSummary {
    pub roles: u64,
    pub tasks: u64,
    pub seen_hosts: usize,
    pub attempted_ct: u64,
    pub matched_ct: u64,
    pub matched_hosts: usize,
    pub created_ct: u64,
    pub created_hosts: usize,
    pub modified_ct: u64,
    pub modified_hosts: usize,
    pub removed_ct: u64,
    pub removed_hosts: usize,
    pub executed_ct: u64,
    pub executed_hosts: usize,
    pub passive_ct: u64,
    pub passive_hosts: usize,
    pub skipped_ct: u64,
    pub skipped_hosts: usize,
    pub adjusted_ct: u64,
    pub adjusted_hosts: usize,
    pub unchanged_ct: u64,
    pub unchanged_hosts: usize,
    pub failed_ct: u64,
    pub failed_hosts: usize,
    pub verdict: Verdict,
}

/// Assemble the final aggregator snapshot: every category's totals,
/// the derived unchanged and changed counts — well-formedness
/// guarantees they cannot go negative — and the verdict.
pub fn build_playbook_summary(context: &PlaybookContext) -> (s: PlaybookSummary)
    requires
        context.wf(),
    ensures
        s.roles == context.role_count,
        s.tasks == context.task_count,
        s.seen_hosts == context.attempted.hosts@.len(),
        s.attempted_ct == context.attempted.total,
        s.matched_ct == context.matched.total,
        s.matched_hosts == context.matched.hosts@.len(),
        s.created_ct == context.created.total,
        s.created_hosts == context.created.hosts@.len(),
        s.modified_ct == context.modified.total,
        s.modified_hosts == context.modified.hosts@.len(),
        s.removed_ct == context.removed.total,
        s.removed_hosts == context.removed.hosts@.len(),
        s.executed_ct == context.executed.total,
        s.executed_hosts == context.executed.hosts@.len(),
        s.passive_ct == context.passive.total,
        s.passive_hosts == context.passive.hosts@.len(),
        s.skipped_ct == context.skipped.total,
        s.skipped_hosts == context.skipped.hosts@.len(),
        s.adjusted_ct == context.spec_adjusted_total(),
        s.adjusted_hosts == context.adjusted_hosts@.len(),
        s.unchanged_ct == context.attempted.total - context.spec_adjusted_total(),
        s.unchanged_hosts == context.attempted.hosts@.len() - context.adjusted_hosts@.len(),
        s.failed_ct == context.failed.total,
        s.failed_hosts == context.failed.hosts@.len(),
        s.verdict == if context.failed.hosts@.len() > 0 {
            Verdict::Failures
        } else if context.adjusted_hosts@.len() > 0 {
            Verdict::ActionsApplied
        } else {
            Verdict::AllMatched
        },
{
    proof {
        lemma_unchanged_counts_nonnegative(context);
    }
    let seen_hosts = context.get_hosts_seen_count();
    let attempted_ct = context.get_total_attempted_count();
    let adjusted_ct = context.get_total_adjusted_count();
    let adjusted_hosts = context.get_hosts_adjusted_count();
    let failed_hosts = context.get_hosts_failed_count();
    let verdict = if failed_hosts > 0 {
        Verdict::Failures
    } else if adjusted_hosts > 0 {
        Verdict::ActionsApplied
    } else {
        Verdict::AllMatched
    };
    PlaybookSummary {
        roles: context.get_role_count(),
        tasks: context.get_task_count(),
        seen_hosts,
        attempted_ct,
        matched_ct: context.get_total_matched_count(),
        matched_hosts: context.get_hosts_matched_count(),
        created_ct: context.get_total_creation_count(),
        created_hosts: context.get_hosts_creation_count(),
        modified_ct: context.get_total_modified_count(),
        modified_hosts: context.get_hosts_modified_count(),
        removed_ct: context.get_total_removal_count(),
        removed_hosts: context.get_hosts_removal_count(),
        executed_ct: context.get_total_executions_count(),
        executed_hosts: context.get_hosts_executions_count(),
        passive_ct: context.get_total_passive_count(),
        passive_hosts: context.get_hosts_passive_count(),
        skipped_ct: context.get_total_skipped_count(),
        skipped_hosts: context.get_hosts_skipped_count(),
        adjusted_ct,
        adjusted_hosts,
        unchanged_ct: attempted_ct - adjusted_ct,
        unchanged_hosts: seen_hosts - adjusted_hosts,
        failed_ct: context.get_total_failed_count(),
        failed_hosts,
        verdict,
    }
}

} // verus!
