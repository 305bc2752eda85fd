use jetporch::command::CommandResult;
use jetporch::context::PlaybookContext;
use jetporch::events::{Event, HandlerMode};
use jetporch::response::{TaskResponse, TaskStatus};
use jetporch::visitor::{
    CheckMode, PlaybookVisitor, Verdict, build_playbook_summary,
};

fn bare(status: TaskStatus) -> TaskResponse {
    TaskResponse { status, changes: None, msg: None, command_result: None }
}

#[test]
fn three_hosts_created_matched_connect_failed() {
    let visitor = PlaybookVisitor::new(CheckMode::No);
    let mut ctx = PlaybookContext::new(0);
    let a = "alpha".to_string();
    let b = "beta".to_string();
    let c = "gamma".to_string();
    let ev = visitor.on_host_task_ok(&mut ctx, &bare(TaskStatus::IsCreated), &a);
    assert!(matches!(ev, Event::HostCreated { ref host } if host.as_str() == "alpha"));
    let ev = visitor.on_host_task_ok(&mut ctx, &bare(TaskStatus::IsMatched), &b);
    assert!(matches!(ev, Event::HostMatched { ref host } if host.as_str() == "beta"));
    let ev = visitor.on_host_connect_failed(&mut ctx, &c);
    assert!(matches!(ev, Event::ConnectionFailed { ref host } if host.as_str() == "gamma"));

    assert_eq!(ctx.get_total_creation_count(), 1);
    assert_eq!(ctx.get_hosts_creation_count(), 1);
    assert_eq!(ctx.get_total_matched_count(), 1);
    assert_eq!(ctx.get_hosts_matched_count(), 1);
    assert_eq!(ctx.get_total_failed_count(), 1);
    assert_eq!(ctx.get_hosts_failed_count(), 1);
    assert_eq!(ctx.get_total_attempted_count(), 2);
    assert_eq!(visitor.get_exit_status(&ctx), 1);
}

#[test]
fn single_passive_host_leaves_everything_unchanged() {
    let visitor = PlaybookVisitor::new(CheckMode::No);
    let mut ctx = PlaybookContext::new(0);
    let host = "alpha".to_string();
    let ev = visitor.on_host_task_ok(&mut ctx, &bare(TaskStatus::IsPassive), &host);
    assert!(matches!(ev, Event::HostPassive { .. }));
    assert_eq!(ctx.get_total_adjusted_count(), 0);
    let s = build_playbook_summary(&ctx);
    assert_eq!(s.unchanged_ct, 1);
    assert_eq!(s.unchanged_hosts, 1);
    assert_eq!(s.passive_ct, 1);
    assert!(matches!(s.verdict, Verdict::AllMatched));
    assert_eq!(visitor.get_exit_status(&ctx), 0);
}

#[test]
fn exit_status_zero_iff_no_failed_host() {
    let visitor = PlaybookVisitor::new(CheckMode::No);
    let mut ctx = PlaybookContext::new(0);
    let host = "alpha".to_string();
    // plenty of non-failure outcomes: still exit 0
    let _ = visitor.on_host_task_ok(&mut ctx, &bare(TaskStatus::IsCreated), &host);
    let _ = visitor.on_host_task_ok(&mut ctx, &bare(TaskStatus::IsModified), &host);
    let _ = visitor.on_host_task_ok(&mut ctx, &bare(TaskStatus::IsSkipped), &host);
    assert_eq!(visitor.get_exit_status(&ctx), 0);
    // one failed host flips it to 1, whatever else happened
    let _ = visitor.on_host_task_failed(&mut ctx, &bare(TaskStatus::Failed), &host);
    assert_eq!(visitor.get_exit_status(&ctx), 1);
}

#[test]
fn check_mode_and_real_mode_fill_the_same_buckets() {
    let real = PlaybookVisitor::new(CheckMode::No);
    let check = PlaybookVisitor::new(CheckMode::Yes);
    assert!(!real.is_check_mode());
    assert!(check.is_check_mode());

    let mut real_ctx = PlaybookContext::new(0);
    let mut check_ctx = PlaybookContext::new(0);
    let pairs = [
        (TaskStatus::IsCreated, TaskStatus::NeedsCreation, "h1"),
        (TaskStatus::IsRemoved, TaskStatus::NeedsRemoval, "h2"),
        (TaskStatus::IsModified, TaskStatus::NeedsModification, "h3"),
        (TaskStatus::IsExecuted, TaskStatus::NeedsExecution, "h4"),
        (TaskStatus::IsMatched, TaskStatus::IsMatched, "h5"),
        (TaskStatus::IsPassive, TaskStatus::IsPassive, "h5"),
        (TaskStatus::IsSkipped, TaskStatus::IsSkipped, "h6"),
    ];
    for (did, would, name) in pairs {
        let host = name.to_string();
        let _ = real.on_host_task_ok(&mut real_ctx, &bare(did), &host);
        let _ = check.on_host_task_check_ok(&mut check_ctx, &bare(would), &host);
    }
    assert_eq!(real_ctx.get_total_attempted_count(), check_ctx.get_total_attempted_count());
    assert_eq!(real_ctx.get_total_creation_count(), check_ctx.get_total_creation_count());
    assert_eq!(real_ctx.get_hosts_creation_count(), check_ctx.get_hosts_creation_count());
    assert_eq!(real_ctx.get_total_removal_count(), check_ctx.get_total_removal_count());
    assert_eq!(real_ctx.get_hosts_removal_count(), check_ctx.get_hosts_removal_count());
    assert_eq!(real_ctx.get_total_modified_count(), check_ctx.get_total_modified_count());
    assert_eq!(real_ctx.get_hosts_modified_count(), check_ctx.get_hosts_modified_count());
    assert_eq!(real_ctx.get_total_executions_count(), check_ctx.get_total_executions_count());
    assert_eq!(real_ctx.get_hosts_executions_count(), check_ctx.get_hosts_executions_count());
    assert_eq!(real_ctx.get_total_passive_count(), check_ctx.get_total_passive_count());
    assert_eq!(real_ctx.get_total_matched_count(), check_ctx.get_total_matched_count());
    assert_eq!(real_ctx.get_total_skipped_count(), check_ctx.get_total_skipped_count());
    assert_eq!(real_ctx.get_total_adjusted_count(), check_ctx.get_total_adjusted_count());
    assert_eq!(real_ctx.get_hosts_adjusted_count(), check_ctx.get_hosts_adjusted_count());
    assert_eq!(real_ctx.get_total_failed_count(), check_ctx.get_total_failed_count());
}

#[test]
fn check_mode_reports_would_do_vocabulary() {
    let check = PlaybookVisitor::new(CheckMode::Yes);
    let mut ctx = PlaybookContext::new(0);
    let host = "alpha".to_string();
    let ev = check.on_host_task_check_ok(&mut ctx, &bare(TaskStatus::NeedsCreation), &host);
    assert!(matches!(ev, Event::WouldCreate { ref host } if host.as_str() == "alpha"));
    let ev = check.on_host_task_check_ok(&mut ctx, &bare(TaskStatus::NeedsRemoval), &host);
    assert!(matches!(ev, Event::WouldRemove { .. }));
    let ev = check.on_host_task_check_ok(&mut ctx, &bare(TaskStatus::NeedsModification), &host);
    assert!(matches!(ev, Event::WouldModify { .. }));
    let ev = check.on_host_task_check_ok(&mut ctx, &bare(TaskStatus::NeedsExecution), &host);
    assert!(matches!(ev, Event::WouldExecute { .. }));
    assert_eq!(ctx.get_total_adjusted_count(), 4);
    assert_eq!(ctx.get_hosts_adjusted_count(), 1);
}

#[test]
fn unchanged_is_attempted_minus_adjusted() {
    let visitor = PlaybookVisitor::new(CheckMode::No);
    let mut ctx = PlaybookContext::new(0);
    let a = "alpha".to_string();
    let b = "beta".to_string();
    let _ = visitor.on_host_task_ok(&mut ctx, &bare(TaskStatus::IsCreated), &a);
    let _ = visitor.on_host_task_ok(&mut ctx, &bare(TaskStatus::IsMatched), &a);
    let _ = visitor.on_host_task_ok(&mut ctx, &bare(TaskStatus::IsSkipped), &b);
    let _ = visitor.on_host_task_ok(&mut ctx, &bare(TaskStatus::IsExecuted), &b);
    let s = build_playbook_summary(&ctx);
    assert_eq!(s.attempted_ct, 4);
    assert_eq!(s.adjusted_ct, 2);
    assert_eq!(s.unchanged_ct, s.attempted_ct - s.adjusted_ct);
    assert_eq!(s.seen_hosts, 2);
    assert_eq!(s.adjusted_hosts, 2);
    assert_eq!(s.unchanged_hosts, 0);
    assert!(matches!(s.verdict, Verdict::ActionsApplied));
}

#[test]
fn repeat_outcomes_count_hosts_once() {
    let visitor = PlaybookVisitor::new(CheckMode::No);
    let mut ctx = PlaybookContext::new(0);
    let host = "alpha".to_string();
    let _ = visitor.on_host_task_ok(&mut ctx, &bare(TaskStatus::IsCreated), &host);
    let _ = visitor.on_host_task_ok(&mut ctx, &bare(TaskStatus::IsCreated), &host);
    let _ = visitor.on_host_task_ok(&mut ctx, &bare(TaskStatus::IsCreated), &host);
    assert_eq!(ctx.get_total_creation_count(), 3);
    assert_eq!(ctx.get_hosts_creation_count(), 1);
    assert_eq!(ctx.get_hosts_seen_count(), 1);
    assert_eq!(ctx.get_hosts_adjusted_count(), 1);
}

#[test]
fn retry_notice_touches_no_counter() {
    let visitor = PlaybookVisitor::new(CheckMode::No);
    let mut ctx = PlaybookContext::new(0);
    let host = "alpha".to_string();
    let _ = visitor.on_host_task_ok(&mut ctx, &bare(TaskStatus::IsCreated), &host);
    let attempted = ctx.get_total_attempted_count();
    let created = ctx.get_total_creation_count();
    let failed = ctx.get_total_failed_count();
    let ev = visitor.on_host_task_retry(&mut ctx, &host, 2, 5);
    assert!(matches!(
        ev,
        Event::RetryNotice { retries: 2, delay: 5, ref host } if host.as_str() == "alpha"
    ));
    assert_eq!(ctx.get_total_attempted_count(), attempted);
    assert_eq!(ctx.get_total_creation_count(), created);
    assert_eq!(ctx.get_total_failed_count(), failed);
    assert_eq!(ctx.get_hosts_seen_count(), 1);
}

#[test]
fn ignored_failure_in_ok_path_counts_attempt_only() {
    let visitor = PlaybookVisitor::new(CheckMode::No);
    let mut ctx = PlaybookContext::new(0);
    let host = "alpha".to_string();
    let ev = visitor.on_host_task_ok(&mut ctx, &bare(TaskStatus::Failed), &host);
    assert!(matches!(ev, Event::HostFailedIgnored { .. }));
    assert_eq!(ctx.get_total_attempted_count(), 1);
    assert_eq!(ctx.get_total_failed_count(), 0);
    assert_eq!(visitor.get_exit_status(&ctx), 0);
}

#[test]
fn failure_detail_prefers_command_then_message() {
    let visitor = PlaybookVisitor::new(CheckMode::No);
    let mut ctx = PlaybookContext::new(0);
    let host = "alpha".to_string();
    let with_cmd = TaskResponse {
        status: TaskStatus::Failed,
        changes: None,
        msg: Some("exec failed".to_string()),
        command_result: Some(CommandResult {
            cmd: "systemctl restart svc".to_string(),
            out: "timeout".to_string(),
            rc: 124,
        }),
    };
    let ev = visitor.on_host_task_failed(&mut ctx, &with_cmd, &host);
    assert!(matches!(ev, Event::TaskFailedCommand { ref result, .. } if result.rc == 124));

    let with_msg = TaskResponse {
        status: TaskStatus::Failed,
        changes: None,
        msg: Some("no such package".to_string()),
        command_result: None,
    };
    let ev = visitor.on_host_task_failed(&mut ctx, &with_msg, &host);
    assert!(matches!(
        ev,
        Event::TaskFailedMessage { ref msg, .. } if msg.as_str() == "no such package"
    ));

    let ev = visitor.on_host_task_failed(&mut ctx, &bare(TaskStatus::Failed), &host);
    assert!(matches!(ev, Event::TaskFailedBare { .. }));
    assert_eq!(ctx.get_total_failed_count(), 3);
    assert_eq!(ctx.get_hosts_failed_count(), 1);
    // failures outside the ok path add no attempts
    assert_eq!(ctx.get_total_attempted_count(), 0);
}

#[test]
fn verbosity_gates_transfer_and_command_detail() {
    let visitor = PlaybookVisitor::new(CheckMode::No);
    let quiet = PlaybookContext::new(0);
    let chatty = PlaybookContext::new(1);
    let debug = PlaybookContext::new(3);
    let host = "alpha".to_string();
    let path = "/etc/motd".to_string();
    let cmd = "cat /etc/motd".to_string();
    let result = Some(CommandResult { cmd: cmd.clone(), out: "hi".to_string(), rc: 0 });

    assert!(visitor.on_before_transfer(&quiet, &host, &path).is_none());
    assert!(matches!(
        visitor.on_before_transfer(&chatty, &host, &path),
        Some(Event::TransferNotice { ref path, .. }) if path.as_str() == "/etc/motd"
    ));
    assert!(visitor.on_command_run(&quiet, &host, &cmd).is_none());
    assert!(visitor.on_command_run(&chatty, &host, &cmd).is_some());
    assert!(visitor.on_command_ok(&chatty, &host, &result).is_none());
    assert!(matches!(
        visitor.on_command_ok(&debug, &host, &result),
        Some(Event::CommandOkDetail { ref result, .. }) if result.rc == 0
    ));
    assert!(visitor.on_command_failed(&chatty, &host, &result).is_none());
    assert!(visitor.on_command_failed(&debug, &host, &result).is_some());
}

#[test]
fn lifecycle_events_carry_run_identity() {
    let visitor = PlaybookVisitor::new(CheckMode::No);
    let mut ctx = PlaybookContext::new(0);
    ctx.playbook_path = Some("site.yml".to_string());
    ctx.play = Some("webservers".to_string());
    ctx.role = Some("nginx".to_string());
    ctx.task = Some("install package".to_string());

    let ev = visitor.on_playbook_start(&ctx);
    assert!(matches!(ev, Event::PlaybookStart { ref path } if path.as_str() == "site.yml"));
    let ev = visitor.on_play_start(&ctx);
    assert!(matches!(ev, Event::PlayStart { ref play } if play.as_str() == "webservers"));
    let ev = visitor.on_play_stop(&ctx, false);
    assert!(matches!(ev, Event::PlayComplete { .. }));
    let ev = visitor.on_play_stop(&ctx, true);
    assert!(matches!(ev, Event::PlayFailed { .. }));
    let ev = visitor.on_task_start(&ctx, HandlerMode::Handlers);
    assert!(matches!(
        ev,
        Event::TaskStart { is_handler: HandlerMode::Handlers, role: Some(ref r), ref task }
            if r.as_str() == "nginx" && task.as_str() == "install package"
    ));
    let ev = visitor.on_batch(0, 2, 5);
    assert!(matches!(ev, Event::BatchStart { batch_num: 0, batch_count: 2, batch_size: 5 }));
    let host = "alpha".to_string();
    let ev = visitor.on_host_task_start(&ctx, &host);
    assert!(matches!(ev, Event::HostTaskStart { .. }));
    let ev = visitor.on_notify_handler(&host, &"restart nginx".to_string());
    assert!(matches!(
        ev,
        Event::HandlerNotified { ref handler, .. } if handler.as_str() == "restart nginx"
    ));
    let ev = visitor.on_host_delegate(&host, &"beta".to_string());
    assert!(matches!(ev, Event::Delegating { ref delegate, .. } if delegate.as_str() == "beta"));
    let ev = visitor.debug_host(&host, &"probe done".to_string());
    assert!(matches!(ev, Event::HostDebug { ref message, .. } if message.as_str() == "probe done"));
}

#[test]
fn summary_counts_roles_tasks_and_categories() {
    let visitor = PlaybookVisitor::new(CheckMode::No);
    let mut ctx = PlaybookContext::new(0);
    ctx.increment_role_count();
    ctx.increment_task_count();
    ctx.increment_task_count();
    let a = "alpha".to_string();
    let _ = visitor.on_host_task_ok(&mut ctx, &bare(TaskStatus::IsRemoved), &a);
    let _ = visitor.on_host_task_ok(&mut ctx, &bare(TaskStatus::IsMatched), &a);
    let _ = visitor.on_host_task_failed(&mut ctx, &bare(TaskStatus::Failed), &a);
    let s = build_playbook_summary(&ctx);
    assert_eq!(s.roles, 1);
    assert_eq!(s.tasks, 2);
    assert_eq!(s.removed_ct, 1);
    assert_eq!(s.removed_hosts, 1);
    assert_eq!(s.matched_ct, 1);
    assert_eq!(s.failed_ct, 1);
    assert_eq!(s.failed_hosts, 1);
    assert!(matches!(s.verdict, Verdict::Failures));
    assert_eq!(visitor.get_exit_status(&ctx), 1);
}
