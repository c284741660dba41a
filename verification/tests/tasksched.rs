use rusty_butter_knife::app::EnabledMap;
use rusty_butter_knife::options::{parse_args, apply_component_args, initialize_component_selection};
use rusty_butter_knife::tasksched::{
    effective_child_switches, is_stale_ti_status_file, is_ti_task_name, should_attempt_ti_relaunch,
    ti_child_args, ti_poll_decision, ti_wait_decision,
    ti_result_for, ti_task_name, PollDecision, TiRelaunchResult, SCHED_S_TASK_HAS_NOT_RUN,
};
use rusty_butter_knife::types::Options;

#[test]
fn fast_completion_between_polls_finishes_immediately() {
    assert_eq!(
        ti_poll_decision(false, false, false, Some(0), 3, 60),
        PollDecision::Finished(0)
    );
    assert_eq!(
        ti_poll_decision(false, false, false, Some(11), 3, 60),
        PollDecision::Finished(11)
    );
}

#[test]
fn has_not_run_keeps_waiting_until_grace_expires() {
    assert_eq!(
        ti_poll_decision(false, false, false, Some(SCHED_S_TASK_HAS_NOT_RUN), 3, 60),
        PollDecision::KeepWaiting,
        "scheduler simply has not launched yet"
    );
    // Unreadable result behaves like HAS_NOT_RUN inside the grace.
    assert_eq!(
        ti_poll_decision(false, false, false, None, 59, 60),
        PollDecision::KeepWaiting
    );
    // ...but past the grace it becomes the never-started diagnosis.
    assert_eq!(
        ti_poll_decision(false, false, false, Some(SCHED_S_TASK_HAS_NOT_RUN), 60, 60),
        PollDecision::NeverStarted
    );
    assert_eq!(
        ti_poll_decision(false, false, false, None, 63, 60),
        PollDecision::NeverStarted
    );
}

#[test]
fn running_and_queued_states_keep_waiting() {
    assert_eq!(
        ti_poll_decision(true, true, false, Some(0xC1), 120, 60),
        PollDecision::KeepWaiting
    );
    assert_eq!(
        ti_poll_decision(false, false, true, None, 10, 60),
        PollDecision::KeepWaiting
    );
}

#[test]
fn child_switches_spell_out_effective_options() {
    let opts = parse_args(&[]);
    let mut enabled = EnabledMap::new();
    enabled.insert("NGX", true);
    enabled.insert("Telemetry", false);
    let sw = effective_child_switches(&opts, &enabled);
    assert_eq!(
        sw,
        vec![
            "--execute",
            "--kill-lockers",
            "--disable-services",
            "--delete-scheduled-tasks",
            "--schedule-reboot-delete",
            "--ti-wait-seconds=600",
            "--component=NGX:on",
            "--component=Telemetry:off",
        ]
    );
    let mut o = Options::default();
    o.preserve_nv_containers = false;
    o.disable_scheduled_tasks = false;
    o.ti_wait_seconds = -42;
    let sw = effective_child_switches(&o, &EnabledMap::new());
    assert_eq!(
        sw,
        vec![
            "--dry-run",
            "--preserve-nvcontainers=off",
            "--no-disable-scheduled-tasks",
            "--ti-wait-seconds=-42",
        ]
    );
    let args = ti_child_args(&o, &EnabledMap::new(), "C:\\run.log");
    assert_eq!(&args[4..], &["--ti-child", "--no-menu", "--log-file", "C:\\run.log"]);
}

#[test]
fn forwarded_switches_parse_back_to_the_same_choices() {
    let mut opts = parse_args(&[]);
    opts.include_physx = true;
    opts.ti_wait_seconds = 900;
    let mut enabled = initialize_component_selection(&opts);
    apply_component_args(&mut enabled, &["--component=UpdateAndProfileUpdater:off".to_string()]);
    let sw = effective_child_switches(&opts, &enabled);
    let child = parse_args(&sw);
    assert!(child.unknown_args.is_empty());
    assert_eq!(child.execute, opts.execute);
    assert_eq!(child.kill_lockers, opts.kill_lockers);
    assert_eq!(child.disable_services, opts.disable_services);
    assert_eq!(child.delete_scheduled_tasks, opts.delete_scheduled_tasks);
    assert_eq!(child.schedule_locked_for_reboot, opts.schedule_locked_for_reboot);
    assert_eq!(child.include_physx, true);
    assert_eq!(child.ti_wait_seconds, 900);
    let mut child_enabled = initialize_component_selection(&child);
    let problems = apply_component_args(&mut child_enabled, &sw);
    assert!(problems.is_empty());
    for i in 0..enabled.len() {
        let k = enabled.key_at(i);
        assert_eq!(child_enabled.get(k), Some(enabled.value_at(i)), "{k}");
    }
}

#[test]
fn relaunch_gate_and_outcomes() {
    let opts = parse_args(&["--execute".to_string()]);
    assert!(should_attempt_ti_relaunch(&opts, false));
    assert!(!should_attempt_ti_relaunch(&opts, true));
    let opts = parse_args(&["--execute".to_string(), "--no-ti-relaunch".to_string()]);
    assert!(!should_attempt_ti_relaunch(&opts, false));
    let opts = parse_args(&["--dry-run".to_string()]);
    assert!(!should_attempt_ti_relaunch(&opts, false));
    assert_eq!(ti_task_name(4242), "NvDebloatTI-4242");
    let r = TiRelaunchResult::finished(0xC1);
    assert!(r.child_status_seen && !r.child_succeeded && r.child_exit_code == 0xC1);
    assert_eq!(r.detail, "TI child finished: exit=0xC1");
    let r = TiRelaunchResult::finished(-1);
    assert_eq!(r.detail, "TI child finished: exit=0xFFFFFFFFFFFFFFFF");
    assert!(ti_result_for(&PollDecision::KeepWaiting).is_none());
    let r = ti_result_for(&PollDecision::NeverStarted).unwrap();
    assert!(r.attempted && !r.child_status_seen);
    assert_eq!(r.detail, "task never started");
    let r = ti_result_for(&PollDecision::Finished(0)).unwrap();
    assert!(r.child_succeeded);
    let n = TiRelaunchResult::not_attempted();
    assert!(!n.attempted && n.child_exit_code == -1);
}

#[test]
fn leftovers_of_earlier_relaunches_are_recognised() {
    assert!(is_ti_task_name("NvDebloatTI-4242"));
    assert!(!is_ti_task_name("nvdebloatti-4242"));
    assert!(!is_ti_task_name("Other"));
    assert!(is_stale_ti_status_file("NvDebloatTI-1-status.json"));
    assert!(is_stale_ti_status_file("NvDebloatTI-1-STATUS.JSON"));
    assert!(!is_stale_ti_status_file("NvDebloatTI-1.log"));
    assert!(!is_stale_ti_status_file("x-NvDebloatTI-1-status.json"));
}

#[test]
fn relaunch_wait_ends_on_abort_and_at_its_bound() {
    // Running child, abort requested: the wait stops at once.
    assert_eq!(
        ti_wait_decision(true, 9, 600, true, true, false, Some(0x41301), 60),
        PollDecision::Aborted
    );
    // Without an abort the same round keeps waiting.
    assert_eq!(
        ti_wait_decision(false, 9, 600, true, true, false, Some(0x41301), 60),
        PollDecision::KeepWaiting
    );
    // A result seen in the same round wins over the abort.
    assert_eq!(
        ti_wait_decision(true, 9, 600, true, false, false, Some(0), 60),
        PollDecision::Finished(0)
    );
    // At the bound the wait ends.
    assert_eq!(
        ti_wait_decision(false, 600, 600, true, true, false, None, 60),
        PollDecision::TimedOut
    );
    assert_eq!(
        ti_wait_decision(true, 600, 600, true, true, false, None, 60),
        PollDecision::Aborted
    );
    let r = ti_result_for(&PollDecision::Aborted).unwrap();
    assert!(r.attempted && r.aborted && !r.child_status_seen && !r.child_succeeded);
    assert_eq!(r.detail, "aborted by user request while waiting for TI child");
    let r = ti_result_for(&PollDecision::TimedOut).unwrap();
    assert!(r.attempted && !r.aborted && !r.child_status_seen);
    assert_eq!(r.detail, "timed out waiting for child");
    assert!(!TiRelaunchResult::finished(0).aborted);
}
