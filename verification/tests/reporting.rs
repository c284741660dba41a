use rusty_butter_knife::logging::add_action;
use rusty_butter_knife::options::initialize_component_selection;
use rusty_butter_knife::report::{
    cleanup_gate, cleanup_stages, components_json, CleanupStage, components_summary_line, post_run_check, run_closing_lines,
    run_header_lines, status_summary_line, tally_actions, tally_json, ti_child_identity_warning,
    write_report,
};
use rusty_butter_knife::types::{ActionRecord, Options, RunState};

fn rec(kind: &str, status: &str, path: &str, detail: &str) -> ActionRecord {
    ActionRecord {
        kind: kind.to_string(),
        status: status.to_string(),
        component: "Telemetry".to_string(),
        path: path.to_string(),
        detail: detail.to_string(),
    }
}

const DEFAULT_COMPONENTS_JSON: &str = "\"Telemetry\": true, \"UpdateAndProfileUpdater\": true, \
\"Installer2Cache\": true, \"GeForceExperienceAndNvidiaApp\": true, \"ShadowPlayShare\": true, \
\"CaptureSDK\": false, \"AnselCamera\": true, \"FrameView\": true, \"Shield\": true, \
\"VirtualAudio\": false, \"USBTypeC\": true, \"Legacy3DVisionVR\": true, \"NvWMI\": false, \
\"NGX\": false, \"HDAudio\": false, \"PhysX\": false, \"NotebookOptimus\": false";

#[test]
fn tally_orders_keys_and_counts_each() {
    let actions = vec![
        rec("DeletePath", "OK", "a", ""),
        rec("StopService", "WARN", "b", ""),
        rec("DeletePath", "OK", "c", ""),
        rec("DeletePath", "DRYRUN", "d", ""),
    ];
    let by_status = tally_actions(&actions, true);
    assert_eq!(by_status.keys, vec!["DRYRUN", "OK", "WARN"]);
    assert_eq!(by_status.counts, vec![1, 2, 1]);
    let by_type = tally_actions(&actions, false);
    assert_eq!(by_type.keys, vec!["DeletePath", "StopService"]);
    assert_eq!(by_type.counts, vec![3, 1]);
    assert_eq!(tally_json(&by_status), "\"DRYRUN\": 1, \"OK\": 2, \"WARN\": 1");
    assert_eq!(
        status_summary_line(&by_status),
        "Action summary by status: DRYRUN=1, OK=2, WARN=1"
    );
    let empty = tally_actions(&Vec::new(), true);
    assert!(empty.keys.is_empty());
    assert_eq!(tally_json(&empty), "");
    assert_eq!(status_summary_line(&empty), "Action summary by status: ");
}

#[test]
fn post_run_check_reasons_and_summary() {
    let actions = vec![
        rec("DeletePath", "OK", "C:\\a", ""),
        rec("ScheduleDelete", "INFO", "C:\\b", "Pending delete at reboot"),
        rec("DeletePath", "SKIP", "C:\\c", "first try"),
        rec("DeletePath", "WARN", "C:\\c", "Access is denied."),
    ];
    let paths: Vec<String> = vec!["C:\\a", "C:\\b", "C:\\c", "C:\\d"]
        .into_iter()
        .map(String::from)
        .collect();
    let exists = vec![false, true, true, true];
    let r = post_run_check(&actions, &paths, &exists, true);
    assert_eq!(r.remaining, 3);
    assert_eq!(r.pending_reboot, 1);
    assert_eq!(r.dry_run, 0);
    assert_eq!(
        r.section,
        "\n==== Post-run existence check ====\n\
         STILL EXISTS [scheduled for deletion at next reboot] C:\\b\n\
         STILL EXISTS [deletion failed: Access is denied.] C:\\c\n\
         STILL EXISTS [no action recorded] C:\\d\n\
         Summary: 3 of 4 discovered paths still exist (1 pending reboot deletion)."
    );
    assert_eq!(r.log_level, "WARN");
    assert_eq!(
        r.log_message,
        "Post-run check: 1/4 candidate paths removed; 3 still exist (details above)"
    );
}

#[test]
fn post_run_check_dry_run_and_all_gone() {
    let actions = vec![rec("DeletePath", "DRYRUN", "C:\\a", "")];
    let paths = vec!["C:\\a".to_string(), "C:\\b".to_string()];
    let r = post_run_check(&actions, &paths, &vec![true, true], false);
    assert_eq!(r.remaining, 2);
    assert_eq!(r.dry_run, 2);
    assert!(r.section.ends_with(
        "STILL EXISTS [dry-run: not attempted] C:\\b\nSummary: 2 of 2 discovered paths still exist (2 not attempted in dry-run)."
    ));

    let gone = post_run_check(&actions, &paths, &vec![false, false], true);
    assert_eq!(gone.remaining, 0);
    assert_eq!(
        gone.section,
        "\n==== Post-run existence check ====\nResult: all 2 discovered paths are gone (0 remaining).\n"
    );
    assert_eq!(gone.log_level, "INFO");
    assert_eq!(gone.log_message, "Post-run check: 2/2 candidate paths removed");

    let none = post_run_check(&actions, &Vec::new(), &Vec::new(), true);
    assert_eq!(
        none.section,
        "\n==== Post-run existence check ====\nNo NVIDIA bloat candidates were discovered in this run.\n"
    );
    assert_eq!(none.log_level, "INFO");
    assert_eq!(
        none.log_message,
        "Post-run check: no NVIDIA bloat candidates discovered; nothing to verify (0 paths remain)."
    );
}

#[test]
fn skip_outcome_and_unknown_status_reasons() {
    let actions = vec![
        rec("DeletePath", "SKIP", "C:\\s", "component disabled"),
        rec("DeletePath", "ERROR", "C:\\e", "boom"),
    ];
    let paths = vec!["C:\\s".to_string(), "C:\\e".to_string()];
    let r = post_run_check(&actions, &paths, &vec![true, true], true);
    assert!(r.section.contains("STILL EXISTS [skipped: component disabled] C:\\s\n"));
    assert!(r.section.contains("STILL EXISTS [still present] C:\\e\n"));
}

#[test]
fn components_json_and_summary_follow_catalog_order() {
    let enabled = initialize_component_selection(&Options::default());
    assert_eq!(components_json(&enabled), DEFAULT_COMPONENTS_JSON);
    let line = components_summary_line(&enabled);
    assert!(line.starts_with("Components: Telemetry=on, UpdateAndProfileUpdater=on, "));
    assert!(line.ends_with("HDAudio=off, PhysX=off, NotebookOptimus=off"));
    assert_eq!(line.matches(", ").count(), 16);
}

#[test]
fn whole_report_block_is_exact() {
    let mut run = RunState::default();
    run.run_id = "r1".to_string();
    run.exe_path = "C:\\x.exe".to_string();
    run.log_path = "C:\\l.log".to_string();
    add_action(&mut run, "DeletePath", "DRYRUN", "Telemetry", "C:\\p", "would \"delete\"");
    let opts = Options::default();
    let enabled = initialize_component_selection(&opts);
    let by_status = tally_actions(&run.actions, true);
    let by_type = tally_actions(&run.actions, false);
    let report = write_report(
        &run,
        &opts,
        &enabled,
        "NT AUTHORITY\\SYSTEM",
        true,
        false,
        &by_status,
        &by_type,
    );
    let expected = format!(
        "\n==== Run report (JSON) ====\n{{\n  \"runId\": \"r1\",\n  \"exePath\": \"C:\\\\x.exe\",\n  \
         \"identity\": \"NT AUTHORITY\\\\SYSTEM\",\n  \"isAdmin\": true,\n  \"isTrustedInstaller\": false,\n  \
         \"execute\": false,\n  \"version\": \"2.0.1\",\n  \"logPath\": \"C:\\\\l.log\",\n  \"aborted\": false,\n  \
         \"candidateCount\": 0,\n  \"components\": {{{}}},\n  \"options\": {{\"killLockers\": false, \
         \"disableServices\": false, \"deleteServices\": false, \"disableScheduledTasks\": true, \
         \"deleteScheduledTasks\": false, \"scheduleLockedForReboot\": false, \"takeOwnership\": false, \
         \"preserveNvContainers\": true, \"allowAdminFallback\": false, \"tiChild\": false}},\n  \
         \"summaryByStatus\": {{\"DRYRUN\": 1}},\n  \"summaryByType\": {{\"DeletePath\": 1}},\n  \
         \"actions\": [\n    {{\"type\": \"DeletePath\", \"status\": \"DRYRUN\", \"component\": \"Telemetry\", \
         \"path\": \"C:\\\\p\", \"detail\": \"would \\\"delete\\\"\"}}\n  ]\n}}\n",
        DEFAULT_COMPONENTS_JSON
    );
    assert_eq!(report, expected);
}

#[test]
fn report_includes_post_run_and_history_counts_once_known() {
    let mut run = RunState::default();
    run.post_run_check_done = true;
    run.paths_remaining_after_run = 2;
    run.paths_pending_reboot = 1;
    run.history_scan_done = true;
    run.history_log_files = 3;
    run.history_runs = 4;
    run.history_candidates = -5;
    add_action(&mut run, "A", "OK", "c", "p1", "");
    add_action(&mut run, "B", "OK", "c", "p2", "");
    let opts = Options::default();
    let enabled = initialize_component_selection(&opts);
    let report = write_report(
        &run,
        &opts,
        &enabled,
        "me",
        false,
        true,
        &tally_actions(&run.actions, true),
        &tally_actions(&run.actions, false),
    );
    assert!(report.contains(
        "  \"candidatePathsRemainingAfterRun\": 2,\n  \"candidatePathsPendingRebootDelete\": 1,\n"
    ));
    assert!(report.contains(
        "  \"previousLogs\": {\"files\": 3, \"runs\": 4, \"candidatesDiscoveredTotal\": -5},\n"
    ));
    assert!(report.contains("\"summaryByStatus\": {\"OK\": 2},"));
    assert!(report.contains("\"summaryByType\": {\"A\": 1, \"B\": 1},"));
    assert!(report.contains("\"detail\": \"\"},\n    {\"type\": \"B\""));
    assert!(report.ends_with("\"detail\": \"\"}\n  ]\n}\n"));
}

#[test]
fn header_lines_depend_on_mode_and_identity() {
    let mut run = RunState::default();
    run.run_id = "20240101-000000".to_string();
    run.exe_path = "C:\\t\\rbk.exe".to_string();
    run.log_path = "C:\\t\\debloat-20240101-000000.log".to_string();
    let mut opts = Options::default();
    let enabled = initialize_component_selection(&opts);
    let lines = run_header_lines(&run, &opts, &enabled, "PC\\me", true, false);
    assert_eq!(lines.len(), 11);
    assert_eq!(lines[0], "==== NVIDIA post-install debloat run header ====");
    assert_eq!(lines[1], "RunId: 20240101-000000");
    assert_eq!(lines[2], "Exe: C:\\t\\rbk.exe");
    assert_eq!(lines[3], "Log: C:\\t\\debloat-20240101-000000.log");
    assert_eq!(lines[4], "Identity: PC\\me");
    assert_eq!(lines[5], "IsAdmin: True");
    assert_eq!(lines[6], "IsTrustedInstaller: False");
    assert_eq!(lines[7], "Execution mode: DRY RUN");
    assert_eq!(
        lines[8],
        "Dry run does not request TrustedInstaller; it only scans and logs as the current user/admin."
    );
    assert_eq!(lines[9], "Preserve NVIDIA Container processes/services: True");
    assert_eq!(lines[10], components_summary_line(&enabled));

    opts.execute = true;
    let lines = run_header_lines(&run, &opts, &enabled, "PC\\me", true, false);
    assert_eq!(lines.len(), 11);
    assert_eq!(lines[7], "Execution mode: EXECUTE");
    assert_eq!(
        lines[8],
        "Execute mode will attempt TrustedInstaller scheduled-task relaunch before destructive actions."
    );
    let lines = run_header_lines(&run, &opts, &enabled, "NT SERVICE\\TrustedInstaller", true, true);
    assert_eq!(lines.len(), 10);
}

#[test]
fn failed_reboot_scheduling_is_not_pending() {
    let actions = vec![
        rec("DeletePath", "WARN", "C:\\b", "Access is denied."),
        rec("ScheduleDelete", "WARN", "C:\\b", "0x00000005 Access is denied."),
        rec("ScheduleDelete", "INFO", "C:\\e", "Pending delete at reboot"),
    ];
    let paths: Vec<String> = vec!["C:\\b".to_string(), "C:\\e".to_string()];
    let r = post_run_check(&actions, &paths, &vec![true, true], true);
    assert_eq!(r.remaining, 2);
    assert_eq!(r.pending_reboot, 1);
    assert!(r.section.contains("STILL EXISTS [deletion failed: 0x00000005 Access is denied.] C:\\b\n"));
    assert!(r.section.contains("STILL EXISTS [scheduled for deletion at next reboot] C:\\e\n"));
}

#[test]
fn cleanup_gate_refuses_destructive_run_outside_ti() {
    let mut opts = Options::default();
    assert!(cleanup_gate(&opts, false, None).is_ok());
    assert!(cleanup_gate(&opts, false, Some("run log x is not writable")).is_ok());
    opts.execute = true;
    assert_eq!(
        cleanup_gate(&opts, false, None),
        Err("Destructive execution requires TrustedInstaller. Relaunch did not occur or did not enter TI context.".to_string())
    );
    assert!(cleanup_gate(&opts, true, None).is_ok());
    assert_eq!(
        cleanup_gate(&opts, true, Some("run log C:\\x.log is not writable: denied")),
        Err("Destructive execution requires a writable audit log: run log C:\\x.log is not writable: denied".to_string())
    );
    opts.allow_admin_fallback = true;
    assert!(cleanup_gate(&opts, false, None).is_ok());
    opts.allow_admin_fallback = false;
    opts.ti_child = true;
    assert!(cleanup_gate(&opts, false, None).is_ok());
    assert!(cleanup_gate(&opts, false, Some("no")).is_err());
    assert_eq!(
        ti_child_identity_warning(&opts, false, "NT AUTHORITY\\SYSTEM"),
        Some("TI child running as NT AUTHORITY\\SYSTEM instead of TrustedInstaller. SYSTEM-level privileges should suffice for file operations.".to_string())
    );
    assert_eq!(ti_child_identity_warning(&opts, true, "x"), None);
}

#[test]
fn closing_lines_follow_abort_mode_and_reboot_option() {
    let mut run = RunState::default();
    run.log_path = "C:\\l.log".to_string();
    let mut opts = Options::default();
    let lines = run_closing_lines(&run, &opts);
    assert_eq!(
        lines,
        vec![
            ("INFO".to_string(), "Done. Log: C:\\l.log".to_string()),
            (
                "WARN".to_string(),
                "Dry run only. Re-run with --execute to make changes.".to_string()
            ),
        ]
    );
    run.aborted = true;
    opts.execute = true;
    opts.schedule_locked_for_reboot = true;
    let lines = run_closing_lines(&run, &opts);
    assert_eq!(
        lines,
        vec![
            (
                "WARN".to_string(),
                "Run aborted by user request; partial results recorded.".to_string()
            ),
            ("INFO".to_string(), "Done. Log: C:\\l.log".to_string()),
            (
                "WARN".to_string(),
                "Some locked-file deletions may require reboot. Review report/log.".to_string()
            ),
        ]
    );
}

#[test]
fn cleanup_stages_run_in_order() {
    assert_eq!(
        cleanup_stages(),
        vec![
            CleanupStage::Services,
            CleanupStage::Lockers,
            CleanupStage::ScheduledTasks,
            CleanupStage::PreviousLogs,
            CleanupStage::InspectBeforeDeletion,
            CleanupStage::Discovery,
            CleanupStage::CandidatesToLog,
            CleanupStage::Deletion,
            CleanupStage::InspectAfterDeletion,
            CleanupStage::ExistenceCheck,
            CleanupStage::Closing,
        ]
    );
}
