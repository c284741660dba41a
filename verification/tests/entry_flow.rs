use rusty_butter_knife::app::{EnabledMap, EXIT_ABORTED, EXIT_ALREADY_RUNNING, EXIT_BAD_ARGS, EXIT_OK, EXIT_TI_CHILD_FAILED, EXIT_TI_RELAUNCH_FAILED};
use rusty_butter_knife::launch::{
    apply_wizard_defaults, bad_args_gate, bad_args_status, cleanup_status, list_components_text,
    pause_on_exit_wanted, single_instance_refusal, single_instance_required, status_json,
    ti_outcome, ti_preflight_needed, uac_args, uac_handoff_wanted, version_line, TiOutcome,
};
use rusty_butter_knife::options::{initialize_component_selection, parse_args};
use rusty_butter_knife::tasksched::TiRelaunchResult;
use rusty_butter_knife::types::Options;

fn args(v: &[&str]) -> Vec<String> {
    v.iter().map(|s| s.to_string()).collect()
}

#[test]
fn status_file_text_is_exact_and_escaped() {
    assert_eq!(
        status_json(0, "ok", "completed", "r\"1", "C:\\logs\\a.log"),
        "{\n  \"version\": \"2.0.1\",\n  \"runId\": \"r\\\"1\",\n  \"exitCode\": 0,\n  \"status\": \"ok\",\n  \"detail\": \"completed\",\n  \"logPath\": \"C:\\\\logs\\\\a.log\"\n}\n"
    );
    assert!(status_json(-3, "failed", "x\ny", "", "").contains("\"exitCode\": -3,\n  \"status\": \"failed\",\n  \"detail\": \"x\\ny\""));
}

#[test]
fn version_and_component_listing() {
    assert_eq!(version_line(), "Rusty Butter Knife version 2.0.1\n");
    let enabled = initialize_component_selection(&Options::default());
    let text = list_components_text(&enabled);
    let lines: Vec<&str> = text.lines().collect();
    assert_eq!(lines.len(), 17);
    assert_eq!(lines[0], "[x] Telemetry");
    assert_eq!(lines[5], "[ ] CaptureSDK (optional)");
    assert_eq!(lines[16], "[ ] NotebookOptimus (optional)");
    assert!(text.ends_with('\n'));
}

#[test]
fn wizard_defaults_deselect_profile_updater_only() {
    let mut opts = Options::default();
    let mut enabled = initialize_component_selection(&opts);
    apply_wizard_defaults(&opts, &mut enabled);
    assert_eq!(enabled.get("UpdateAndProfileUpdater"), Some(true));
    opts.wizard_defaults = true;
    apply_wizard_defaults(&opts, &mut enabled);
    assert_eq!(enabled.get("UpdateAndProfileUpdater"), Some(false));
    assert_eq!(enabled.get("Telemetry"), Some(true));
    let mut empty = EnabledMap::new();
    apply_wizard_defaults(&opts, &mut empty);
    assert_eq!(empty.get("UpdateAndProfileUpdater"), None);
}

#[test]
fn bad_argument_gate_refuses_only_execute_runs() {
    let opts = parse_args(&args(&["--execute", "--bogus", "--ti-wait-seconds"]));
    let gate = bad_args_gate(&opts);
    assert!(gate.refuse);
    assert_eq!(gate.lines.len(), opts.unknown_args.len());
    assert_eq!(gate.lines[0].level, "ERROR");
    assert_eq!(gate.lines[0].message, "Invalid or unknown argument: --bogus");
    let dry = parse_args(&args(&["--bogus"]));
    let gate = bad_args_gate(&dry);
    assert!(!gate.refuse);
    assert_eq!(gate.lines.len(), 1);
    assert_eq!(gate.lines[0].level, "WARN");
    assert_eq!(gate.lines[0].message, "Ignoring invalid or unknown argument: --bogus");
    let clean = bad_args_gate(&parse_args(&args(&["--execute"])));
    assert!(!clean.refuse);
    assert!(clean.lines.is_empty());
    let s = bad_args_status();
    assert_eq!(s.exit_code, EXIT_BAD_ARGS);
    assert_eq!(s.exit_code, 13);
    assert_eq!(s.status, "failed");
    assert_eq!(s.detail, "invalid or unknown command-line arguments");
}

#[test]
fn uac_handoff_only_for_unelevated_wizard_execute() {
    let mut opts = Options::default();
    opts.wizard_defaults = true;
    opts.execute = true;
    assert!(uac_handoff_wanted(&opts, false, false));
    assert!(!uac_handoff_wanted(&opts, true, false));
    assert!(!uac_handoff_wanted(&opts, false, true));
    opts.execute = false;
    assert!(!uac_handoff_wanted(&opts, false, false));
}

#[test]
fn uac_arguments_forward_switches_and_handoff_values() {
    let mut opts = Options::default();
    opts.execute = true;
    let enabled = initialize_component_selection(&opts);
    let v = uac_args(&opts, &enabled, "C:\\l.log", "Local\\RustyButterKnife_Abort_ab-12");
    assert_eq!(v[0], "--execute");
    let n = v.len();
    assert_eq!(
        &v[n - 6..],
        &args(&["--no-menu", "--pause", "--log-file", "C:\\l.log", "--abort-event", "Local\\RustyButterKnife_Abort_ab-12"])[..]
    );
    opts.status_file = "C:\\s.json".to_string();
    let w = uac_args(&opts, &enabled, "L", "E");
    let m = w.len();
    assert_eq!(&w[m - 4..], &args(&["--status-file", "C:\\s.json", "--abort-event", "E"])[..]);
    assert_eq!(m, n + 2);
}

#[test]
fn single_instance_gate() {
    let mut opts = Options::default();
    assert!(!single_instance_required(&opts));
    opts.execute = true;
    assert!(single_instance_required(&opts));
    opts.ti_child = true;
    assert!(!single_instance_required(&opts));

    assert!(single_instance_refusal(true, false, "").is_none());
    let (msg, st) = single_instance_refusal(true, true, "").unwrap();
    assert_eq!(msg, "Another execute-mode instance is already running; refusing concurrent destructive run.");
    assert_eq!(st.exit_code, EXIT_ALREADY_RUNNING);
    assert_eq!(st.status, "failed");
    assert_eq!(st.detail, "another execute-mode instance is running");
    let (msg, st) = single_instance_refusal(false, false, "0x00000005 Access is denied.").unwrap();
    assert_eq!(
        msg,
        "Single-instance mutex unavailable: 0x00000005 Access is denied.; refusing concurrent destructive run."
    );
    assert_eq!(st.exit_code, 12);
    assert_eq!(st.detail, "single-instance execute-mode mutex unavailable");
}

fn result(seen: bool, ok: bool, detail: &str) -> TiRelaunchResult {
    TiRelaunchResult {
        attempted: true,
        child_status_seen: seen,
        aborted: false,
        child_succeeded: ok,
        child_exit_code: if ok { 0 } else { 1 },
        detail: detail.to_string(),
    }
}

#[test]
fn ti_preflight_and_outcomes() {
    let mut opts = Options::default();
    opts.execute = true;
    assert!(ti_preflight_needed(&opts, false));
    assert!(!ti_preflight_needed(&opts, true));

    match ti_outcome(&opts, false, &result(false, false, ""), false) {
        TiOutcome::Exit(Some(l), s) => {
            assert_eq!(l.level, "FATAL");
            assert_eq!(s.exit_code, EXIT_TI_RELAUNCH_FAILED);
            assert_eq!(s.detail, "TI relaunch disabled without admin fallback");
        }
        _ => panic!("expected exit"),
    }
    match ti_outcome(&opts, true, &result(true, true, ""), false) {
        TiOutcome::Exit(Some(l), s) => {
            assert_eq!(l.level, "INFO");
            assert_eq!(s.exit_code, EXIT_OK);
            assert_eq!(s.status, "ok");
            assert_eq!(s.detail, "TI child completed");
        }
        _ => panic!("expected exit"),
    }
    match ti_outcome(&opts, true, &result(true, false, "exit code 3"), false) {
        TiOutcome::Exit(Some(l), s) => {
            assert_eq!(l.message, "Elevated TI child reported failure: exit code 3");
            assert_eq!(s.exit_code, EXIT_TI_CHILD_FAILED);
            assert_eq!(s.detail, "TI child failed: exit code 3");
        }
        _ => panic!("expected exit"),
    }
    match ti_outcome(&opts, true, &result(false, false, "aborted"), true) {
        TiOutcome::Exit(None, s) => {
            assert_eq!(s.exit_code, EXIT_ABORTED);
            assert_eq!(s.status, "aborted");
            assert_eq!(s.detail, "aborted");
        }
        _ => panic!("expected silent exit"),
    }
    // A wait that itself ended on the abort ends the run as aborted too.
    match ti_outcome(&opts, true, &TiRelaunchResult::aborted_wait(), false) {
        TiOutcome::Exit(None, s) => {
            assert_eq!(s.exit_code, EXIT_ABORTED);
            assert_eq!(s.detail, "aborted by user request while waiting for TI child");
        }
        _ => panic!("expected silent exit"),
    }
    match ti_outcome(&opts, true, &result(false, false, ""), false) {
        TiOutcome::Exit(Some(l), s) => {
            assert_eq!(
                l.message,
                "TrustedInstaller relaunch failed. and --allow-admin-fallback was not specified."
            );
            assert_eq!(s.detail, "TrustedInstaller relaunch failed: ");
        }
        _ => panic!("expected exit"),
    }
    match ti_outcome(&opts, true, &result(false, false, "timeout"), false) {
        TiOutcome::Exit(Some(l), _) => assert_eq!(
            l.message,
            "TrustedInstaller relaunch failed (timeout) and --allow-admin-fallback was not specified."
        ),
        _ => panic!("expected exit"),
    }
    opts.allow_admin_fallback = true;
    assert!(matches!(
        ti_outcome(&opts, true, &result(false, false, "timeout"), false),
        TiOutcome::Continue
    ));
}

#[test]
fn cleanup_status_and_final_pause() {
    let s = cleanup_status(true);
    assert_eq!((s.exit_code, s.status.as_str(), s.detail.as_str()), (3, "aborted", "run aborted by user request"));
    let s = cleanup_status(false);
    assert_eq!((s.exit_code, s.status.as_str(), s.detail.as_str()), (0, "ok", "completed"));

    let mut opts = Options::default();
    assert!(!pause_on_exit_wanted(true, &opts, false));
    opts.menu = true;
    assert!(pause_on_exit_wanted(true, &opts, false));
    assert!(!pause_on_exit_wanted(false, &opts, false));
    assert!(!pause_on_exit_wanted(true, &opts, true));
    opts.no_pause = true;
    assert!(!pause_on_exit_wanted(true, &opts, false));
    opts.no_pause = false;
    opts.menu = false;
    opts.pause_on_exit = true;
    assert!(pause_on_exit_wanted(true, &opts, false));
    opts.ti_child = true;
    assert!(!pause_on_exit_wanted(true, &opts, false));
}
