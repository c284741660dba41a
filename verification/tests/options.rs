use rusty_butter_knife::options::{
    apply_component_args, apply_component_args_and_collect_problems, apply_ti_wait_seconds,
    initialize_component_selection, parse_args, parse_args_with_diagnostics, parse_bool_assignment,
    usage_text, BoolAssign,
};
use rusty_butter_knife::types::Options;

fn args(v: &[&str]) -> Vec<String> {
    v.iter().map(|s| s.to_string()).collect()
}

#[test]
fn strict_bool_assignment_variants() {
    assert_eq!(
        parse_bool_assignment("--preserve-nvcontainers=off", "--preserve-nvcontainers"),
        BoolAssign::Assigned(false)
    );
    assert_eq!(
        parse_bool_assignment("--preserve-nvcontainers=ON", "--preserve-nvcontainers"),
        BoolAssign::Assigned(true)
    );
    assert_eq!(
        parse_bool_assignment("--PRESERVE-NVCONTAINERS=0", "--preserve-nvcontainers"),
        BoolAssign::Assigned(false)
    );
    // Bare form has no '=' assignment.
    assert_eq!(
        parse_bool_assignment("--preserve-nvcontainers", "--preserve-nvcontainers"),
        BoolAssign::NotMine
    );
    // Different flag never matches.
    assert_eq!(
        parse_bool_assignment("--component=x:on", "--preserve-nvcontainers"),
        BoolAssign::NotMine
    );
    // Malformed values are now DETECTED, not silently true.
    assert_eq!(
        parse_bool_assignment("--preserve-nvcontainers=maybe", "--preserve-nvcontainers"),
        BoolAssign::Malformed("maybe".to_string())
    );
    assert_eq!(
        parse_bool_assignment("--preserve-nvcontainers=", "--preserve-nvcontainers"),
        BoolAssign::Malformed(String::new())
    );
}

#[test]
fn ti_wait_seconds_validation_and_clamping() {
    let mut opt = Options::default();
    assert!(apply_ti_wait_seconds("90", &mut opt).is_none());
    assert_eq!(opt.ti_wait_seconds, 90);
    // Below minimum clamps up.
    assert!(apply_ti_wait_seconds("1", &mut opt).is_none());
    assert_eq!(opt.ti_wait_seconds, 15);
    // Above the task's PT2H self-limit clamps down.
    assert!(apply_ti_wait_seconds("99999999999", &mut opt).is_none());
    assert_eq!(opt.ti_wait_seconds, 7200);
    // Non-numeric is rejected outright.
    assert!(apply_ti_wait_seconds("abc", &mut opt).is_some());
}

#[test]
fn flag_like_value_is_a_problem_not_a_silent_swallow() {
    let opts = parse_args(&["--execute".into(), "--log-file".into(), "--dry-run".into()]);
    assert!(opts.log_file_override.is_empty());
    assert_eq!(opts.unknown_args.len(), 1);
    assert!(opts.unknown_args[0].contains("--log-file"));
    assert!(opts.unknown_args[0].contains("--dry-run"));
}

#[test]
fn unknown_and_malformed_args_are_collected_for_execute_rejection() {
    // Unknown option lands in unknown_args...
    let opts = parse_args(&["--dry-run".into(), "--frobnicate".into()]);
    assert_eq!(opts.unknown_args.len(), 1);
    assert!(!opts.execute);
    // ...and a malformed preserve assignment is collected too.
    let opts = parse_args(&["--dry-run".into(), "--preserve-nvcontainers=bogus".into()]);
    assert_eq!(opts.unknown_args.len(), 1);
    // execute stays false: the rejection path can never fire from this.
    assert!(!opts.execute);
}

#[test]
fn mixed_case_component_flag_now_applies() {
    let mut enabled = initialize_component_selection(&Options::default());
    let before = enabled.get("NGX").unwrap();
    assert!(!before, "test expects NGX to start deselected");
    let arg = "--COMPONENT=ngx:on".to_string();
    let problems = apply_component_args(&mut enabled, std::slice::from_ref(&arg));
    assert!(problems.is_empty(), "mixed-case flag must apply: {problems:?}");
    let after = enabled.get("NGX").unwrap();
    assert!(after, "mixed-case flag must toggle the component");
}

#[test]
fn component_problems_collected_not_swallowed() {
    let mut enabled = initialize_component_selection(&Options::default());
    // Missing separator.
    let p = apply_component_args(&mut enabled, &["--component=NGX".into()]);
    assert_eq!(p.len(), 1, "missing state must be reported");
    // Garbage state.
    let p = apply_component_args(&mut enabled, &["--component=NGX:sometimes".into()]);
    assert_eq!(p.len(), 1);
    // Unknown key lists valid keys.
    let p = apply_component_args(&mut enabled, &["--component=Bogus:on".into()]);
    assert_eq!(p.len(), 1);
    assert!(p[0].contains("Telemetry"), "lists valid keys");
    // A well-formed call is silent.
    let p = apply_component_args(&mut enabled, &["--component=NGX:on".into()]);
    assert!(p.is_empty());
}

#[test]
fn bare_launch_applies_wizard_presets() {
    let opts = parse_args(&[]);
    assert!(opts.menu && opts.execute && opts.kill_lockers && opts.disable_services);
    assert!(opts.delete_scheduled_tasks && opts.schedule_locked_for_reboot && opts.wizard_defaults);
    assert!(!opts.delete_services);
    let opts = parse_args(&args(&["--dry-run"]));
    assert!(!opts.menu && !opts.execute && !opts.wizard_defaults);
    assert!(opts.disable_scheduled_tasks && opts.preserve_nv_containers && opts.attempt_ti_relaunch);
    assert_eq!(opts.ti_wait_seconds, 600);
}

#[test]
fn switches_are_case_insensitive_and_values_are_read() {
    let opts = parse_args(&args(&[
        "--EXECUTE",
        "--Kill-Lockers",
        "--preserve-nvcontainers=off",
        "--status-file",
        "C:\\s.json",
        "--log-dir=C:\\logs",
        "--ti-wait-seconds=90",
        "--abort-event",
        "Local\\RustyButterKnife_Abort_1f",
        "--component=NGX:on",
        "-h",
    ]));
    assert!(opts.execute && opts.kill_lockers && !opts.preserve_nv_containers && opts.show_help);
    assert_eq!(opts.status_file, "C:\\s.json");
    assert_eq!(opts.log_dir_override, "C:\\logs");
    assert_eq!(opts.ti_wait_seconds, 90);
    assert_eq!(opts.abort_event, "Local\\RustyButterKnife_Abort_1f");
    assert!(opts.unknown_args.is_empty());
    // The value form is exact-case: a mixed-case prefix is unknown.
    let opts = parse_args(&args(&["--Log-Dir=C:\\x"]));
    assert_eq!(opts.unknown_args, vec!["--Log-Dir=C:\\x".to_string()]);
    // A value flag at the end has nothing to read and is unknown.
    let opts = parse_args(&args(&["--log-file"]));
    assert_eq!(opts.unknown_args, vec!["--log-file".to_string()]);
}

#[test]
fn wait_problems_and_diagnostics() {
    let opts = parse_args(&args(&["--ti-wait-seconds", "soon"]));
    assert_eq!(
        opts.unknown_args,
        vec!["--ti-wait-seconds=soon is not a number (allowed range 15..=7200)".to_string()]
    );
    let (opts, diags) =
        parse_args_with_diagnostics(&args(&["--frobnicate", "--preserve-nvcontainers=maybe"]));
    assert_eq!(opts.unknown_args.len(), 2);
    assert_eq!(
        diags,
        vec![
            "Unknown option: --frobnicate\n".to_string(),
            "Invalid value in '--preserve-nvcontainers=maybe' (use on/off/true/false/1/0/yes/no)\n"
                .to_string()
        ]
    );
    let opts = parse_args(&args(&["--log-file", "--dry-run"]));
    assert_eq!(
        opts.unknown_args,
        vec!["--log-file is missing its value (found flag-like '--dry-run' instead)".to_string()]
    );
}

#[test]
fn include_switches_select_optional_components() {
    let opts = parse_args(&args(&["--include-ngx", "--include-hdaudio"]));
    let enabled = initialize_component_selection(&opts);
    assert_eq!(enabled.get("NGX"), Some(true));
    assert_eq!(enabled.get("HDAudio"), Some(true));
    assert_eq!(enabled.get("PhysX"), Some(false));
    assert_eq!(enabled.get("Telemetry"), Some(true));
    assert_eq!(enabled.get("Bogus"), None);
    assert_eq!(enabled.len(), 17);
}

#[test]
fn component_problem_texts_and_collection() {
    let mut enabled = initialize_component_selection(&Options::default());
    let p = apply_component_args(&mut enabled, &args(&["--component=NGX"]));
    assert_eq!(p, vec!["--component=NGX is missing an on/off state (use --component=Key:on|off)".to_string()]);
    let p = apply_component_args(&mut enabled, &args(&["--component=NGX:Maybe"]));
    assert_eq!(p, vec!["--component=NGX:Maybe: unknown state 'maybe' (use on/off/true/false/1/0/yes/no)".to_string()]);
    let p = apply_component_args(&mut enabled, &args(&["--component=telemetry=OFF"]));
    assert!(p.is_empty());
    assert_eq!(enabled.get("Telemetry"), Some(false));
    let mut opts = Options::default();
    let lines = apply_component_args_and_collect_problems(
        &mut opts,
        &mut enabled,
        &args(&["--component=Bogus:on"]),
    );
    assert_eq!(opts.unknown_args.len(), 1);
    assert!(opts.unknown_args[0].starts_with("unknown component key in '--component=Bogus:on'. Valid keys: AnselCamera, CaptureSDK, "));
    assert_eq!(lines.len(), 1);
    assert!(lines[0].starts_with("Invalid component selection: unknown component key"));
}

#[test]
fn usage_mentions_version_and_switches() {
    let u = usage_text();
    assert!(u.contains("(version 2.0.1)"));
    assert!(u.contains("--component=Key:on/off"));
    assert!(u.starts_with("\nNVIDIA post-install debloater native Rust build"));
}

#[test]
fn arguments_run_dry_unless_one_asks_for_execute() {
    let opts = parse_args(&args(&["--kill-lockers", "--delete-services", "--take-ownership"]));
    assert!(!opts.execute);
    // A value slot that swallows the word does not ask for execute mode.
    let opts = parse_args(&args(&["--status-file", "--execute"]));
    assert!(!opts.execute);
    let opts = parse_args(&args(&["--log-dir", "C:\\logs", "-EXECUTE"]));
    assert!(opts.execute);
    let opts = parse_args(&args(&["--Execute", "--dry-run"]));
    assert!(!opts.execute);
}

#[test]
fn wait_value_must_be_a_whole_integer() {
    let mut opt = Options::default();
    assert_eq!(opt.ti_wait_seconds, 600);
    assert_eq!(
        apply_ti_wait_seconds("600junk", &mut opt),
        Some("--ti-wait-seconds=600junk is not a number (allowed range 15..=7200)".to_string())
    );
    assert!(apply_ti_wait_seconds("abc1", &mut opt).is_some());
    assert!(apply_ti_wait_seconds(" 90", &mut opt).is_some());
    assert!(apply_ti_wait_seconds("", &mut opt).is_some());
    assert!(apply_ti_wait_seconds("-", &mut opt).is_some());
    assert!(apply_ti_wait_seconds("99999999999999999999", &mut opt).is_some());
    assert_eq!(opt.ti_wait_seconds, 600);
    assert!(apply_ti_wait_seconds("+120", &mut opt).is_none());
    assert_eq!(opt.ti_wait_seconds, 120);
    assert!(apply_ti_wait_seconds("-5", &mut opt).is_none());
    assert_eq!(opt.ti_wait_seconds, 15);
    let opts = parse_args(&args(&["--ti-wait-seconds=600junk"]));
    assert_eq!(opts.ti_wait_seconds, 600);
    assert_eq!(opts.unknown_args.len(), 1);
}
