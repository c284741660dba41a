use rusty_butter_knife::actions::{
    convergence_wait_left, locker_stage_wanted, note_container, note_module, process_plan, schtasks_operation_args, service_stage_wanted,
    schtasks_query_args, service_dry_run_records, service_plan, split_lines, stop_service_record,
    task_names_from_schtasks_csv, task_operation, task_plan, TargetPlan, TaskOperation,
};
use rusty_butter_knife::app::{lex_less, validated_abort_event, EnabledMap};
use rusty_butter_knife::fsutil::{attrs_are_reparse, kind_from_metadata, PathKind};
use rusty_butter_knife::json::{json_find_int_field, json_find_string_field};
use rusty_butter_knife::inspection::{inspect_sightings, ProcessModules};
use rusty_butter_knife::launch::status_json;
use rusty_butter_knife::logging::{
    abort_in_effect, command_result, console_text, dry_run_command_line, strip_line_end,
    action_message, action_record, color_for_level, log_line_text, COLOR_CYAN, COLOR_RED,
    COLOR_WHITE, COLOR_YELLOW,
};
use rusty_butter_knife::sysinfo::{is_trusted_installer, run_log_layout, system_dir_file};
use rusty_butter_knife::matching::is_nvidia_context_string;
use rusty_butter_knife::text::{char_is_whitespace, to_lower};
use rusty_butter_knife::types::{ProcessEntry, RunState, ServiceEntry, StopOutcome};
use rusty_butter_knife::util::{
    atoi_prefix, contains_no_case, ends_with_no_case, i64_to_decimal, join_command, json_escape,
    parse_csv_line, push_decimal, push_hex, quote_arg, trim, wildcard_match_no_case,
};
use rusty_butter_knife::winfmt::{decode_process_output, format_win_error, log_time_stamp, now_stamp};

fn strings(v: &[&str]) -> Vec<String> {
    v.iter().map(|s| s.to_string()).collect()
}

fn enabled_with(keys: &[&str]) -> EnabledMap {
    let mut m = EnabledMap::new();
    for k in keys {
        m.insert(k, true);
    }
    m
}

#[test]
fn text_helpers() {
    assert_eq!(to_lower("ÄBC Def"), "äbc def");
    assert!(contains_no_case("Hello World", "WORLD"));
    assert!(!contains_no_case("Hello", "world"));
    assert!(ends_with_no_case("File.LOG", ".log"));
    assert!(!ends_with_no_case("log", "file.log"));
    assert_eq!(trim(" \t x y \r\n"), "x y");
    assert_eq!(trim("\u{a0}x"), "\u{a0}x");
    assert!(wildcard_match_no_case("NvTelemetryContainer.exe", "*telemetry*"));
    assert!(wildcard_match_no_case("abc", "a?c"));
    assert!(!wildcard_match_no_case("abc", "a?d"));
    assert!(wildcard_match_no_case("", "*"));
    // Token boundaries follow the Unicode alphanumeric property.
    assert!(is_nvidia_context_string("nv-tool"));
    assert!(is_nvidia_context_string("nv7x"));
    assert!(!is_nvidia_context_string("nvé"));
    assert!(is_nvidia_context_string("nv\u{3000}é"));
    assert!(!is_nvidia_context_string("Inventory"));
    assert!(char_is_whitespace(' '));
    assert!(char_is_whitespace('\u{3000}'));
    assert!(!char_is_whitespace('x'));
}

#[test]
fn command_line_quoting() {
    assert_eq!(quote_arg("a b"), "\"a b\"");
    assert_eq!(quote_arg("a\\\"b"), "\"a\\\\\\\"b\"");
    assert_eq!(quote_arg("C:\\dir\\"), "\"C:\\dir\\\\\"");
    assert_eq!(quote_arg(""), "\"\"");
    assert_eq!(
        join_command(&strings(&["schtasks", "/TN", "\\NVIDIA\\Task one", ""])),
        "schtasks /TN \"\\NVIDIA\\Task one\" \"\""
    );
    assert_eq!(join_command(&strings(&["a&b", "c"])), "\"a&b\" c");
    assert_eq!(join_command(&[]), "");
}

#[test]
fn json_and_number_helpers() {
    assert_eq!(json_escape("a\"b\\c\n\u{1}\u{8}\u{c}\t\r"), "a\\\"b\\\\c\\n\\u0001\\b\\f\\t\\r");
    assert_eq!(atoi_prefix("  42abc"), 42);
    assert_eq!(atoi_prefix("-7"), -7);
    assert_eq!(atoi_prefix("+5"), 5);
    assert_eq!(atoi_prefix("abc"), 0);
    assert_eq!(atoi_prefix("99999999999"), 2147483647);
    assert_eq!(atoi_prefix("-99999999999"), -2147483648);
    assert_eq!(parse_csv_line("\"a\",\"b,c\",\"d\"\"e\""), strings(&["a", "b,c", "d\"e"]));
    assert_eq!(parse_csv_line("x,,y"), strings(&["x", "", "y"]));
    assert_eq!(parse_csv_line(""), strings(&[""]));
    let mut s = String::from("n=");
    push_decimal(&mut s, 1234567890123);
    assert_eq!(s, "n=1234567890123");
    let mut h = String::new();
    push_hex(&mut h, 0x80070005);
    assert_eq!(h, "80070005");
    let mut z = String::new();
    push_hex(&mut z, 0);
    assert_eq!(z, "0");
    assert_eq!(i64_to_decimal(i64::MIN), "-9223372036854775808");
    assert_eq!(i64_to_decimal(0), "0");
}

#[test]
fn json_field_readers() {
    let doc = "{\n  \"status\": \"ok\\n\\u0041\\/\",\n  \"exitCode\": -12,\n  \"n\": {\"status\": 1}\n}";
    assert_eq!(json_find_string_field(doc, "status"), "ok\nA/");
    assert_eq!(json_find_string_field(doc, "missing"), "");
    assert_eq!(json_find_string_field("{\"a\": 1, \"b\": {\"a\": \"x\"}}", "a"), "x");
    assert_eq!(json_find_string_field("{\"a\": \"\\u+041\"}", "a"), "A");
    assert_eq!(json_find_string_field("{\"a\": \"\\ud800z\"}", "a"), "z");
    assert_eq!(json_find_string_field("{\"a\": \"open", "a"), "open");
    assert_eq!(json_find_int_field(doc, "exitCode", 99), -12);
    assert_eq!(json_find_int_field(doc, "status", 99), 1);
    assert_eq!(json_find_int_field("{\"c\": 99999999999999999999}", "c", 7), 7);
    assert_eq!(json_find_int_field("{\"c\" 5}", "c", 7), 7);
    assert_eq!(json_find_int_field("{\"c\": -}", "c", 7), 7);
}

#[test]
fn stamps_and_error_texts() {
    assert_eq!(now_stamp((2024, 1, 2, 3, 4, 5)), "20240102-030405");
    assert_eq!(log_time_stamp((2024, 12, 31, 23, 59, 58)), "2024-12-31 23:59:58");
    assert_eq!(log_time_stamp((999, 1, 1, 0, 0, 0)), "0999-01-01 00:00:00");
    assert_eq!(format_win_error(5, Some("Access is denied.\r\n")), "0x00000005 Access is denied.");
    assert_eq!(format_win_error(0x80070005, None), "0x80070005");
    assert_eq!(format_win_error(2, Some(" \r\n")), "0x00000002");
    assert_eq!(format_win_error(0xABC, Some("x")), "0x00000ABC x");
}

#[test]
fn tool_output_decoding() {
    assert_eq!(decode_process_output(b""), Some(String::new()));
    assert_eq!(decode_process_output(b"TaskName\r\n"), Some("TaskName\r\n".to_string()));
    assert_eq!(decode_process_output("é".as_bytes()), Some("é".to_string()));
    assert_eq!(decode_process_output(&[0x82, 0x41]), None);
}

#[test]
fn log_line_formats_and_colors() {
    assert_eq!(color_for_level("ERROR"), COLOR_RED);
    assert_eq!(color_for_level("FATAL"), COLOR_RED);
    assert_eq!(color_for_level("WARN"), COLOR_YELLOW);
    assert_eq!(color_for_level("DRYRUN"), COLOR_CYAN);
    assert_eq!(color_for_level("INFO"), COLOR_WHITE);
    assert_eq!((COLOR_RED, COLOR_YELLOW, COLOR_CYAN, COLOR_WHITE), (0x0C, 0x0E, 0x0B, 0x07));
    assert_eq!(
        log_line_text("2024-01-02 03:04:05", "INFO", "hi"),
        "[2024-01-02 03:04:05] [INFO] hi\n"
    );
    assert_eq!(action_message("DeletePath", "Telemetry", "C:\\p", ""), "DeletePath [Telemetry] C:\\p");
    assert_eq!(
        action_message("DeletePath", "Telemetry", "C:\\p", "gone"),
        "DeletePath [Telemetry] C:\\p :: gone"
    );
    let r = action_record("K", "S", "C", "P", "D");
    assert_eq!((r.kind, r.status, r.component, r.path, r.detail), ("K".into(), "S".into(), "C".into(), "P".into(), "D".into()));
}

#[test]
fn identity_and_paths() {
    assert!(is_trusted_installer("NT SERVICE\\TrustedInstaller"));
    assert!(is_trusted_installer("nt service\\TRUSTEDINSTALLER"));
    assert!(!is_trusted_installer("NT AUTHORITY\\SYSTEM"));
    assert!(!is_trusted_installer("EVIL\\trustedinstaller-fake"));
    assert!(!is_trusted_installer("NT SERVICE\\TrustedInstaller2"));
    assert!(is_trusted_installer("S-1-5-80-956008885-3418522649-1831038044-1853292631-2271478464"));
    assert!(!is_trusted_installer("s-1-5-80-956008885-3418522649-1831038044-1853292631-2271478464x"));
    assert_eq!(
        system_dir_file(Some("C:\\Windows\\System32"), "schtasks.exe"),
        Some("C:\\Windows\\System32\\schtasks.exe".to_string())
    );
    assert_eq!(
        system_dir_file(Some("C:\\Windows\\System32\\"), "takeown.exe"),
        Some("C:\\Windows\\System32\\takeown.exe".to_string())
    );
    assert_eq!(system_dir_file(None, "icacls.exe"), None);
    assert_eq!(
        run_log_layout("C:\\tools\\rbk.exe", "", "", "20240102-030405"),
        ("C:\\tools".to_string(), "C:\\tools\\debloat-20240102-030405.log".to_string())
    );
    assert_eq!(
        run_log_layout("C:\\rbk.exe", "", "", "1"),
        ("C:\\".to_string(), "C:\\debloat-1.log".to_string())
    );
    assert_eq!(
        run_log_layout("C:\\tools\\rbk.exe", "D:\\logs", "", "1"),
        ("D:\\logs".to_string(), "D:\\logs\\debloat-1.log".to_string())
    );
    assert_eq!(
        run_log_layout("C:\\tools\\rbk.exe", "", "E:\\run.log", "1"),
        ("C:\\tools".to_string(), "E:\\run.log".to_string())
    );
}

#[test]
fn abort_event_names_and_key_order() {
    assert_eq!(
        validated_abort_event("Local\\RustyButterKnife_Abort_0a1B-2"),
        Some("Local\\RustyButterKnife_Abort_0a1B-2".to_string())
    );
    assert_eq!(validated_abort_event("Local\\RustyButterKnife_Abort_"), None);
    assert_eq!(validated_abort_event("Local\\RustyButterKnife_Abort_xyz"), None);
    assert_eq!(validated_abort_event("Global\\RustyButterKnife_Abort_12"), None);
    assert!(lex_less(&"ab".chars().collect(), &"b".chars().collect()));
    assert!(lex_less(&"a".chars().collect(), &"ab".chars().collect()));
    assert!(!lex_less(&"ab".chars().collect(), &"ab".chars().collect()));
    assert!(lex_less(&"B".chars().collect(), &"a".chars().collect()));

    let mut m = EnabledMap::new();
    m.insert("b", true);
    m.insert("a", false);
    m.insert("b", false);
    assert_eq!(m.len(), 2);
    assert_eq!(m.key_at(0), "a");
    assert_eq!(m.get("b"), Some(false));
    assert_eq!(m.get("c"), None);
}

#[test]
fn file_kinds_from_metadata() {
    assert!(attrs_are_reparse(0x400));
    assert!(attrs_are_reparse(0x410));
    assert!(!attrs_are_reparse(0x10));
    assert_eq!(kind_from_metadata(0x410, true), PathKind::Reparse);
    assert_eq!(kind_from_metadata(0x10, true), PathKind::Directory);
    assert_eq!(kind_from_metadata(0x20, false), PathKind::File);
}

#[test]
fn service_plans_and_stop_records() {
    let svc = ServiceEntry {
        name: "NvTelemetryContainer".to_string(),
        display: "NVIDIA Telemetry Container".to_string(),
    };
    let on = enabled_with(&["Telemetry"]);
    let (label, plan) = service_plan(&svc, &on, true, true, true, false, false);
    assert_eq!(label, "NvTelemetryContainer (NVIDIA Telemetry Container)");
    assert!(matches!(plan, TargetPlan::Act(ref k) if k == "Telemetry"));
    assert!(matches!(service_plan(&svc, &on, true, false, true, false, false).1, TargetPlan::DryRun(ref k) if k == "Telemetry"));
    assert!(matches!(service_plan(&svc, &EnabledMap::new(), true, true, true, false, false).1, TargetPlan::Skip(ref k) if k == "Telemetry"));
    let other = ServiceEntry { name: "Spooler".to_string(), display: "Print Spooler".to_string() };
    assert!(matches!(service_plan(&other, &on, true, true, true, false, false).1, TargetPlan::Ignore));

    assert_eq!(service_dry_run_records(true, false, true), strings(&["StopService", "DeleteService"]));
    assert!(service_dry_run_records(false, false, false).is_empty());

    assert_eq!(stop_service_record(&Ok(StopOutcome::Stopped), ""), ("INFO".into(), "Stopped".into()));
    assert_eq!(
        stop_service_record(&Ok(StopOutcome::AlreadyStopped), ""),
        ("INFO".into(), "Already stopped".into())
    );
    assert_eq!(
        stop_service_record(&Ok(StopOutcome::StopPendingTimeout), ""),
        ("WARN".into(), "Still stopping after 10000 ms; continuing".into())
    );
    assert_eq!(
        stop_service_record(&Ok(StopOutcome::QueryFailed(6)), "0x00000006 The handle is invalid."),
        ("WARN".into(), "Stop requested; status query failed: 0x00000006 The handle is invalid.".into())
    );
    assert_eq!(stop_service_record(&Err(1062), "x"), ("INFO".into(), "Not running".into()));
    assert_eq!(stop_service_record(&Err(5), "0x00000005 Access is denied."), ("WARN".into(), "0x00000005 Access is denied.".into()));
}

#[test]
fn scheduled_task_listing_and_commands() {
    assert_eq!(split_lines("a\r\nb\n\nc"), strings(&["a", "b", "", "c"]));
    assert_eq!(split_lines("a\n"), strings(&["a"]));
    assert!(split_lines("").is_empty());
    let out = "\"\\NVIDIA\\NvTmRep_CrashReport1\",\"N/A\",\"Ready\"\r\n\r\n  \r\n\"Folder: x\",\"\\NvDriverUpdateCheckDaily\",\"Ready\"\r\n\"plain\",\"N/A\"\r\n";
    assert_eq!(
        task_names_from_schtasks_csv(out),
        strings(&["\\NVIDIA\\NvTmRep_CrashReport1", "\\NvDriverUpdateCheckDaily", "plain"])
    );
    let on = enabled_with(&["Telemetry"]);
    assert!(matches!(task_plan("\\NvTmrep\\NVIDIA Telemetry Task", &on, true), TargetPlan::Act(ref k) if k == "Telemetry"));
    assert!(matches!(task_plan("\\NvTmrep\\NVIDIA Telemetry Task", &on, false), TargetPlan::DryRun(_)));
    assert!(matches!(task_plan("\\Inventory\\Scan", &on, true), TargetPlan::Ignore));

    assert_eq!(task_operation(true, true), Some(TaskOperation::Delete));
    assert_eq!(task_operation(false, true), Some(TaskOperation::Disable));
    assert_eq!(task_operation(false, false), None);
    assert_eq!(schtasks_query_args("S"), strings(&["S", "/Query", "/FO", "CSV", "/NH"]));
    assert_eq!(
        schtasks_operation_args("S", "\\T", &TaskOperation::Delete),
        strings(&["S", "/Delete", "/TN", "\\T", "/F"])
    );
    assert_eq!(
        schtasks_operation_args("S", "\\T", &TaskOperation::Disable),
        strings(&["S", "/Change", "/TN", "\\T", "/Disable"])
    );
}

#[test]
fn process_plans_and_container_sightings() {
    let on = enabled_with(&["Telemetry"]);
    let p = ProcessEntry { pid: 42, exe_name: "NvTelemetryContainer.exe".to_string() };
    assert!(matches!(process_plan(&p, &on, true, true, true), TargetPlan::Act(ref k) if k == "Telemetry"));
    assert!(matches!(process_plan(&p, &EnabledMap::new(), true, true, true), TargetPlan::Skip(_)));
    let q = ProcessEntry { pid: 1, exe_name: "explorer.exe".to_string() };
    assert!(matches!(process_plan(&q, &on, true, true, true), TargetPlan::Ignore));

    assert_eq!(convergence_wait_left(0), Some(3000));
    assert_eq!(convergence_wait_left(2999), Some(1));
    assert_eq!(convergence_wait_left(3000), None);

    let mut state = RunState::default();
    let c = ProcessEntry { pid: 7, exe_name: "NVDisplay.Container.exe".to_string() };
    assert_eq!(
        note_container(&mut state, &c),
        Some("Container running: PID=7 Name=NVDisplay.Container.exe".to_string())
    );
    assert_eq!(state.actions.len(), 1);
    assert_eq!(state.actions[0].kind, "ContainerProcess");
    assert_eq!(state.actions[0].detail, "PID=7");
    assert_eq!(note_container(&mut state, &c), None);
    assert_eq!(note_container(&mut state, &q), None);
    assert_eq!(state.actions.len(), 1);

    let m = note_module(&mut state, 7, "C:\\X\\_NvTelemetryPlugin.dll", false).unwrap();
    assert_eq!(m.level, "WARN");
    assert_eq!(
        m.message,
        "Container has matching module loaded; deletion may require reboot: PID=7 Module=C:\\X\\_NvTelemetryPlugin.dll"
    );
    assert_eq!(state.actions.len(), 2);
    assert_eq!(state.actions[1].kind, "LoadedTelemetryModule");
    assert!(note_module(&mut state, 7, "C:\\X\\_NvTelemetryPlugin.dll", false).is_none());
    let again = note_module(&mut state, 7, "C:\\X\\_NvTelemetryPlugin.dll", true).unwrap();
    assert_eq!(again.level, "INFO");
    assert_eq!(
        again.message,
        "Module still loaded after deletion (reboot will finalize): PID=7 Module=C:\\X\\_NvTelemetryPlugin.dll"
    );
    assert!(note_module(&mut state, 7, "C:\\X\\nvapi64.dll", true).is_none());
    assert_eq!(state.actions.len(), 2);
}

#[test]
fn unknown_targets_fail_closed() {
    let on = enabled_with(&["Telemetry", "UpdateAndProfileUpdater", "ShadowPlayShare"]);
    // A component term without any NVIDIA anchor is no target.
    let svc = ServiceEntry { name: "TelemetryHub".to_string(), display: "Contoso update agent".to_string() };
    assert!(matches!(service_plan(&svc, &on, true, true, true, false, false).1, TargetPlan::Ignore));
    // An NVIDIA name without a component term is no target either.
    let svc = ServiceEntry { name: "NVDisplay.ContainerLocalSystem".to_string(), display: "NVIDIA Display Container LS".to_string() };
    assert!(matches!(service_plan(&svc, &on, false, true, true, false, false).1, TargetPlan::Ignore));
    assert!(matches!(task_plan("\\Contoso\\Telemetry upload", &on, true), TargetPlan::Ignore));
    assert!(matches!(task_plan("\\NVIDIA\\Housekeeping", &on, true), TargetPlan::Ignore));
    // A basename merely containing a component term is not killable.
    let p = ProcessEntry { pid: 9, exe_name: "mytelemetrytool.exe".to_string() };
    assert!(matches!(process_plan(&p, &on, false, true, true), TargetPlan::Ignore));
    let p = ProcessEntry { pid: 9, exe_name: "NVIDIA Share.exe".to_string() };
    assert!(matches!(process_plan(&p, &on, false, true, true), TargetPlan::Act(ref k) if k == "ShadowPlayShare"));
}

#[test]
fn status_file_reads_back_status_and_exit_code() {
    let cases: [(i32, &str, &str); 5] = [
        (0, "ok", "20260101-120000"),
        (-2147483648, "failed", "\"status"),
        (13, "tab\there \"quoted\" \\ done", "x\"exitCode"),
        (2147483647, "", "\"status\": \"evil\""),
        (-1, "ünïcode: \u{1}", "\"exitCode\": 99"),
    ];
    for (code, status, run_id) in cases {
        let text = status_json(code, status, "detail \"d\"", run_id, "C:\\log \"x\".log");
        assert_eq!(json_find_string_field(&text, "status"), status, "{text}");
        assert_eq!(json_find_int_field(&text, "exitCode", 777), code as i64, "{text}");
    }
}

#[test]
fn console_text_turns_bare_line_feeds_into_crlf_once() {
    assert_eq!(console_text("a\nb"), "a\r\nb");
    assert_eq!(console_text("a\r\nb\n"), "a\r\nb\r\n");
    assert_eq!(console_text("\n\n"), "\r\n\r\n");
    assert_eq!(console_text("\r\r\n"), "\r\r\n");
    assert_eq!(console_text(""), "");
    let once = console_text("x\ny\r\nz\n\r\n");
    assert_eq!(console_text(&once), once);
    assert_eq!(strip_line_end("EXECUTE\r\n"), "EXECUTE");
    assert_eq!(strip_line_end("a\n\r\n"), "a");
    assert_eq!(strip_line_end(" a \r x"), " a \r x");
    assert_eq!(strip_line_end("\r\n"), "");
}

/// Splits a command line by the C runtime rules, for checking quoting.
fn split_command_line(t: &str) -> Vec<String> {
    let mut args = Vec::new();
    let mut cur = String::new();
    let (mut started, mut inq, mut bs) = (false, false, 0usize);
    for c in t.chars() {
        if c == '\\' {
            bs += 1;
            continue;
        }
        if c == '"' {
            cur.push_str(&"\\".repeat(bs / 2));
            if bs % 2 == 0 {
                inq = !inq;
            } else {
                cur.push('"');
            }
            started = true;
        } else if (c == ' ' || c == '\t') && !inq {
            cur.push_str(&"\\".repeat(bs));
            if started || bs > 0 {
                args.push(std::mem::take(&mut cur));
            }
            started = false;
        } else {
            cur.push_str(&"\\".repeat(bs));
            cur.push(c);
            started = true;
        }
        bs = 0;
    }
    if started || bs > 0 {
        cur.push_str(&"\\".repeat(bs));
        args.push(cur);
    }
    args
}

#[test]
fn quoted_arguments_split_back_to_themselves() {
    assert_eq!(quote_arg("a\"b\\"), "\"a\\\"b\\\\\"");
    for s in ["", "plain", "two words", "a\"b\\", "\\\\server\\share\\", "tab\there", "\\\"\\\\\"", "C:\\Program Files\\"] {
        assert_eq!(split_command_line(&quote_arg(s)), vec![s.to_string()], "{s}");
    }
    let args = vec!["C:\\x y\\a.exe".to_string(), "--log-file".to_string(), "C:\\l \"1\".log".to_string()];
    assert_eq!(split_command_line(&join_command(&args)), args);
}

#[test]
fn json_lookup_over_a_built_object() {
    for (k, s) in [("status", "ok"), ("k", "a \"q\" \\ \n\t\u{1}"), ("empty", ""), ("wéird", "ünï")] {
        let obj = format!("{{\"{k}\": \"{}\"}}", json_escape(s));
        assert_eq!(json_find_string_field(&obj, k), s);
    }
    assert_eq!(json_find_string_field("{\"a\": \"b\"}", "missing"), "");
}

#[test]
fn csv_quoted_fields_and_plain_splits_read_back() {
    let fields = vec!["a,b".to_string(), "say \"hi\"".to_string(), "".to_string(), "\"\"".to_string()];
    let line = fields
        .iter()
        .map(|f| format!("\"{}\"", f.replace('"', "\"\"")))
        .collect::<Vec<_>>()
        .join(",");
    assert_eq!(parse_csv_line(&line), fields);
    for line in ["", ",", "a,,b", "x y,z,", "single"] {
        let split: Vec<String> = line.split(',').map(String::from).collect();
        assert_eq!(parse_csv_line(line), split, "{line}");
    }
}

#[test]
fn stages_do_nothing_without_their_switches() {
    let on = enabled_with(&["Telemetry"]);
    let p = ProcessEntry { pid: 42, exe_name: "NvTelemetryContainer.exe".to_string() };
    assert!(matches!(process_plan(&p, &on, true, true, false), TargetPlan::Ignore));
    assert!(matches!(process_plan(&p, &on, true, false, false), TargetPlan::Ignore));
    let svc = ServiceEntry {
        name: "NvTelemetryContainer".to_string(),
        display: "NVIDIA Telemetry Container".to_string(),
    };
    assert!(matches!(service_plan(&svc, &on, true, true, false, false, false).1, TargetPlan::Ignore));
    assert!(matches!(service_plan(&svc, &on, true, true, false, true, false).1, TargetPlan::Act(_)));
    assert!(matches!(service_plan(&svc, &on, true, true, false, false, true).1, TargetPlan::Act(_)));
    let mut o = rusty_butter_knife::types::Options::default();
    o.kill_lockers = false;
    o.disable_services = false;
    o.delete_services = false;
    assert!(!locker_stage_wanted(&o) && !service_stage_wanted(&o));
    o.delete_services = true;
    assert!(!locker_stage_wanted(&o) && service_stage_wanted(&o));
    o.kill_lockers = true;
    assert!(locker_stage_wanted(&o));
}

#[test]
fn two_inspection_passes_record_each_sighting_once() {
    let pass = |modules: Result<Vec<String>, String>| {
        vec![
            ProcessModules {
                proc: ProcessEntry { pid: 7, exe_name: "NVDisplay.Container.exe".to_string() },
                modules,
            },
            ProcessModules {
                proc: ProcessEntry { pid: 7, exe_name: "NVDisplay.Container.exe".to_string() },
                modules: Ok(vec!["C:\\x\\_NvTelemetry64.dll".to_string()]),
            },
        ]
    };
    let mods = Ok(vec![
        "C:\\Windows\\System32\\kernel32.dll".to_string(),
        "C:\\x\\_NvTelemetry64.dll".to_string(),
    ]);
    let mut state = RunState::default();
    let first = inspect_sightings(&mut state, &pass(mods.clone()), false);
    assert_eq!(state.actions.len(), 2);
    assert_eq!(state.actions[0].kind, "ContainerProcess");
    assert_eq!(state.actions[1].kind, "LoadedTelemetryModule");
    assert_eq!(first.len(), 2);
    let second = inspect_sightings(&mut state, &pass(mods), true);
    assert_eq!(state.actions.len(), 2);
    assert_eq!(second.len(), 2);
    assert!(second.iter().all(|l| l.level == "INFO" && l.message.starts_with("Module still loaded")));
    let failed = inspect_sightings(&mut state, &pass(Err("0x00000005 Access is denied.".to_string())), false);
    assert_eq!(state.actions.len(), 2);
    assert_eq!(failed[0].message, "Module inspection failed for PID=7: 0x00000005 Access is denied.");
}

#[test]
fn external_command_lines_and_abort() {
    let l = dry_run_command_line(false, true, "takeown /F x").unwrap();
    assert_eq!((l.level.as_str(), l.message.as_str()), ("DRYRUN", "Would run: takeown /F x"));
    assert!(dry_run_command_line(true, true, "x").is_none());
    assert!(dry_run_command_line(false, false, "x").is_none());
    let l = command_result("takeown", 0, "  SUCCESS: done\r\n");
    assert_eq!((l.level.as_str(), l.message.as_str()), ("INFO", "takeown exit=0 output=SUCCESS: done"));
    let l = command_result("icacls", 5, " \r\n");
    assert_eq!((l.level.as_str(), l.message.as_str()), ("WARN", "icacls exit=5"));
    assert!(abort_in_effect(true, false) && abort_in_effect(false, true) && !abort_in_effect(false, false));
}
