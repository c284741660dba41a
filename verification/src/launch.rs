//! Decisions of the program's entry flow: early exits, the component
//! listing, the wizard preset, the bad-argument gate, the UAC handoff, the
//! single-instance gate, the TrustedInstaller preflight and its outcome,
//! the exit status file, and the final pause.

use vstd::prelude::*;
use crate::app::{
    EnabledMap, EXIT_ABORTED, EXIT_ALREADY_RUNNING, EXIT_BAD_ARGS, EXIT_OK, EXIT_TI_CHILD_FAILED,
    EXIT_TI_RELAUNCH_FAILED, GPD_VERSION, RBK_VERSION,
};
use crate::components::{build_components, catalog, component_views};
use crate::logging::LogLine;
use crate::tasksched::{child_switches, effective_child_switches, TiRelaunchResult};
use crate::text::{concat2, concat3, copy_string, views};
use crate::types::{ComponentView, Options, OptionsView};
use crate::util::{decimal, i64_to_decimal, json_escape, json_escape_seq};

verus! {

// ---------------------------------------------------------------------------
// Status file
// ---------------------------------------------------------------------------

/// Text of the status file a run leaves for the process that launched it.
/// Field names and layout are a contract across versions.
pub open spec fn status_json_spec(
    exit_code: i32,
    status: Seq<char>,
    detail: Seq<char>,
    run_id: Seq<char>,
    log_path: Seq<char>,
) -> Seq<char> {
    "{\n  \"version\": \""@ + GPD_VERSION@ + "\",\n  \"runId\": \""@ + json_escape_seq(run_id)
        + "\",\n  \"exitCode\": "@ + decimal(exit_code as int) + ",\n  \"status\": \""@
        + json_escape_seq(status) + "\",\n  \"detail\": \""@ + json_escape_seq(detail)
        + "\",\n  \"logPath\": \""@ + json_escape_seq(log_path) + "\"\n}\n"@
}

/// The status file text.
pub fn status_json(exit_code: i32, status: &str, detail: &str, run_id: &str, log_path: &str) -> (r:
    String)
    ensures
        r@ == status_json_spec(exit_code, status@, detail@, run_id@, log_path@),
{
    let a = concat3("{\n  \"version\": \"", GPD_VERSION, "\",\n  \"runId\": \"");
    let a = concat3(a.as_str(), json_escape(run_id).as_str(), "\",\n  \"exitCode\": ");
    let a = concat3(a.as_str(), i64_to_decimal(exit_code as i64).as_str(), ",\n  \"status\": \"");
    let a = concat3(a.as_str(), json_escape(status).as_str(), "\",\n  \"detail\": \"");
    let a = concat3(a.as_str(), json_escape(detail).as_str(), "\",\n  \"logPath\": \"");
    let a = concat3(a.as_str(), json_escape(log_path).as_str(), "\"\n}\n");
    assert(a@ =~= status_json_spec(exit_code, status@, detail@, run_id@, log_path@));
    a
}

/// Exit code, status word and detail written to the status file.
pub struct ExitStatus {
    pub exit_code: i32,
    pub status: String,
    pub detail: String,
}

fn exit_status(exit_code: i32, status: &str, detail: &str) -> (r: ExitStatus)
    ensures
        r.exit_code == exit_code,
        r.status@ == status@,
        r.detail@ == detail@,
{
    ExitStatus { exit_code, status: String::from_str(status), detail: String::from_str(detail) }
}

// ---------------------------------------------------------------------------
// Early exits and listing
// ---------------------------------------------------------------------------

/// The `--version` line.
pub fn version_line() -> (r: String)
    ensures
        r@ == "Rusty Butter Knife version "@ + RBK_VERSION@ + "\n"@,
{
    concat3("Rusty Butter Knife version ", RBK_VERSION, "\n")
}

/// One `--list-components` line: `[x] key` or `[ ] key`, then
/// ` (optional)` for optional components.
pub open spec fn listing_line(c: ComponentView, on: bool) -> Seq<char> {
    "["@ + (if on {
        "x"@
    } else {
        " "@
    }) + "] "@ + c.key + (if c.optional {
        " (optional)"@
    } else {
        Seq::empty()
    }) + "\n"@
}

/// The listing of the first `n` catalog components with their selection.
pub open spec fn component_listing(m: Map<Seq<char>, bool>, n: nat) -> Seq<char>
    decreases n,
{
    if n == 0 {
        Seq::empty()
    } else {
        let c = catalog()[n - 1];
        component_listing(m, (n - 1) as nat) + listing_line(c, crate::app::is_enabled(m, c.key))
    }
}

/// The `--list-components` output: every catalog component, in order.
pub fn list_components_text(enabled: &EnabledMap) -> (r: String)
    ensures
        r@ == component_listing(enabled@, catalog().len()),
{
    let comps = build_components();
    let ghost cs = component_views(comps@);
    let mut out = String::new();
    let mut i: usize = 0;
    while i < comps.len()
        invariant
            i <= comps.len(),
            cs == component_views(comps@),
            cs == catalog(),
            out@ == component_listing(enabled@, i as nat),
        decreases comps.len() - i,
    {
        let c = &comps[i];
        assert(cs[i as int] == c@);
        let on = match enabled.get(c.key.as_str()) {
            Some(v) => v,
            None => false,
        };
        let a = concat3(
            "[",
            if on {
                "x"
            } else {
                " "
            },
            "] ",
        );
        let b = concat3(
            a.as_str(),
            c.key.as_str(),
            if c.optional {
                " (optional)"
            } else {
                ""
            },
        );
        proof {
            reveal_strlit("");
        }
        let line = concat2(b.as_str(), "\n");
        assert(line@ =~= listing_line(c@, crate::app::is_enabled(enabled@, c@.key)));
        out = concat2(out.as_str(), line.as_str());
        i = i + 1;
    }
    out
}

/// A bare launch deselects the profile updater (it stays installed); other
/// launches keep the selection.
pub fn apply_wizard_defaults(opts: &Options, enabled: &mut EnabledMap)
    ensures
        final(enabled)@ == (if opts.wizard_defaults && old(enabled)@.dom().contains(
            "UpdateAndProfileUpdater"@,
        ) {
            old(enabled)@.insert("UpdateAndProfileUpdater"@, false)
        } else {
            old(enabled)@
        }),
{
    if opts.wizard_defaults {
        match enabled.get("UpdateAndProfileUpdater") {
            Some(_) => enabled.insert("UpdateAndProfileUpdater", false),
            None => {},
        }
    }
}

// ---------------------------------------------------------------------------
// Bad-argument gate
// ---------------------------------------------------------------------------

/// Log lines for the rejected arguments: errors in execute mode, warnings
/// otherwise.
pub open spec fn bad_arg_lines(unknown: Seq<Seq<char>>, execute: bool) -> Seq<(Seq<char>, Seq<char>)> {
    unknown.map_values(
        |b: Seq<char>|
            if execute {
                ("ERROR"@, "Invalid or unknown argument: "@ + b)
            } else {
                ("WARN"@, "Ignoring invalid or unknown argument: "@ + b)
            },
    )
}

/// Verdict of the bad-argument gate.
pub struct BadArgsGate {
    /// Lines to log, one per rejected argument.
    pub lines: Vec<LogLine>,
    /// Whether the run stops here (exit code 13) before any change.
    pub refuse: bool,
}

/// Execute mode refuses to run with any invalid or unknown argument; a dry
/// run only warns about them.
pub fn bad_args_gate(opts: &Options) -> (r: BadArgsGate)
    ensures
        r.refuse == (opts.execute && opts.unknown_args@.len() > 0),
        r.lines@.map_values(|l: LogLine| (l.level@, l.message@)) == bad_arg_lines(
            opts@.unknown_args,
            opts.execute,
        ),
{
    let mut lines: Vec<LogLine> = Vec::new();
    let mut i: usize = 0;
    while i < opts.unknown_args.len()
        invariant
            i <= opts.unknown_args.len(),
            lines@.map_values(|l: LogLine| (l.level@, l.message@)) == bad_arg_lines(
                opts@.unknown_args,
                opts.execute,
            ).take(i as int),
        decreases opts.unknown_args.len() - i,
    {
        let b = &opts.unknown_args[i];
        assert(opts@.unknown_args[i as int] == b@);
        let line = if opts.execute {
            LogLine {
                level: String::from_str("ERROR"),
                message: concat2("Invalid or unknown argument: ", b.as_str()),
            }
        } else {
            LogLine {
                level: String::from_str("WARN"),
                message: concat2("Ignoring invalid or unknown argument: ", b.as_str()),
            }
        };
        let ghost before = lines@.map_values(|l: LogLine| (l.level@, l.message@));
        let ghost lv = (line.level@, line.message@);
        lines.push(line);
        assert(lines@.map_values(|l: LogLine| (l.level@, l.message@)) =~= before.push(lv));
        assert(lines@.map_values(|l: LogLine| (l.level@, l.message@)) =~= bad_arg_lines(
            opts@.unknown_args,
            opts.execute,
        ).take(i + 1));
        i = i + 1;
    }
    assert(bad_arg_lines(opts@.unknown_args, opts.execute).take(opts.unknown_args.len() as int)
        =~= bad_arg_lines(opts@.unknown_args, opts.execute));
    BadArgsGate { lines, refuse: opts.execute && opts.unknown_args.len() > 0 }
}

/// Status written when the bad-argument gate refuses the run.
pub fn bad_args_status() -> (r: ExitStatus)
    ensures
        r.exit_code == EXIT_BAD_ARGS,
        r.status@ == "failed"@,
        r.detail@ == "invalid or unknown command-line arguments"@,
{
    exit_status(EXIT_BAD_ARGS, "failed", "invalid or unknown command-line arguments")
}

// ---------------------------------------------------------------------------
// UAC handoff
// ---------------------------------------------------------------------------

/// A confirmed bare-launch wizard in execute mode without administrator
/// (or TrustedInstaller) rights is handed to an elevated instance.
pub open spec fn uac_handoff(o: OptionsView, is_admin: bool, is_trusted_installer: bool) -> bool {
    o.wizard_defaults && o.execute && !o.ti_child && !is_admin && !is_trusted_installer
}

/// Whether to hand the run to an elevated instance via UAC.
pub fn uac_handoff_wanted(opts: &Options, is_admin: bool, is_trusted_installer: bool) -> (r: bool)
    ensures
        r == uac_handoff(opts@, is_admin, is_trusted_installer),
{
    opts.wizard_defaults && opts.execute && !opts.ti_child && !is_admin && !is_trusted_installer
}

/// Arguments of the elevated instance: the effective switches, then
/// `--no-menu --pause --log-file <log>`, `--status-file <file>` when one
/// was given, and `--abort-event <name>`.
pub open spec fn uac_args_spec(
    o: OptionsView,
    keys: Seq<Seq<char>>,
    vals: Seq<bool>,
    log_path: Seq<char>,
    abort_event: Seq<char>,
) -> Seq<Seq<char>> {
    child_switches(o, keys, vals) + seq!["--no-menu"@, "--pause"@, "--log-file"@, log_path] + (
    if o.status_file.len() > 0 {
        seq!["--status-file"@, o.status_file]
    } else {
        Seq::empty()
    }) + seq!["--abort-event"@, abort_event]
}

fn push_str(v: &mut Vec<String>, s: String)
    ensures
        views(final(v)@) == views(old(v)@).push(s@),
{
    let ghost before = views(v@);
    v.push(s);
    assert(views(v@) =~= before.push(s@));
}

/// The argument list handed to the elevated instance.
pub fn uac_args(opts: &Options, enabled: &EnabledMap, log_path: &str, abort_event: &str) -> (r: Vec<
    String,
>)
    ensures
        views(r@) == uac_args_spec(opts@, enabled.keys(), enabled.vals(), log_path@, abort_event@),
{
    let mut v = effective_child_switches(opts, enabled);
    let ghost a = views(v@);
    push_str(&mut v, String::from_str("--no-menu"));
    push_str(&mut v, String::from_str("--pause"));
    push_str(&mut v, String::from_str("--log-file"));
    push_str(&mut v, String::from_str(log_path));
    let ghost b = views(v@);
    assert(b =~= a + seq!["--no-menu"@, "--pause"@, "--log-file"@, log_path@]);
    if !opts.status_file.as_str().is_empty() {
        push_str(&mut v, String::from_str("--status-file"));
        push_str(&mut v, copy_string(&opts.status_file));
    }
    let ghost c = views(v@);
    push_str(&mut v, String::from_str("--abort-event"));
    push_str(&mut v, String::from_str(abort_event));
    assert(views(v@) =~= uac_args_spec(
        opts@,
        enabled.keys(),
        enabled.vals(),
        log_path@,
        abort_event@,
    ));
    v
}

// ---------------------------------------------------------------------------
// Single-instance gate
// ---------------------------------------------------------------------------

/// Only a destructive run of the parent process takes the single-instance
/// mutex.
pub fn single_instance_required(opts: &Options) -> (r: bool)
    ensures
        r == (opts.execute && !opts.ti_child),
{
    opts.execute && !opts.ti_child
}

/// Refusal of a destructive run when the single-instance mutex is not
/// ours: the log message and the status, or `None` when the run may go on.
pub fn single_instance_refusal(held: bool, existed: bool, error_text: &str) -> (r: Option<
    (String, ExitStatus),
>)
    ensures
        (r is Some) == (!held || existed),
        r matches Some((m, s)) ==> s.exit_code == EXIT_ALREADY_RUNNING && s.status@ == "failed"@ && (
        if !held {
            m@ == "Single-instance mutex unavailable: "@ + error_text@
                + "; refusing concurrent destructive run."@ && s.detail@
                == "single-instance execute-mode mutex unavailable"@
        } else {
            m@ == "Another execute-mode instance is already running; refusing concurrent destructive run."@
                && s.detail@ == "another execute-mode instance is running"@
        }),
{
    if !held {
        let m = concat3(
            "Single-instance mutex unavailable: ",
            error_text,
            "; refusing concurrent destructive run.",
        );
        Some(
            (
                m,
                exit_status(
                    EXIT_ALREADY_RUNNING,
                    "failed",
                    "single-instance execute-mode mutex unavailable",
                ),
            ),
        )
    } else if existed {
        Some(
            (
                String::from_str(
                    "Another execute-mode instance is already running; refusing concurrent destructive run.",
                ),
                exit_status(EXIT_ALREADY_RUNNING, "failed", "another execute-mode instance is running"),
            ),
        )
    } else {
        None
    }
}

// ---------------------------------------------------------------------------
// TrustedInstaller preflight
// ---------------------------------------------------------------------------

/// A destructive run of the parent outside TrustedInstaller, without the
/// administrator fallback, must go through the TrustedInstaller relaunch.
pub open spec fn ti_preflight(o: OptionsView, is_trusted_installer: bool) -> bool {
    o.execute && !o.ti_child && !o.allow_admin_fallback && !is_trusted_installer
}

/// Whether the TrustedInstaller preflight applies.
pub fn ti_preflight_needed(opts: &Options, is_trusted_installer: bool) -> (r: bool)
    ensures
        r == ti_preflight(opts@, is_trusted_installer),
{
    opts.execute && !opts.ti_child && !opts.allow_admin_fallback && !is_trusted_installer
}

/// What the parent does after the relaunch attempt.
pub enum TiOutcome {
    /// The run ends here with this log line (`None`: no line) and status.
    Exit(Option<LogLine>, ExitStatus),
    /// The administrator fallback lets the run continue here.
    Continue,
}

/// Outcome of the preflight: without the relaunch allowed the run fails;
/// a child that reported success ends the parent successfully, one that
/// reported failure fails it; a wait that ended on an abort (`res.aborted`),
/// or an abort requested in this process (`aborted`), ends as aborted; otherwise
/// the run fails unless the administrator fallback is allowed.
pub fn ti_outcome(opts: &Options, relaunch_allowed: bool, res: &TiRelaunchResult, aborted: bool) -> (r:
    TiOutcome)
    ensures
        !relaunch_allowed ==> (r matches TiOutcome::Exit(Some(l), s) && l.level@ == "FATAL"@
            && s.exit_code == EXIT_TI_RELAUNCH_FAILED && s.detail@
            == "TI relaunch disabled without admin fallback"@),
        relaunch_allowed && res.child_status_seen && res.child_succeeded ==> (
        r matches TiOutcome::Exit(Some(_), s) && s.exit_code == EXIT_OK && s.status@ == "ok"@
            && s.detail@ == "TI child completed"@),
        relaunch_allowed && res.child_status_seen && !res.child_succeeded ==> (
        r matches TiOutcome::Exit(Some(l), s) && l.level@ == "FATAL"@ && l.message@
            == "Elevated TI child reported failure: "@ + res.detail@ && s.exit_code
            == EXIT_TI_CHILD_FAILED && s.detail@ == "TI child failed: "@ + res.detail@),
        relaunch_allowed && !res.child_status_seen && (aborted || res.aborted) ==> (
        r matches TiOutcome::Exit(None, s) && s.exit_code == EXIT_ABORTED && s.status@
            == "aborted"@ && s.detail@ == res.detail@),
        relaunch_allowed && !res.child_status_seen && !(aborted || res.aborted) && !opts.allow_admin_fallback ==> (
        r matches TiOutcome::Exit(Some(l), s) && l.level@ == "FATAL"@ && l.message@ == (
        "TrustedInstaller relaunch failed"@ + (if res.detail@.len() == 0 {
            "."@
        } else {
            " ("@ + res.detail@ + ")"@
        }) + " and --allow-admin-fallback was not specified."@) && s.exit_code
            == EXIT_TI_RELAUNCH_FAILED && s.detail@ == "TrustedInstaller relaunch failed: "@
            + res.detail@),
        relaunch_allowed && !res.child_status_seen && !(aborted || res.aborted) && opts.allow_admin_fallback
            ==> r is Continue,
{
    if !relaunch_allowed {
        return TiOutcome::Exit(
            Some(
                LogLine {
                    level: String::from_str("FATAL"),
                    message: String::from_str(
                        "Destructive execution requires TrustedInstaller, but relaunch was disabled (--no-ti-relaunch) and --allow-admin-fallback was not specified.",
                    ),
                },
            ),
            exit_status(
                EXIT_TI_RELAUNCH_FAILED,
                "failed",
                "TI relaunch disabled without admin fallback",
            ),
        );
    }
    if res.child_status_seen && res.child_succeeded {
        return TiOutcome::Exit(
            Some(
                LogLine {
                    level: String::from_str("INFO"),
                    message: String::from_str(
                        "Parent process finished after TI child completion. Everything (including the worker's report) is in the shared run log.",
                    ),
                },
            ),
            exit_status(EXIT_OK, "ok", "TI child completed"),
        );
    }
    if res.child_status_seen {
        let detail = concat2("TI child failed: ", res.detail.as_str());
        return TiOutcome::Exit(
            Some(
                LogLine {
                    level: String::from_str("FATAL"),
                    message: concat2("Elevated TI child reported failure: ", res.detail.as_str()),
                },
            ),
            ExitStatus { exit_code: EXIT_TI_CHILD_FAILED, status: String::from_str("failed"), detail },
        );
    }
    if aborted || res.aborted {
        return TiOutcome::Exit(
            None,
            ExitStatus {
                exit_code: EXIT_ABORTED,
                status: String::from_str("aborted"),
                detail: copy_string(&res.detail),
            },
        );
    }
    if !opts.allow_admin_fallback {
        let suffix = if res.detail.as_str().is_empty() {
            String::from_str(".")
        } else {
            concat3(" (", res.detail.as_str(), ")")
        };
        let message = concat3(
            "TrustedInstaller relaunch failed",
            suffix.as_str(),
            " and --allow-admin-fallback was not specified.",
        );
        return TiOutcome::Exit(
            Some(LogLine { level: String::from_str("FATAL"), message }),
            ExitStatus {
                exit_code: EXIT_TI_RELAUNCH_FAILED,
                status: String::from_str("failed"),
                detail: concat2("TrustedInstaller relaunch failed: ", res.detail.as_str()),
            },
        );
    }
    TiOutcome::Continue
}

/// Status of a cleanup run that returned normally.
pub fn cleanup_status(aborted: bool) -> (r: ExitStatus)
    ensures
        aborted ==> r.exit_code == EXIT_ABORTED && r.status@ == "aborted"@ && r.detail@
            == "run aborted by user request"@,
        !aborted ==> r.exit_code == EXIT_OK && r.status@ == "ok"@ && r.detail@ == "completed"@,
{
    if aborted {
        exit_status(EXIT_ABORTED, "aborted", "run aborted by user request")
    } else {
        exit_status(EXIT_OK, "ok", "completed")
    }
}

// ---------------------------------------------------------------------------
// Final pause
// ---------------------------------------------------------------------------

/// Interactive runs (menu or `--pause`) wait for Enter before exiting,
/// unless `--no-pause`, the TrustedInstaller child, a quit from the menu,
/// or options never initialized (early exits) say otherwise.
pub open spec fn pause_wanted(initialized: bool, o: OptionsView, user_quit: bool) -> bool {
    initialized && !o.no_pause && !o.ti_child && !user_quit && (o.menu || o.pause_on_exit)
}

/// Whether to wait for Enter before exiting.
pub fn pause_on_exit_wanted(initialized: bool, opts: &Options, user_quit: bool) -> (r: bool)
    ensures
        r == pause_wanted(initialized, opts@, user_quit),
{
    initialized && !opts.no_pause && !opts.ti_child && !user_quit && (opts.menu
        || opts.pause_on_exit)
}

} // verus!
