//! Decisions behind the actions on the live system: which services,
//! scheduled tasks and processes are acted on, how a service is opened and
//! how its stop is reported, how task names are read from `schtasks`
//! output, and how container sightings are reported once.

use vstd::prelude::*;
use crate::app::EnabledMap;
use crate::logging::{add_action, LogLine};
use crate::matching::{
    is_preserved_container_name, module_is_telemetry_or_updater, process_action_decision,
    process_decision, service_action_decision, service_decision, task_action_decision,
    task_decision, ActionDecision, DecisionView,
};
use crate::targets::{
    explicitly_killable, has_strong_nvidia_named_target_context, process_name_is_explicitly_killable,
    strong_nvidia_context,
};
use crate::text::{chars_of, concat2, concat3, copy_string, push_char, starts_seq, views};
use crate::types::{ActionView, Options, ProcessEntry, RunState, ServiceEntry, StopOutcome};
use crate::util::{csv_fields, decimal_nat, parse_csv_line, push_decimal, trim, trim_seq};

verus! {

// ---------------------------------------------------------------------------
// Plans
// ---------------------------------------------------------------------------

/// What happens to one matched target.
pub ghost enum PlanView {
    /// Not a target at all.
    Ignore,
    /// Owned by a deselected component: recorded as skipped.
    Skip(Seq<char>),
    /// Dry run: recorded, not changed.
    DryRun(Seq<char>),
    /// Changed, on behalf of this component.
    Act(Seq<char>),
}

/// Executable form of [`PlanView`]; the string is the owning component's key.
pub enum TargetPlan {
    Ignore,
    Skip(String),
    DryRun(String),
    Act(String),
}

impl View for TargetPlan {
    type V = PlanView;

    open spec fn view(&self) -> PlanView {
        match self {
            TargetPlan::Ignore => PlanView::Ignore,
            TargetPlan::Skip(k) => PlanView::Skip(k@),
            TargetPlan::DryRun(k) => PlanView::DryRun(k@),
            TargetPlan::Act(k) => PlanView::Act(k@),
        }
    }
}

/// Plan from a component decision: unmatched targets are ignored,
/// deselected ones skipped, allowed ones changed only in execute mode.
pub open spec fn plan_of(d: DecisionView, execute: bool) -> PlanView {
    match d {
        DecisionView::NotMatched => PlanView::Ignore,
        DecisionView::ComponentDisabled(c) => PlanView::Skip(c.key),
        DecisionView::Allowed(c) => if execute {
            PlanView::Act(c.key)
        } else {
            PlanView::DryRun(c.key)
        },
    }
}

fn plan_from(d: ActionDecision, execute: bool) -> (r: TargetPlan)
    ensures
        r@ == plan_of(d@, execute),
{
    match d {
        ActionDecision::NotMatched => TargetPlan::Ignore,
        ActionDecision::ComponentDisabled(c) => TargetPlan::Skip(c.key),
        ActionDecision::Allowed(c) => if execute {
            TargetPlan::Act(c.key)
        } else {
            TargetPlan::DryRun(c.key)
        },
    }
}

// ---------------------------------------------------------------------------
// Services
// ---------------------------------------------------------------------------

/// `name (display)`, the label under which a service is matched and logged.
pub open spec fn service_label(name: Seq<char>, display: Seq<char>) -> Seq<char> {
    name + " ("@ + display + ")"@
}

/// A service is a target only with a strong NVIDIA context in its label;
/// then its owning component decides.
pub open spec fn service_plan_spec(
    name: Seq<char>,
    display: Seq<char>,
    m: Map<Seq<char>, bool>,
    preserve: bool,
    execute: bool,
) -> PlanView {
    if !strong_nvidia_context(service_label(name, display)) {
        PlanView::Ignore
    } else {
        plan_of(service_decision(name, display, m, preserve), execute)
    }
}

/// Whether the service stage runs at all: some service operation (stop
/// with `--kill-lockers`, disable, delete) was requested.
pub open spec fn service_stage_on(stop: bool, disable: bool, delete: bool) -> bool {
    stop || disable || delete
}

/// What happens to a service in the service stage: nothing when no service
/// operation was requested; otherwise as [`service_plan_spec`] decides.
pub open spec fn service_stage_plan(
    name: Seq<char>,
    display: Seq<char>,
    m: Map<Seq<char>, bool>,
    preserve: bool,
    execute: bool,
    stop: bool,
    disable: bool,
    delete: bool,
) -> PlanView {
    if !service_stage_on(stop, disable, delete) {
        PlanView::Ignore
    } else {
        service_plan_spec(name, display, m, preserve, execute)
    }
}

/// Whether the service stage runs: `--kill-lockers` (stop),
/// `--disable-services` or `--delete-services` was given.
pub fn service_stage_wanted(opts: &Options) -> (r: bool)
    ensures
        r == service_stage_on(opts.kill_lockers, opts.disable_services, opts.delete_services),
{
    opts.kill_lockers || opts.disable_services || opts.delete_services
}

/// The label of a service and what happens to it, for the requested
/// operations (`stop`, `disable`, `delete`).
pub fn service_plan(
    svc: &ServiceEntry,
    enabled: &EnabledMap,
    preserve: bool,
    execute: bool,
    stop: bool,
    disable: bool,
    delete: bool,
) -> (r: (String, TargetPlan))
    ensures
        r.0@ == service_label(svc.name@, svc.display@),
        r.1@ == service_stage_plan(svc.name@, svc.display@, enabled@, preserve, execute, stop, disable, delete),
{
    let a = concat3(svc.name.as_str(), " (", svc.display.as_str());
    let full = concat2(a.as_str(), ")");
    if !(stop || disable || delete) {
        return (full, TargetPlan::Ignore);
    }
    if !has_strong_nvidia_named_target_context(full.as_str()) {
        return (full, TargetPlan::Ignore);
    }
    let d = service_action_decision(svc.name.as_str(), svc.display.as_str(), enabled, preserve);
    (full, plan_from(d, execute))
}

/// `SERVICE_QUERY_STATUS` of windows-sys: the right to query a service's
/// status. Claimed: it is 4, as the crate's source defines it.
#[verifier::external_body]
fn service_query_status() -> (r: u32)
    ensures
        r == 4,
{
    windows_sys::Win32::System::Services::SERVICE_QUERY_STATUS
}

/// `SERVICE_STOP` of windows-sys: the right to stop a service. Claimed: it
/// is 32, as the crate's source defines it.
#[verifier::external_body]
fn service_stop_right() -> (r: u32)
    ensures
        r == 32,
{
    windows_sys::Win32::System::Services::SERVICE_STOP
}

/// `SERVICE_CHANGE_CONFIG` of windows-sys: the right to change a service's
/// configuration. Claimed: it is 2, as the crate's source defines it.
#[verifier::external_body]
fn service_change_config_right() -> (r: u32)
    ensures
        r == 2,
{
    windows_sys::Win32::System::Services::SERVICE_CHANGE_CONFIG
}

/// The standard `DELETE` access right (0x00010000) as it applies to a
/// service; the services module of windows-sys has no name of its own for it.
pub const SERVICE_DELETE_RIGHT: u32 = 0x0001_0000;

/// `DELETE` of windows-sys (the standard access right, defined under
/// `Storage::FileSystem`): the right to delete an object, a service
/// included. Claimed: it is 0x00010000, as the crate's source defines it.
#[verifier::external_body]
fn delete_right() -> (r: u32)
    ensures
        r == SERVICE_DELETE_RIGHT,
{
    windows_sys::Win32::Storage::FileSystem::DELETE
}

/// Access mask for opening a service: status queries always, and only the
/// rights the requested operations exercise.
pub open spec fn desired_access(stop_needed: bool, change_config_needed: bool, delete_needed: bool) -> u32 {
    4u32 | (if stop_needed {
        32u32
    } else {
        0u32
    }) | (if change_config_needed {
        2u32
    } else {
        0u32
    }) | (if delete_needed {
        SERVICE_DELETE_RIGHT
    } else {
        0u32
    })
}

/// The least-privilege access mask for the requested service operations.
pub fn desired_access_for_ops(stop_needed: bool, change_config_needed: bool, delete_needed: bool) -> (r:
    u32)
    ensures
        r == desired_access(stop_needed, change_config_needed, delete_needed),
{
    let mut mask = service_query_status();
    mask = mask | (if stop_needed {
        service_stop_right()
    } else {
        0u32
    });
    mask = mask | (if change_config_needed {
        service_change_config_right()
    } else {
        0u32
    });
    mask = mask | (if delete_needed {
        delete_right()
    } else {
        0u32
    });
    mask
}

/// Kinds of the dry-run records of a service, for the requested operations
/// in order: stop, disable, delete.
pub open spec fn service_dry_run_kinds(stop: bool, disable: bool, delete: bool) -> Seq<Seq<char>> {
    (if stop {
        seq!["StopService"@]
    } else {
        Seq::empty()
    }) + (if disable {
        seq!["DisableService"@]
    } else {
        Seq::empty()
    }) + (if delete {
        seq!["DeleteService"@]
    } else {
        Seq::empty()
    })
}

/// Kinds of the dry-run records of a service.
pub fn service_dry_run_records(stop: bool, disable: bool, delete: bool) -> (r: Vec<String>)
    ensures
        views(r@) == service_dry_run_kinds(stop, disable, delete),
{
    let mut v: Vec<String> = Vec::new();
    if stop {
        v.push(String::from_str("StopService"));
    }
    if disable {
        v.push(String::from_str("DisableService"));
    }
    if delete {
        v.push(String::from_str("DeleteService"));
    }
    assert(views(v@) =~= service_dry_run_kinds(stop, disable, delete));
    v
}

/// Wait bound of a stop request, in milliseconds.
pub const SERVICE_STOP_WAIT_MS: u32 = 10_000;

/// Win32 error of a stop request on a service that is not running.
pub const ERROR_SERVICE_NOT_ACTIVE: u32 = 1062;

/// Level and detail of a stop request's record. `error_text` is the
/// formatted text of the error involved (the status-query error, or the
/// stop request's own error).
pub open spec fn stop_record(
    stopped: Option<StopOutcome>,
    error: u32,
    error_text: Seq<char>,
) -> (Seq<char>, Seq<char>) {
    match stopped {
        Some(StopOutcome::Stopped) => ("INFO"@, "Stopped"@),
        Some(StopOutcome::AlreadyStopped) => ("INFO"@, "Already stopped"@),
        Some(StopOutcome::StopPendingTimeout) => (
            "WARN"@,
            "Still stopping after "@ + decimal_nat(SERVICE_STOP_WAIT_MS as nat) + " ms; continuing"@,
        ),
        Some(StopOutcome::QueryFailed(_)) => (
            "WARN"@,
            "Stop requested; status query failed: "@ + error_text,
        ),
        None => if error == ERROR_SERVICE_NOT_ACTIVE {
            ("INFO"@, "Not running"@)
        } else {
            ("WARN"@, error_text)
        },
    }
}

/// Level and detail of a stop request's record: the request's outcome, or
/// its Win32 error, with the formatted text of the error involved.
pub fn stop_service_record(result: &Result<StopOutcome, u32>, error_text: &str) -> (r: (String, String))
    ensures
        (r.0@, r.1@) == stop_record(
            match result {
                Ok(o) => Some(*o),
                Err(_) => None,
            },
            match result {
                Ok(_) => 0,
                Err(e) => *e,
            },
            error_text@,
        ),
{
    match result {
        Ok(StopOutcome::Stopped) => (String::from_str("INFO"), String::from_str("Stopped")),
        Ok(StopOutcome::AlreadyStopped) => (String::from_str("INFO"), String::from_str("Already stopped")),
        Ok(StopOutcome::StopPendingTimeout) => {
            let mut d = String::from_str("Still stopping after ");
            push_decimal(&mut d, SERVICE_STOP_WAIT_MS as u64);
            (String::from_str("WARN"), concat2(d.as_str(), " ms; continuing"))
        },
        Ok(StopOutcome::QueryFailed(_)) => (
            String::from_str("WARN"),
            concat2("Stop requested; status query failed: ", error_text),
        ),
        Err(e) => if *e == ERROR_SERVICE_NOT_ACTIVE {
            (String::from_str("INFO"), String::from_str("Not running"))
        } else {
            (String::from_str("WARN"), String::from_str(error_text))
        },
    }
}

// ---------------------------------------------------------------------------
// Scheduled tasks
// ---------------------------------------------------------------------------

/// Lines of `s` as `str::lines` yields them: split at `\n`, one `\r` before
/// a `\n` dropped, no final empty line after a trailing newline. `cur` is
/// the line read so far from index `i` on.
pub open spec fn lines_from(s: Seq<char>, i: int, cur: Seq<char>, acc: Seq<Seq<char>>) -> Seq<
    Seq<char>,
>
    decreases s.len() - i,
{
    if i < 0 || i >= s.len() {
        if cur.len() == 0 {
            acc
        } else {
            acc.push(cur)
        }
    } else if s[i] == '\n' {
        let line = if cur.len() > 0 && cur.last() == '\r' {
            cur.drop_last()
        } else {
            cur
        };
        lines_from(s, i + 1, Seq::empty(), acc.push(line))
    } else {
        lines_from(s, i + 1, cur.push(s[i]), acc)
    }
}

/// The lines of `s`.
pub open spec fn text_lines(s: Seq<char>) -> Seq<Seq<char>> {
    lines_from(s, 0, Seq::empty(), Seq::empty())
}

/// The lines of a text, as `str::lines` splits it.
pub fn split_lines(s: &str) -> (r: Vec<String>)
    ensures
        views(r@) == text_lines(s@),
{
    let c = chars_of(s);
    let mut out: Vec<String> = Vec::new();
    let mut cur = String::new();
    let mut i: usize = 0;
    assert(views(out@) =~= Seq::<Seq<char>>::empty());
    while i < c.len()
        invariant
            i <= c.len(),
            c@ == s@,
            text_lines(s@) == lines_from(c@, i as int, cur@, views(out@)),
        decreases c.len() - i,
    {
        if c[i] == '\n' {
            let cc = chars_of(cur.as_str());
            let line = if cc.len() > 0 && cc[cc.len() - 1] == '\r' {
                crate::text::string_of_range(&cc, 0, cc.len() - 1)
            } else {
                copy_string(&cur)
            };
            proof {
                if cc.len() > 0 && cc@.last() == '\r' {
                    assert(line@ =~= cur@.drop_last());
                }
            }
            let ghost before = views(out@);
            out.push(line);
            assert(views(out@) =~= before.push(line@));
            cur = String::new();
        } else {
            push_char(&mut cur, c[i]);
        }
        i = i + 1;
    }
    if !cur.as_str().is_empty() {
        let ghost before = views(out@);
        out.push(cur);
        assert(views(out@) =~= before.push(cur@));
    }
    out
}

/// Index of the first field starting with `\`, from `k` on, or -1.
pub open spec fn first_task_path(fields: Seq<Seq<char>>, k: int) -> int
    decreases fields.len() - k,
{
    if k < 0 || k >= fields.len() {
        -1
    } else if starts_seq(fields[k], "\\"@) {
        k
    } else {
        first_task_path(fields, k + 1)
    }
}

/// The task name of one CSV line: the first field that is a task path
/// (starts with `\`), else the first field.
pub open spec fn task_name_of(fields: Seq<Seq<char>>) -> Seq<char> {
    let k = first_task_path(fields, 0);
    if k >= 0 {
        fields[k]
    } else {
        fields[0]
    }
}

/// Task names of the first `n` lines of `schtasks /Query /FO CSV /NH`
/// output: each trimmed line that is not empty gives one name.
pub open spec fn task_names_from(lines: Seq<Seq<char>>, n: nat) -> Seq<Seq<char>>
    decreases n,
{
    if n == 0 {
        Seq::empty()
    } else {
        let rest = task_names_from(lines, (n - 1) as nat);
        let line = trim_seq(lines[n - 1]);
        if line.len() == 0 {
            rest
        } else {
            rest.push(task_name_of(csv_fields(line)))
        }
    }
}

fn task_name_exec(fields: &Vec<String>) -> (r: String)
    requires
        fields@.len() > 0,
    ensures
        r@ == task_name_of(views(fields@)),
{
    let ghost fv = views(fields@);
    let mut k: usize = 0;
    while k < fields.len()
        invariant
            k <= fields.len(),
            fv == views(fields@),
            first_task_path(fv, 0) == first_task_path(fv, k as int),
        decreases fields.len() - k,
    {
        let f = chars_of(fields[k].as_str());
        assert(fv[k as int] == fields@[k as int]@);
        if crate::text::starts_with_str(&f, "\\") {
            return copy_string(&fields[k]);
        }
        k = k + 1;
    }
    assert(fv[0] == fields@[0]@);
    copy_string(&fields[0])
}

proof fn lemma_csv_nonempty(s: Seq<char>, i: int, fields: Seq<Seq<char>>, cur: Seq<char>, inq: bool)
    ensures
        crate::util::csv_from(s, i, fields, cur, inq).len() > fields.len(),
    decreases s.len() - i,
{
    if i < s.len() {
        let c = s[i];
        if c == '"' {
            if inq && i + 1 < s.len() && s[i + 1] == '"' {
                lemma_csv_nonempty(s, i + 2, fields, cur.push('"'), inq);
            } else {
                lemma_csv_nonempty(s, i + 1, fields, cur, !inq);
            }
        } else if c == ',' && !inq {
            lemma_csv_nonempty(s, i + 1, fields.push(cur), Seq::empty(), inq);
        } else {
            lemma_csv_nonempty(s, i + 1, fields, cur.push(c), inq);
        }
    }
}

/// Task names in `schtasks /Query /FO CSV /NH` output, one per nonempty
/// line: the line's first field that is a task path, else its first field.
pub fn task_names_from_schtasks_csv(output: &str) -> (r: Vec<String>)
    ensures
        views(r@) == task_names_from(text_lines(output@), text_lines(output@).len()),
{
    let lines = split_lines(output);
    let ghost lv = views(lines@);
    let mut out: Vec<String> = Vec::new();
    let mut i: usize = 0;
    assert(views(out@) =~= Seq::<Seq<char>>::empty());
    while i < lines.len()
        invariant
            i <= lines.len(),
            lv == views(lines@),
            lv == text_lines(output@),
            views(out@) == task_names_from(lv, i as nat),
        decreases lines.len() - i,
    {
        let line = trim(lines[i].as_str());
        assert(lv[i as int] == lines@[i as int]@);
        if !line.as_str().is_empty() {
            let fields = parse_csv_line(line.as_str());
            proof {
                lemma_csv_nonempty(line@, 0, Seq::empty(), Seq::empty(), false);
            }
            assert(fields@.len() == views(fields@).len());
            let name = task_name_exec(&fields);
            let ghost before = views(out@);
            out.push(name);
            assert(views(out@) =~= before.push(name@));
        }
        i = i + 1;
    }
    out
}

/// A task is a target only with a strong NVIDIA context in its path; then
/// its owning component decides.
pub open spec fn task_plan_spec(task_name: Seq<char>, m: Map<Seq<char>, bool>, execute: bool) -> PlanView {
    if !strong_nvidia_context(task_name) {
        PlanView::Ignore
    } else {
        plan_of(task_decision(task_name, m), execute)
    }
}

/// What happens to one scheduled task.
pub fn task_plan(task_name: &str, enabled: &EnabledMap, execute: bool) -> (r: TargetPlan)
    ensures
        r@ == task_plan_spec(task_name@, enabled@, execute),
{
    if !has_strong_nvidia_named_target_context(task_name) {
        return TargetPlan::Ignore;
    }
    plan_from(task_action_decision(task_name, enabled), execute)
}

/// The change made to a matched task: deletion when requested, else
/// disabling when requested, else none.
#[derive(Debug, PartialEq, Eq, Structural)]
pub enum TaskOperation {
    Delete,
    Disable,
}

/// The task operation for the requested switches (deletion wins).
pub fn task_operation(delete_tasks: bool, disable_tasks: bool) -> (r: Option<TaskOperation>)
    ensures
        r == (if delete_tasks {
            Some(TaskOperation::Delete)
        } else if disable_tasks {
            Some(TaskOperation::Disable)
        } else {
            None
        }),
{
    if delete_tasks {
        Some(TaskOperation::Delete)
    } else if disable_tasks {
        Some(TaskOperation::Disable)
    } else {
        None
    }
}

/// `schtasks /Query /FO CSV /NH`, before quoting.
pub fn schtasks_query_args(schtasks: &str) -> (r: Vec<String>)
    ensures
        views(r@) == seq![schtasks@, "/Query"@, "/FO"@, "CSV"@, "/NH"@],
{
    let r = vec![
        String::from_str(schtasks),
        String::from_str("/Query"),
        String::from_str("/FO"),
        String::from_str("CSV"),
        String::from_str("/NH"),
    ];
    assert(views(r@) =~= seq![schtasks@, "/Query"@, "/FO"@, "CSV"@, "/NH"@]);
    r
}

/// `schtasks /Delete /TN <task> /F` or `schtasks /Change /TN <task>
/// /Disable`, before quoting.
pub fn schtasks_operation_args(schtasks: &str, task_name: &str, op: &TaskOperation) -> (r: Vec<String>)
    ensures
        views(r@) == match op {
            TaskOperation::Delete => seq![schtasks@, "/Delete"@, "/TN"@, task_name@, "/F"@],
            TaskOperation::Disable => seq![schtasks@, "/Change"@, "/TN"@, task_name@, "/Disable"@],
        },
{
    let r = match op {
        TaskOperation::Delete => vec![
            String::from_str(schtasks),
            String::from_str("/Delete"),
            String::from_str("/TN"),
            String::from_str(task_name),
            String::from_str("/F"),
        ],
        TaskOperation::Disable => vec![
            String::from_str(schtasks),
            String::from_str("/Change"),
            String::from_str("/TN"),
            String::from_str(task_name),
            String::from_str("/Disable"),
        ],
    };
    assert(views(r@) =~= match op {
        TaskOperation::Delete => seq![schtasks@, "/Delete"@, "/TN"@, task_name@, "/F"@],
        TaskOperation::Disable => seq![schtasks@, "/Change"@, "/TN"@, task_name@, "/Disable"@],
    });
    r
}

// ---------------------------------------------------------------------------
// Processes
// ---------------------------------------------------------------------------

/// A process is a target only under an explicitly killable name; then its
/// owning component decides.
pub open spec fn process_plan_spec(exe: Seq<char>, m: Map<Seq<char>, bool>, preserve: bool, execute: bool) -> PlanView {
    if !explicitly_killable(exe) {
        PlanView::Ignore
    } else {
        plan_of(process_decision(exe, m, preserve), execute)
    }
}

/// What happens to a running process in the locker stage: nothing without
/// `--kill-lockers`; otherwise as [`process_plan_spec`] decides.
pub open spec fn locker_plan(
    exe: Seq<char>,
    m: Map<Seq<char>, bool>,
    preserve: bool,
    execute: bool,
    kill_lockers: bool,
) -> PlanView {
    if !kill_lockers {
        PlanView::Ignore
    } else {
        process_plan_spec(exe, m, preserve, execute)
    }
}

/// Whether the locker stage runs: `--kill-lockers` was given.
pub fn locker_stage_wanted(opts: &Options) -> (r: bool)
    ensures
        r == opts.kill_lockers,
{
    opts.kill_lockers
}

/// What happens to one running process: never stopped without
/// `--kill-lockers`.
pub fn process_plan(
    proc: &ProcessEntry,
    enabled: &EnabledMap,
    preserve: bool,
    execute: bool,
    kill_lockers: bool,
) -> (r: TargetPlan)
    ensures
        r@ == locker_plan(proc.exe_name@, enabled@, preserve, execute, kill_lockers),
{
    if !kill_lockers {
        return TargetPlan::Ignore;
    }
    if !process_name_is_explicitly_killable(proc.exe_name.as_str()) {
        return TargetPlan::Ignore;
    }
    plan_from(process_action_decision(proc.exe_name.as_str(), enabled, preserve), execute)
}

/// Shared window in which terminated processes are awaited, in milliseconds.
pub const CONVERGENCE_MS: u32 = 3000;

/// Time left to wait for the next process after `elapsed_ms`, or `None`
/// once the shared window is used up.
pub fn convergence_wait_left(elapsed_ms: u32) -> (r: Option<u32>)
    ensures
        r == (if elapsed_ms >= CONVERGENCE_MS {
            None
        } else {
            Some((CONVERGENCE_MS - elapsed_ms) as u32)
        }),
{
    if elapsed_ms >= CONVERGENCE_MS {
        None
    } else {
        Some(CONVERGENCE_MS - elapsed_ms)
    }
}

// ---------------------------------------------------------------------------
// Container sightings
// ---------------------------------------------------------------------------

/// Everything of the run state but its actions and its container and module
/// sightings is the same in `a` and `b`.
pub open spec fn same_but_actions_and_sightings(a: RunState, b: RunState) -> bool {
    &&& b.exe_path == a.exe_path
    &&& b.exe_dir == a.exe_dir
    &&& b.run_id == a.run_id
    &&& b.log_path == a.log_path
    &&& b.candidates == a.candidates
    &&& b.aborted == a.aborted
    &&& b.post_run_check_done == a.post_run_check_done
    &&& b.paths_remaining_after_run == a.paths_remaining_after_run
    &&& b.paths_pending_reboot == a.paths_pending_reboot
    &&& b.history_scan_done == a.history_scan_done
    &&& b.history_log_files == a.history_log_files
    &&& b.history_runs == a.history_runs
    &&& b.history_candidates == a.history_candidates
    &&& b.reboot_scheduled_paths == a.reboot_scheduled_paths
}

/// `<pid>|<text>`, the key under which a sighting is remembered.
pub open spec fn sighting_key(pid: u32, text: Seq<char>) -> Seq<char> {
    decimal_nat(pid as nat) + "|"@ + text
}

fn pid_text(pid: u32) -> (r: String)
    ensures
        r@ == decimal_nat(pid as nat),
{
    let mut s = String::new();
    push_decimal(&mut s, pid as u64);
    assert(s@ =~= decimal_nat(pid as nat));
    s
}

/// Records a running preserved container the first time it is seen:
/// returns the log message then (and `None` for other processes or repeated
/// sightings), remembering the sighting and adding a `ContainerProcess`
/// record.
pub fn note_container(state: &mut RunState, proc: &ProcessEntry) -> (r: Option<String>)
    ensures
        final(state).reported_containers@ == (if crate::matching::preserved_container(
            proc.exe_name@,
        ) {
            old(state).reported_containers@.insert(sighting_key(proc.pid, proc.exe_name@))
        } else {
            old(state).reported_containers@
        }),
        (r is Some) == (crate::matching::preserved_container(proc.exe_name@)
            && !old(state).reported_containers@.contains(sighting_key(proc.pid, proc.exe_name@))),
        r is Some ==> r->0@ == "Container running: PID="@ + decimal_nat(proc.pid as nat) + " Name="@
            + proc.exe_name@,
        r is Some ==> final(state).actions@.len() == old(state).actions@.len() + 1
            && (forall|i: int| 0 <= i < old(state).actions@.len() ==> final(state).actions@[i] == old(state).actions@[i])
            && final(state).actions@.last()@ == (ActionView {
                kind: "ContainerProcess"@,
                status: "Running"@,
                component: "NvContainer"@,
                path: proc.exe_name@,
                detail: "PID="@ + decimal_nat(proc.pid as nat),
            }),
        r is None ==> final(state).actions@ == old(state).actions@,
        final(state).reported_modules == old(state).reported_modules,
        same_but_actions_and_sightings(*old(state), *final(state)),
{
    if !is_preserved_container_name(proc.exe_name.as_str()) {
        return None;
    }
    let pid = pid_text(proc.pid);
    let key = concat3(pid.as_str(), "|", proc.exe_name.as_str());
    let first = state.reported_containers.insert(key.as_str());
    if first {
        let detail = concat2("PID=", pid.as_str());
        add_action(
            state,
            "ContainerProcess",
            "Running",
            "NvContainer",
            proc.exe_name.as_str(),
            detail.as_str(),
        );
        let a = concat3("Container running: PID=", pid.as_str(), " Name=");
        Some(concat2(a.as_str(), proc.exe_name.as_str()))
    } else {
        None
    }
}

/// Records a loaded telemetry or updater module of a container: the first
/// sighting is a warning with a `LoadedTelemetryModule` record; a repeated
/// sighting in the phase after deletion is an informational note; anything
/// else yields nothing. Returns the level and message to log.
pub fn note_module(state: &mut RunState, pid: u32, path: &str, post_delete_phase: bool) -> (r: Option<
    LogLine,
>)
    ensures
        final(state).reported_modules@ == (if crate::matching::module_is_telemetry(path@) {
            old(state).reported_modules@.insert(sighting_key(pid, path@))
        } else {
            old(state).reported_modules@
        }),
        (r is Some && r->0.level@ == "WARN"@) == (crate::matching::module_is_telemetry(path@)
            && !old(state).reported_modules@.contains(sighting_key(pid, path@))),
        (r is Some && r->0.level@ == "INFO"@) == (crate::matching::module_is_telemetry(path@)
            && old(state).reported_modules@.contains(sighting_key(pid, path@))
            && post_delete_phase),
        r is Some ==> (r->0.level@ == "WARN"@ || r->0.level@ == "INFO"@) && r->0.message@ == (
        if r->0.level@ == "WARN"@ {
            "Container has matching module loaded; deletion may require reboot: PID="@
                + decimal_nat(pid as nat) + " Module="@ + path@
        } else {
            "Module still loaded after deletion (reboot will finalize): PID="@ + decimal_nat(
                pid as nat,
            ) + " Module="@ + path@
        }),
        r is Some && r->0.level@ == "WARN"@ ==> final(state).actions@.len() == old(state).actions@.len() + 1
            && (forall|i: int| 0 <= i < old(state).actions@.len() ==> final(state).actions@[i] == old(state).actions@[i])
            && final(state).actions@.last()@ == (ActionView {
                kind: "LoadedTelemetryModule"@,
                status: "Loaded"@,
                component: "NvContainer"@,
                path: path@,
                detail: "PID="@ + decimal_nat(pid as nat),
            }),
        !(r is Some && r->0.level@ == "WARN"@) ==> final(state).actions@ == old(state).actions@,
        final(state).reported_containers == old(state).reported_containers,
        same_but_actions_and_sightings(*old(state), *final(state)),
{
    proof {
        reveal_strlit("WARN");
        reveal_strlit("INFO");
        assert("INFO"@[0] != "WARN"@[0]);
        assert("INFO"@ != "WARN"@);
    }
    if !module_is_telemetry_or_updater(path) {
        return None;
    }
    let pid_s = pid_text(pid);
    let key = concat3(pid_s.as_str(), "|", path);
    assert(key@ == sighting_key(pid, path@));
    let first = state.reported_modules.insert(key.as_str());
    if first {
        let detail = concat2("PID=", pid_s.as_str());
        add_action(state, "LoadedTelemetryModule", "Loaded", "NvContainer", path, detail.as_str());
        let a = concat3(
            "Container has matching module loaded; deletion may require reboot: PID=",
            pid_s.as_str(),
            " Module=",
        );
        Some(LogLine { level: String::from_str("WARN"), message: concat2(a.as_str(), path) })
    } else if post_delete_phase {
        let a = concat3(
            "Module still loaded after deletion (reboot will finalize): PID=",
            pid_s.as_str(),
            " Module=",
        );
        Some(LogLine { level: String::from_str("INFO"), message: concat2(a.as_str(), path) })
    } else {
        None
    }
}

} // verus!
