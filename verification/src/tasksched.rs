//! TrustedInstaller scheduled-task relaunch: which switches the elevated
//! child receives, when a relaunch is attempted, how one poll of the task
//! is judged, and what the outcome records.

use vstd::prelude::*;
use crate::app::{EnabledMap, K_TI_TASK_PREFIX};
use crate::text::{chars_of, concat2, concat3, copy_string, ends_seq, lowercase, starts_seq, starts_with_str, views};
use crate::types::{Options, OptionsView};
use crate::util::{decimal, ends_with_no_case, hex_nat, i64_to_decimal, push_hex};

verus! {

// ---------------------------------------------------------------------------
// Switches forwarded to the elevated child
// ---------------------------------------------------------------------------

/// `s` alone when `b` holds, nothing otherwise.
pub open spec fn flag_if(b: bool, s: Seq<char>) -> Seq<Seq<char>> {
    if b {
        seq![s]
    } else {
        Seq::empty()
    }
}

/// The mode switch and the destructive choices.
pub open spec fn action_switches(o: OptionsView) -> Seq<Seq<char>> {
    seq![
        if o.execute {
            "--execute"@
        } else {
            "--dry-run"@
        },
    ] + flag_if(o.kill_lockers, "--kill-lockers"@) + flag_if(
        !o.preserve_nv_containers,
        "--preserve-nvcontainers=off"@,
    ) + flag_if(o.disable_services, "--disable-services"@) + flag_if(
        o.delete_services,
        "--delete-services"@,
    ) + flag_if(o.delete_scheduled_tasks, "--delete-scheduled-tasks"@) + flag_if(
        !o.disable_scheduled_tasks,
        "--no-disable-scheduled-tasks"@,
    ) + flag_if(o.schedule_locked_for_reboot, "--schedule-reboot-delete"@) + flag_if(
        o.take_ownership,
        "--take-ownership"@,
    )
}

/// The optional-component inclusions and the administrator fallback.
pub open spec fn inclusion_switches(o: OptionsView) -> Seq<Seq<char>> {
    flag_if(o.include_ngx, "--include-ngx"@) + flag_if(o.include_hd_audio, "--include-hdaudio"@)
        + flag_if(o.include_physx, "--include-physx"@) + flag_if(
        o.include_notebook_optimus,
        "--include-notebook-optimus"@,
    ) + flag_if(o.include_virtual_audio, "--include-virtual-audio"@) + flag_if(
        o.include_nvwmi,
        "--include-nvwmi"@,
    ) + flag_if(o.include_capture_sdk, "--include-capture-sdk"@) + flag_if(
        o.allow_admin_fallback,
        "--allow-admin-fallback"@,
    )
}

/// Switches that reproduce the effective options in the child: the mode,
/// every destructive or inclusion choice that differs from the default, and
/// the wait bound.
pub open spec fn option_switches(o: OptionsView) -> Seq<Seq<char>> {
    action_switches(o) + inclusion_switches(o) + seq![
        "--ti-wait-seconds="@ + decimal(o.ti_wait_seconds),
    ]
}

/// `--component=Key:on` or `--component=Key:off`.
pub open spec fn component_switch(key: Seq<char>, on: bool) -> Seq<char> {
    "--component="@ + key + ":"@ + (if on {
        "on"@
    } else {
        "off"@
    })
}

/// One `--component=` switch per selection entry, in key order.
pub open spec fn component_switches(keys: Seq<Seq<char>>, vals: Seq<bool>) -> Seq<Seq<char>> {
    Seq::new(keys.len(), |j: int| component_switch(keys[j], vals[j]))
}

/// Every switch forwarded to an elevated child.
pub open spec fn child_switches(o: OptionsView, keys: Seq<Seq<char>>, vals: Seq<bool>) -> Seq<
    Seq<char>,
> {
    option_switches(o) + component_switches(keys, vals)
}

fn push_if(out: &mut Vec<String>, b: bool, s: &str)
    ensures
        views(final(out)@) == views(old(out)@) + flag_if(b, s@),
{
    let ghost before = views(out@);
    if b {
        out.push(String::from_str(s));
        assert(views(out@) =~= before + flag_if(b, s@));
    } else {
        assert(views(out@) =~= before + flag_if(b, s@));
    }
}

fn push_string(out: &mut Vec<String>, s: String)
    ensures
        views(final(out)@) == views(old(out)@).push(s@),
{
    let ghost before = views(out@);
    out.push(s);
    assert(views(out@) =~= before.push(s@));
}

fn action_switches_exec(opts: &Options) -> (out: Vec<String>)
    ensures
        views(out@) == action_switches(opts@),
{
    let mut out: Vec<String> = Vec::new();
    if opts.execute {
        push_string(&mut out, String::from_str("--execute"));
    } else {
        push_string(&mut out, String::from_str("--dry-run"));
    }
    assert(views(out@) =~= seq![
        if opts.execute {
            "--execute"@
        } else {
            "--dry-run"@
        },
    ]);
    push_if(&mut out, opts.kill_lockers, "--kill-lockers");
    push_if(&mut out, !opts.preserve_nv_containers, "--preserve-nvcontainers=off");
    push_if(&mut out, opts.disable_services, "--disable-services");
    push_if(&mut out, opts.delete_services, "--delete-services");
    push_if(&mut out, opts.delete_scheduled_tasks, "--delete-scheduled-tasks");
    push_if(&mut out, !opts.disable_scheduled_tasks, "--no-disable-scheduled-tasks");
    push_if(&mut out, opts.schedule_locked_for_reboot, "--schedule-reboot-delete");
    push_if(&mut out, opts.take_ownership, "--take-ownership");
    out
}

fn inclusion_switches_exec(opts: &Options) -> (out: Vec<String>)
    ensures
        views(out@) == inclusion_switches(opts@),
{
    let mut out: Vec<String> = Vec::new();
    push_if(&mut out, opts.include_ngx, "--include-ngx");
    assert(views(out@) =~= flag_if(opts.include_ngx, "--include-ngx"@));
    push_if(&mut out, opts.include_hd_audio, "--include-hdaudio");
    push_if(&mut out, opts.include_physx, "--include-physx");
    push_if(&mut out, opts.include_notebook_optimus, "--include-notebook-optimus");
    push_if(&mut out, opts.include_virtual_audio, "--include-virtual-audio");
    push_if(&mut out, opts.include_nvwmi, "--include-nvwmi");
    push_if(&mut out, opts.include_capture_sdk, "--include-capture-sdk");
    push_if(&mut out, opts.allow_admin_fallback, "--allow-admin-fallback");
    out
}

fn append_strings(out: &mut Vec<String>, more: Vec<String>)
    ensures
        views(final(out)@) == views(old(out)@) + views(more@),
{
    let mut more = more;
    let ghost a = out@;
    let ghost b = more@;
    out.append(&mut more);
    assert(views(out@) =~= views(a) + views(b));
}

/// Switches of the options alone, in the fixed order of [`option_switches`].
fn option_switches_exec(opts: &Options) -> (out: Vec<String>)
    ensures
        views(out@) == option_switches(opts@),
{
    let mut out = action_switches_exec(opts);
    append_strings(&mut out, inclusion_switches_exec(opts));
    let n = i64_to_decimal(opts.ti_wait_seconds);
    let w = concat2("--ti-wait-seconds=", n.as_str());
    let ghost before = views(out@);
    push_string(&mut out, w);
    assert(views(out@) =~= before + seq![w@]);
    out
}

/// Effective-option switches forwarded to every elevated child: a bare
/// launch's presets and choices made in the interactive menu exist only in
/// this process, so they are spelled out instead of reusing the raw command
/// line. The component selection follows as one `--component=Key:on|off`
/// per entry, in key order.
pub fn effective_child_switches(opts: &Options, enabled: &EnabledMap) -> (out: Vec<String>)
    ensures
        views(out@) == child_switches(opts@, enabled.keys(), enabled.vals()),
{
    let mut out = option_switches_exec(opts);
    let ghost head = views(out@);
    let n = enabled.len();
    let ghost comps = component_switches(enabled.keys(), enabled.vals());
    let mut j: usize = 0;
    while j < n
        invariant
            j <= n,
            n == enabled.keys().len(),
            n == enabled.vals().len(),
            comps == component_switches(enabled.keys(), enabled.vals()),
            views(out@) == head + comps.take(j as int),
        decreases n - j,
    {
        let k = enabled.key_at(j);
        let v = enabled.value_at(j);
        let s1 = concat3("--component=", k.as_str(), ":");
        let s = if v {
            concat2(s1.as_str(), "on")
        } else {
            concat2(s1.as_str(), "off")
        };
        assert(s@ == component_switch(enabled.keys()[j as int], enabled.vals()[j as int]));
        push_string(&mut out, s);
        assert(comps.take(j + 1) =~= comps.take(j as int).push(s@));
        assert(views(out@) =~= head + comps.take(j + 1));
        j = j + 1;
    }
    assert(comps.take(n as int) =~= comps);
    out
}

/// Arguments of the TrustedInstaller child: the effective switches, then
/// `--ti-child --no-menu --log-file <log_path>` so every stage of a run
/// appends to one log file.
pub open spec fn ti_child_args_spec(
    o: OptionsView,
    keys: Seq<Seq<char>>,
    vals: Seq<bool>,
    log_path: Seq<char>,
) -> Seq<Seq<char>> {
    child_switches(o, keys, vals) + seq!["--ti-child"@, "--no-menu"@, "--log-file"@, log_path]
}

/// The argument list handed to the TrustedInstaller child.
pub fn ti_child_args(opts: &Options, enabled: &EnabledMap, log_path: &str) -> (r: Vec<String>)
    ensures
        views(r@) == ti_child_args_spec(opts@, enabled.keys(), enabled.vals(), log_path@),
{
    let mut out = effective_child_switches(opts, enabled);
    let ghost head = views(out@);
    push_string(&mut out, String::from_str("--ti-child"));
    push_string(&mut out, String::from_str("--no-menu"));
    push_string(&mut out, String::from_str("--log-file"));
    push_string(&mut out, String::from_str(log_path));
    assert(views(out@) =~= head + seq!["--ti-child"@, "--no-menu"@, "--log-file"@, log_path@]);
    out
}

/// Name of this process' relaunch task: the prefix and the process id.
pub fn ti_task_name(pid: u32) -> (r: String)
    ensures
        r@ == K_TI_TASK_PREFIX@ + decimal(pid as int),
{
    let n = i64_to_decimal(pid as i64);
    concat2(K_TI_TASK_PREFIX, n.as_str())
}

// ---------------------------------------------------------------------------
// When a relaunch is attempted
// ---------------------------------------------------------------------------

/// A relaunch is attempted for a destructive run of the parent process that
/// is not already TrustedInstaller, was not told to fall back to the
/// administrator, and did not disable the relaunch.
pub open spec fn relaunch_wanted(o: OptionsView, is_trusted_installer: bool) -> bool {
    o.execute && !o.ti_child && !o.allow_admin_fallback && !is_trusted_installer
        && o.attempt_ti_relaunch
}

/// Whether to attempt the TrustedInstaller relaunch.
pub fn should_attempt_ti_relaunch(opts: &Options, is_trusted_installer: bool) -> (r: bool)
    ensures
        r == relaunch_wanted(opts@, is_trusted_installer),
{
    if !opts.execute || opts.ti_child || opts.allow_admin_fallback || is_trusted_installer {
        return false;
    }
    if !opts.attempt_ti_relaunch {
        return false;
    }
    true
}

// ---------------------------------------------------------------------------
// Polling the task
// ---------------------------------------------------------------------------

/// Judgement of one poll of the relaunch task.
#[derive(Debug, PartialEq, Eq)]
pub enum PollDecision {
    /// Stay in the wait loop.
    KeepWaiting,
    /// The task left Running/Queued and carries a real exit code.
    Finished(i64),
    /// The start grace elapsed without the task ever starting.
    NeverStarted,
    /// An abort was requested while the child had not finished.
    Aborted,
    /// The wait bound elapsed while the child had not finished.
    TimedOut,
}

/// Task Scheduler's "task has not run yet" result.
pub const SCHED_S_TASK_HAS_NOT_RUN: i64 = 0x41303;

/// A running or queued task keeps the loop waiting; otherwise the last
/// result decides at once: a real exit code finishes, and "has not run" or
/// an unreadable result waits until the start grace has elapsed.
pub open spec fn poll_decision(
    state_running: bool,
    state_queued: bool,
    last_result: Option<i64>,
    waited_secs: i64,
    start_grace_secs: i64,
) -> PollDecision {
    if state_running || state_queued {
        PollDecision::KeepWaiting
    } else {
        match last_result {
            Some(code) if code != SCHED_S_TASK_HAS_NOT_RUN => PollDecision::Finished(code),
            _ => if waited_secs >= start_grace_secs {
                PollDecision::NeverStarted
            } else {
                PollDecision::KeepWaiting
            },
        }
    }
}

/// Judges one poll of the relaunch task. Whether the task was seen running
/// before does not change the judgement.
pub fn ti_poll_decision(
    saw_running_before: bool,
    state_running: bool,
    state_queued: bool,
    last_result: Option<i64>,
    waited_secs: i64,
    start_grace_secs: i64,
) -> (r: PollDecision)
    ensures
        r == poll_decision(state_running, state_queued, last_result, waited_secs, start_grace_secs),
{
    let _ = saw_running_before;
    if state_running {
        return PollDecision::KeepWaiting;
    }
    if state_queued {
        return PollDecision::KeepWaiting;
    }
    match last_result {
        Some(code) if code != SCHED_S_TASK_HAS_NOT_RUN => PollDecision::Finished(code),
        _ => {
            if waited_secs >= start_grace_secs {
                PollDecision::NeverStarted
            } else {
                PollDecision::KeepWaiting
            }
        },
    }
}

/// Judgement of one round of the relaunch wait, `waited_secs` into a wait
/// bounded by `wait_limit_secs`: within the bound the poll decides, and a
/// poll that would keep waiting ends as `Aborted` when an abort was
/// requested; at the bound the wait ends, as `Aborted` when an abort was
/// requested and as `TimedOut` otherwise. A child result seen in the same
/// round wins over the abort.
pub open spec fn wait_decision(
    abort_requested: bool,
    waited_secs: i64,
    wait_limit_secs: i64,
    state_running: bool,
    state_queued: bool,
    last_result: Option<i64>,
    start_grace_secs: i64,
) -> PollDecision {
    if waited_secs >= wait_limit_secs {
        if abort_requested {
            PollDecision::Aborted
        } else {
            PollDecision::TimedOut
        }
    } else {
        let p = poll_decision(state_running, state_queued, last_result, waited_secs, start_grace_secs);
        if p is KeepWaiting && abort_requested {
            PollDecision::Aborted
        } else {
            p
        }
    }
}

/// Judges one round of the relaunch wait: the task's state and last result
/// from this round's poll, whether an abort was requested, and how long
/// the parent has waited against its bound. The wait goes on only while
/// neither an abort nor the bound has ended it and the child has not
/// finished or failed to start.
pub fn ti_wait_decision(
    abort_requested: bool,
    waited_secs: i64,
    wait_limit_secs: i64,
    saw_running_before: bool,
    state_running: bool,
    state_queued: bool,
    last_result: Option<i64>,
    start_grace_secs: i64,
) -> (r: PollDecision)
    ensures
        r == wait_decision(
            abort_requested,
            waited_secs,
            wait_limit_secs,
            state_running,
            state_queued,
            last_result,
            start_grace_secs,
        ),
        abort_requested ==> !(r is KeepWaiting),
        waited_secs >= wait_limit_secs ==> !(r is KeepWaiting),
{
    if waited_secs >= wait_limit_secs {
        if abort_requested {
            return PollDecision::Aborted;
        }
        return PollDecision::TimedOut;
    }
    let p = ti_poll_decision(
        saw_running_before,
        state_running,
        state_queued,
        last_result,
        waited_secs,
        start_grace_secs,
    );
    match p {
        PollDecision::KeepWaiting => if abort_requested {
            PollDecision::Aborted
        } else {
            PollDecision::KeepWaiting
        },
        _ => p,
    }
}

// ---------------------------------------------------------------------------
// Outcome of a relaunch
// ---------------------------------------------------------------------------

/// What a relaunch attempt observed.
pub struct TiRelaunchResult {
    /// A relaunch flow was actually started.
    pub attempted: bool,
    /// The parent observed the child's completion.
    pub child_status_seen: bool,
    /// The wait ended on an abort request before the child finished.
    pub aborted: bool,
    pub child_succeeded: bool,
    pub child_exit_code: i64,
    pub detail: String,
}

impl TiRelaunchResult {
    /// No relaunch attempted: exit code `-1`, nothing seen.
    pub fn not_attempted() -> (r: TiRelaunchResult)
        ensures
            !r.attempted,
            !r.child_status_seen,
            !r.aborted,
            !r.child_succeeded,
            r.child_exit_code == -1,
            r.detail@ == Seq::<char>::empty(),
    {
        TiRelaunchResult {
            attempted: false,
            child_status_seen: false,
            aborted: false,
            child_succeeded: false,
            child_exit_code: -1,
            detail: String::new(),
        }
    }

    /// An attempt that stopped with `detail` before the child reported.
    pub fn failed(detail: &str) -> (r: TiRelaunchResult)
        ensures
            r.attempted,
            !r.child_status_seen,
            !r.aborted,
            !r.child_succeeded,
            r.child_exit_code == -1,
            r.detail@ == detail@,
    {
        TiRelaunchResult {
            attempted: true,
            child_status_seen: false,
            aborted: false,
            child_succeeded: false,
            child_exit_code: -1,
            detail: String::from_str(detail),
        }
    }

    /// The child finished with `exit_code`; it succeeded exactly when the
    /// code is 0. The detail shows the code in uppercase hexadecimal (of its
    /// 64-bit two's-complement form when negative).
    pub fn finished(exit_code: i64) -> (r: TiRelaunchResult)
        ensures
            r.attempted,
            r.child_status_seen,
            !r.aborted,
            r.child_exit_code == exit_code,
            r.child_succeeded == (exit_code == 0),
            r.detail@ == "TI child finished: exit=0x"@ + hex_nat((exit_code as u64) as nat),
    {
        let mut detail = String::from_str("TI child finished: exit=0x");
        push_hex(&mut detail, exit_code as u64);
        TiRelaunchResult {
            attempted: true,
            child_status_seen: true,
            aborted: false,
            child_succeeded: exit_code == 0,
            child_exit_code: exit_code,
            detail,
        }
    }

    /// The wait ended on an abort request before the child reported.
    pub fn aborted_wait() -> (r: TiRelaunchResult)
        ensures
            r.attempted,
            !r.child_status_seen,
            r.aborted,
            !r.child_succeeded,
            r.child_exit_code == -1,
            r.detail@ == "aborted by user request while waiting for TI child"@,
    {
        TiRelaunchResult {
            attempted: true,
            child_status_seen: false,
            aborted: true,
            child_succeeded: false,
            child_exit_code: -1,
            detail: String::from_str("aborted by user request while waiting for TI child"),
        }
    }
}

/// Outcome recorded for a poll decision that ends the wait, if it does.
pub fn ti_result_for(decision: &PollDecision) -> (r: Option<TiRelaunchResult>)
    ensures
        match decision {
            PollDecision::KeepWaiting => r is None,
            PollDecision::Finished(code) => r is Some && r->0.attempted && r->0.child_status_seen
                && !r->0.aborted && r->0.child_exit_code == *code && r->0.child_succeeded == (*code == 0)
                && r->0.detail@ == "TI child finished: exit=0x"@ + hex_nat((*code as u64) as nat),
            PollDecision::NeverStarted => r is Some && r->0.attempted && !r->0.child_status_seen
                && !r->0.aborted && !r->0.child_succeeded && r->0.child_exit_code == -1
                && r->0.detail@ == "task never started"@,
            PollDecision::Aborted => r is Some && r->0.attempted && !r->0.child_status_seen
                && r->0.aborted && !r->0.child_succeeded && r->0.child_exit_code == -1
                && r->0.detail@ == "aborted by user request while waiting for TI child"@,
            PollDecision::TimedOut => r is Some && r->0.attempted && !r->0.child_status_seen
                && !r->0.aborted && !r->0.child_succeeded && r->0.child_exit_code == -1
                && r->0.detail@ == "timed out waiting for child"@,
        },
{
    match decision {
        PollDecision::KeepWaiting => None,
        PollDecision::Finished(code) => Some(TiRelaunchResult::finished(*code)),
        PollDecision::NeverStarted => Some(TiRelaunchResult::failed("task never started")),
        PollDecision::Aborted => Some(TiRelaunchResult::aborted_wait()),
        PollDecision::TimedOut => Some(TiRelaunchResult::failed("timed out waiting for child")),
    }
}


/// Whether a scheduled task belongs to this tool's TrustedInstaller
/// relaunch: its name starts with the task prefix.
pub open spec fn ti_task_named(name: Seq<char>) -> bool {
    starts_seq(name, K_TI_TASK_PREFIX@)
}

/// Whether a task left behind by an earlier run is swept.
pub fn is_ti_task_name(name: &str) -> (r: bool)
    ensures
        r == ti_task_named(name@),
{
    starts_with_str(&chars_of(name), K_TI_TASK_PREFIX)
}

/// Whether a file beside the executable is a status file of an earlier
/// relaunch: the task prefix, and `-status.json` at the end in any case.
pub fn is_stale_ti_status_file(leaf: &str) -> (r: bool)
    ensures
        r == (ti_task_named(leaf@) && ends_seq(lowercase(leaf@), lowercase("-status.json"@))),
{
    is_ti_task_name(leaf) && ends_with_no_case(leaf, "-status.json")
}

} // verus!
