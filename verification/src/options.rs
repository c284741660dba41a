//! Command-line parsing: switches, strict boolean assignments, the
//! TrustedInstaller wait bound, and `--component=Key:on|off` selections.

use vstd::prelude::*;
use crate::text::{
    chars_of, concat2, concat3, copy_string, eq_chars, eq_str, is_digit, lower_chars, lowercase, starts_seq, string_of,
    starts_with_str, string_of_range, views,
};
use crate::types::{default_options_view, Options, OptionsView};
use crate::app::EnabledMap;
use crate::components::{build_components, catalog, component_views};
use crate::types::{Component, ComponentView};
use crate::json::{parse_i64, parse_i64_exec};

verus! {

// ---------------------------------------------------------------------------
// Strict boolean assignments
// ---------------------------------------------------------------------------

/// Outcome of reading `<flag>=<value>` for one flag.
#[derive(Debug, PartialEq, Eq)]
pub enum BoolAssign {
    /// The argument does not carry this flag's assignment at all.
    NotMine,
    /// Well-formed `<flag>=on|off|true|false|1|0|yes|no` (any case).
    Assigned(bool),
    /// `<flag>=<garbage>`: present but not a boolean word.
    Malformed(String),
}

/// Mathematical view of [`BoolAssign`].
pub ghost enum BoolAssignView {
    NotMine,
    Assigned(bool),
    Malformed(Seq<char>),
}

impl View for BoolAssign {
    type V = BoolAssignView;

    open spec fn view(&self) -> BoolAssignView {
        match self {
            BoolAssign::NotMine => BoolAssignView::NotMine,
            BoolAssign::Assigned(b) => BoolAssignView::Assigned(*b),
            BoolAssign::Malformed(s) => BoolAssignView::Malformed(s@),
        }
    }
}

/// `v` is a word for true: `true`, `1`, `yes`, `on`.
pub open spec fn true_word(v: Seq<char>) -> bool {
    v == "true"@ || v == "1"@ || v == "yes"@ || v == "on"@
}

/// `v` is a word for false: `false`, `0`, `no`, `off`.
pub open spec fn false_word(v: Seq<char>) -> bool {
    v == "false"@ || v == "0"@ || v == "no"@ || v == "off"@
}

/// Reading of `arg` as `<name>=<value>`, both compared in lowercase.
pub open spec fn bool_assignment(arg: Seq<char>, name: Seq<char>) -> BoolAssignView {
    let low = lowercase(arg);
    let prefix = lowercase(name) + seq!['='];
    if !starts_seq(low, prefix) {
        BoolAssignView::NotMine
    } else {
        let v = low.subrange(prefix.len() as int, low.len() as int);
        if true_word(v) {
            BoolAssignView::Assigned(true)
        } else if false_word(v) {
            BoolAssignView::Assigned(false)
        } else {
            BoolAssignView::Malformed(v)
        }
    }
}

/// Reads `arg` as a strict boolean assignment of the flag `name`:
/// recognized boolean words only, anything else is malformed.
pub fn parse_bool_assignment(arg: &str, name: &str) -> (r: BoolAssign)
    ensures
        r@ == bool_assignment(arg@, name@),
{
    let low = lower_chars(arg);
    let name_low = crate::text::to_lower(name);
    let prefix_s = concat2(name_low.as_str(), "=");
    proof {
        reveal_strlit("=");
    }
    let prefix = chars_of(prefix_s.as_str());
    assert(prefix@ =~= lowercase(name@) + seq!['=']);
    if !crate::text::starts_with_chars(&low, &prefix) {
        return BoolAssign::NotMine;
    }
    let vs = string_of_range(&low, prefix.len(), low.len());
    let v = chars_of(vs.as_str());
    if eq_str(&v, "true") || eq_str(&v, "1") || eq_str(&v, "yes") || eq_str(&v, "on") {
        BoolAssign::Assigned(true)
    } else if eq_str(&v, "false") || eq_str(&v, "0") || eq_str(&v, "no") || eq_str(&v, "off") {
        BoolAssign::Assigned(false)
    } else {
        BoolAssign::Malformed(vs)
    }
}

// ---------------------------------------------------------------------------
// TrustedInstaller wait bound
// ---------------------------------------------------------------------------

pub const TI_WAIT_MIN_SECS: i64 = 15;
/// The scheduled task itself self-limits at two hours; waiting longer cannot
/// observe a live child anymore.
pub const TI_WAIT_MAX_SECS: i64 = 7200;

/// `v` clamped to the allowed wait range.
pub open spec fn clamp_wait(v: int) -> int {
    if v < TI_WAIT_MIN_SECS {
        TI_WAIT_MIN_SECS as int
    } else if v > TI_WAIT_MAX_SECS {
        TI_WAIT_MAX_SECS as int
    } else {
        v
    }
}

/// Problem text for a wait value that is not an integer.
pub open spec fn ti_wait_problem(raw: Seq<char>) -> Seq<char> {
    "--ti-wait-seconds="@ + raw + " is not a number (allowed range 15..=7200)"@
}

/// Numeric reading of a wait value: the whole text must be an integer (an
/// optional sign, then only digits, within `i64`); anything else, such as
/// `abc1` or `600junk`, gives `None`.
pub fn seconds_value_or_none(s: &str) -> (r: Option<i64>)
    ensures
        match parse_i64(s@) {
            Some(v) => r is Some && r->0 as int == v,
            None => r is None,
        },
{
    let v = chars_of(s);
    proof {
        assert(v@.subrange(0, v@.len() as int) =~= s@);
    }
    parse_i64_exec(&v, 0, v.len())
}

/// Options after reading the wait value `raw`: a full-string integer sets
/// the wait (clamped to 15..=7200); any other value is recorded as a
/// problem and leaves the wait unchanged.
pub open spec fn apply_wait(raw: Seq<char>, o: OptionsView) -> OptionsView {
    match parse_i64(raw) {
        Some(v) => OptionsView { ti_wait_seconds: clamp_wait(v), ..o },
        None => OptionsView { unknown_args: o.unknown_args.push(ti_wait_problem(raw)), ..o },
    }
}

fn apply_wait_owned(raw: &str, opt: Options) -> (r: (Options, Option<String>))
    ensures
        parse_i64(raw@) is Some ==> (r.1 is None && r.0@ == apply_wait(raw@, opt@)),
        parse_i64(raw@) is None ==> (r.1 is Some && r.1->0@ == ti_wait_problem(raw@) && r.0@
            == opt@),
{
    let mut o = opt;
    match seconds_value_or_none(raw) {
        Some(v) => {
            let c = if v < TI_WAIT_MIN_SECS {
                TI_WAIT_MIN_SECS
            } else if v > TI_WAIT_MAX_SECS {
                TI_WAIT_MAX_SECS
            } else {
                v
            };
            o.ti_wait_seconds = c;
            (o, None)
        },
        None => {
            let p = concat3("--ti-wait-seconds=", raw, " is not a number (allowed range 15..=7200)");
            (o, Some(p))
        },
    }
}

/// Applies the wait value `raw` to `opt`: a full-string integer sets the
/// wait clamped to 15..=7200; any other value (`abc`, `abc1`, `600junk`)
/// leaves the options unchanged and returns the problem text.
pub fn apply_ti_wait_seconds(raw: &str, opt: &mut Options) -> (r: Option<String>)
    ensures
        parse_i64(raw@) is Some ==> (r is None && final(opt)@ == apply_wait(raw@, old(opt)@)),
        parse_i64(raw@) is None ==> (r is Some && r->0@ == ti_wait_problem(raw@) && final(opt)@
            == old(opt)@),
        parse_i64(raw@) is Some ==> (TI_WAIT_MIN_SECS <= final(opt).ti_wait_seconds
            <= TI_WAIT_MAX_SECS),
{
    let mut tmp = Options::default();
    std::mem::swap(opt, &mut tmp);
    let (o, problem) = apply_wait_owned(raw, tmp);
    *opt = o;
    problem
}

} // verus!

verus! {

// ---------------------------------------------------------------------------
// Argument parsing
// ---------------------------------------------------------------------------

/// A plain switch: an argument that sets one option by itself.
pub enum Switch {
    ShowHelp,
    ShowVersion,
    ListComponents,
    Menu,
    NoMenu,
    Execute,
    DryRun,
    AllowAdminFallback,
    NoTiRelaunch,
    TiChild,
    KillLockers,
    DisableServices,
    DeleteServices,
    DisableScheduledTasks,
    NoDisableScheduledTasks,
    DeleteScheduledTasks,
    ScheduleRebootDelete,
    TakeOwnership,
    IncludeNgx,
    IncludeHdAudio,
    IncludePhysx,
    IncludeNotebookOptimus,
    IncludeVirtualAudio,
    IncludeNvwmi,
    IncludeCaptureSdk,
    NoPause,
    Pause,
    NoColor,
}

/// The plain switch named by `low` (compared in lowercase), if any.
pub open spec fn switch_of(low: Seq<char>) -> Option<Switch> {
    if low == "--help"@ || low == "-h"@ || low == "/?"@ {
        Some(Switch::ShowHelp)
    } else if low == "--version"@ {
        Some(Switch::ShowVersion)
    } else if low == "--list-components"@ {
        Some(Switch::ListComponents)
    } else if low == "--menu"@ {
        Some(Switch::Menu)
    } else if low == "--no-menu"@ {
        Some(Switch::NoMenu)
    } else if low == "--execute"@ || low == "-execute"@ {
        Some(Switch::Execute)
    } else if low == "--dry-run"@ || low == "-dryrun"@ {
        Some(Switch::DryRun)
    } else if low == "--allow-admin-fallback"@ {
        Some(Switch::AllowAdminFallback)
    } else if low == "--no-ti-relaunch"@ {
        Some(Switch::NoTiRelaunch)
    } else if low == "--ti-child"@ {
        Some(Switch::TiChild)
    } else if low == "--kill-lockers"@ {
        Some(Switch::KillLockers)
    } else if low == "--disable-services"@ {
        Some(Switch::DisableServices)
    } else if low == "--delete-services"@ {
        Some(Switch::DeleteServices)
    } else if low == "--disable-scheduled-tasks"@ {
        Some(Switch::DisableScheduledTasks)
    } else if low == "--no-disable-scheduled-tasks"@ {
        Some(Switch::NoDisableScheduledTasks)
    } else if low == "--delete-scheduled-tasks"@ {
        Some(Switch::DeleteScheduledTasks)
    } else if low == "--schedule-reboot-delete"@ {
        Some(Switch::ScheduleRebootDelete)
    } else if low == "--take-ownership"@ {
        Some(Switch::TakeOwnership)
    } else if low == "--include-ngx"@ {
        Some(Switch::IncludeNgx)
    } else if low == "--include-hdaudio"@ {
        Some(Switch::IncludeHdAudio)
    } else if low == "--include-physx"@ {
        Some(Switch::IncludePhysx)
    } else if low == "--include-notebook-optimus"@ {
        Some(Switch::IncludeNotebookOptimus)
    } else if low == "--include-virtual-audio"@ {
        Some(Switch::IncludeVirtualAudio)
    } else if low == "--include-nvwmi"@ {
        Some(Switch::IncludeNvwmi)
    } else if low == "--include-capture-sdk"@ {
        Some(Switch::IncludeCaptureSdk)
    } else if low == "--no-pause"@ {
        Some(Switch::NoPause)
    } else if low == "--pause"@ {
        Some(Switch::Pause)
    } else if low == "--no-color"@ {
        Some(Switch::NoColor)
    } else {
        None
    }
}

/// Options after a plain switch.
pub open spec fn apply_switch(o: OptionsView, s: Switch) -> OptionsView {
    match s {
        Switch::ShowHelp => OptionsView { show_help: true, ..o },
        Switch::ShowVersion => OptionsView { show_version: true, ..o },
        Switch::ListComponents => OptionsView { list_components: true, ..o },
        Switch::Menu => OptionsView { menu: true, ..o },
        Switch::NoMenu => OptionsView { menu: false, ..o },
        Switch::Execute => OptionsView { execute: true, ..o },
        Switch::DryRun => OptionsView { execute: false, ..o },
        Switch::AllowAdminFallback => OptionsView { allow_admin_fallback: true, ..o },
        Switch::NoTiRelaunch => OptionsView { attempt_ti_relaunch: false, ..o },
        Switch::TiChild => OptionsView { ti_child: true, ..o },
        Switch::KillLockers => OptionsView { kill_lockers: true, ..o },
        Switch::DisableServices => OptionsView { disable_services: true, ..o },
        Switch::DeleteServices => OptionsView { delete_services: true, ..o },
        Switch::DisableScheduledTasks => OptionsView { disable_scheduled_tasks: true, ..o },
        Switch::NoDisableScheduledTasks => OptionsView { disable_scheduled_tasks: false, ..o },
        Switch::DeleteScheduledTasks => OptionsView { delete_scheduled_tasks: true, ..o },
        Switch::ScheduleRebootDelete => OptionsView { schedule_locked_for_reboot: true, ..o },
        Switch::TakeOwnership => OptionsView { take_ownership: true, ..o },
        Switch::IncludeNgx => OptionsView { include_ngx: true, ..o },
        Switch::IncludeHdAudio => OptionsView { include_hd_audio: true, ..o },
        Switch::IncludePhysx => OptionsView { include_physx: true, ..o },
        Switch::IncludeNotebookOptimus => OptionsView { include_notebook_optimus: true, ..o },
        Switch::IncludeVirtualAudio => OptionsView { include_virtual_audio: true, ..o },
        Switch::IncludeNvwmi => OptionsView { include_nvwmi: true, ..o },
        Switch::IncludeCaptureSdk => OptionsView { include_capture_sdk: true, ..o },
        Switch::NoPause => OptionsView { no_pause: true, ..o },
        Switch::Pause => OptionsView { pause_on_exit: true, ..o },
        Switch::NoColor => OptionsView { no_color: true, ..o },
    }
}

fn switch_of_exec(low: &Vec<char>) -> (r: Option<Switch>)
    ensures
        r == switch_of(low@),
{
    if eq_str(low, "--help") || eq_str(low, "-h") || eq_str(low, "/?") {
        Some(Switch::ShowHelp)
    } else if eq_str(low, "--version") {
        Some(Switch::ShowVersion)
    } else if eq_str(low, "--list-components") {
        Some(Switch::ListComponents)
    } else if eq_str(low, "--menu") {
        Some(Switch::Menu)
    } else if eq_str(low, "--no-menu") {
        Some(Switch::NoMenu)
    } else if eq_str(low, "--execute") || eq_str(low, "-execute") {
        Some(Switch::Execute)
    } else if eq_str(low, "--dry-run") || eq_str(low, "-dryrun") {
        Some(Switch::DryRun)
    } else if eq_str(low, "--allow-admin-fallback") {
        Some(Switch::AllowAdminFallback)
    } else if eq_str(low, "--no-ti-relaunch") {
        Some(Switch::NoTiRelaunch)
    } else if eq_str(low, "--ti-child") {
        Some(Switch::TiChild)
    } else if eq_str(low, "--kill-lockers") {
        Some(Switch::KillLockers)
    } else if eq_str(low, "--disable-services") {
        Some(Switch::DisableServices)
    } else if eq_str(low, "--delete-services") {
        Some(Switch::DeleteServices)
    } else if eq_str(low, "--disable-scheduled-tasks") {
        Some(Switch::DisableScheduledTasks)
    } else if eq_str(low, "--no-disable-scheduled-tasks") {
        Some(Switch::NoDisableScheduledTasks)
    } else if eq_str(low, "--delete-scheduled-tasks") {
        Some(Switch::DeleteScheduledTasks)
    } else if eq_str(low, "--schedule-reboot-delete") {
        Some(Switch::ScheduleRebootDelete)
    } else if eq_str(low, "--take-ownership") {
        Some(Switch::TakeOwnership)
    } else if eq_str(low, "--include-ngx") {
        Some(Switch::IncludeNgx)
    } else if eq_str(low, "--include-hdaudio") {
        Some(Switch::IncludeHdAudio)
    } else if eq_str(low, "--include-physx") {
        Some(Switch::IncludePhysx)
    } else if eq_str(low, "--include-notebook-optimus") {
        Some(Switch::IncludeNotebookOptimus)
    } else if eq_str(low, "--include-virtual-audio") {
        Some(Switch::IncludeVirtualAudio)
    } else if eq_str(low, "--include-nvwmi") {
        Some(Switch::IncludeNvwmi)
    } else if eq_str(low, "--include-capture-sdk") {
        Some(Switch::IncludeCaptureSdk)
    } else if eq_str(low, "--no-pause") {
        Some(Switch::NoPause)
    } else if eq_str(low, "--pause") {
        Some(Switch::Pause)
    } else if eq_str(low, "--no-color") {
        Some(Switch::NoColor)
    } else {
        None
    }
}

fn with_show_help(opt: Options, v: bool) -> (r: Options)
    ensures
        r@ == (OptionsView { show_help: v, ..opt@ }),
{
    Options { show_help: v, ..opt }
}

fn with_show_version(opt: Options, v: bool) -> (r: Options)
    ensures
        r@ == (OptionsView { show_version: v, ..opt@ }),
{
    Options { show_version: v, ..opt }
}

fn with_list_components(opt: Options, v: bool) -> (r: Options)
    ensures
        r@ == (OptionsView { list_components: v, ..opt@ }),
{
    Options { list_components: v, ..opt }
}

fn with_menu(opt: Options, v: bool) -> (r: Options)
    ensures
        r@ == (OptionsView { menu: v, ..opt@ }),
{
    Options { menu: v, ..opt }
}

fn with_execute(opt: Options, v: bool) -> (r: Options)
    ensures
        r@ == (OptionsView { execute: v, ..opt@ }),
{
    Options { execute: v, ..opt }
}

fn with_allow_admin_fallback(opt: Options, v: bool) -> (r: Options)
    ensures
        r@ == (OptionsView { allow_admin_fallback: v, ..opt@ }),
{
    Options { allow_admin_fallback: v, ..opt }
}

fn with_attempt_ti_relaunch(opt: Options, v: bool) -> (r: Options)
    ensures
        r@ == (OptionsView { attempt_ti_relaunch: v, ..opt@ }),
{
    Options { attempt_ti_relaunch: v, ..opt }
}

fn with_ti_child(opt: Options, v: bool) -> (r: Options)
    ensures
        r@ == (OptionsView { ti_child: v, ..opt@ }),
{
    Options { ti_child: v, ..opt }
}

fn with_kill_lockers(opt: Options, v: bool) -> (r: Options)
    ensures
        r@ == (OptionsView { kill_lockers: v, ..opt@ }),
{
    Options { kill_lockers: v, ..opt }
}

fn with_disable_services(opt: Options, v: bool) -> (r: Options)
    ensures
        r@ == (OptionsView { disable_services: v, ..opt@ }),
{
    Options { disable_services: v, ..opt }
}

fn with_delete_services(opt: Options, v: bool) -> (r: Options)
    ensures
        r@ == (OptionsView { delete_services: v, ..opt@ }),
{
    Options { delete_services: v, ..opt }
}

fn with_disable_scheduled_tasks(opt: Options, v: bool) -> (r: Options)
    ensures
        r@ == (OptionsView { disable_scheduled_tasks: v, ..opt@ }),
{
    Options { disable_scheduled_tasks: v, ..opt }
}

fn with_delete_scheduled_tasks(opt: Options, v: bool) -> (r: Options)
    ensures
        r@ == (OptionsView { delete_scheduled_tasks: v, ..opt@ }),
{
    Options { delete_scheduled_tasks: v, ..opt }
}

fn with_schedule_locked_for_reboot(opt: Options, v: bool) -> (r: Options)
    ensures
        r@ == (OptionsView { schedule_locked_for_reboot: v, ..opt@ }),
{
    Options { schedule_locked_for_reboot: v, ..opt }
}

fn with_take_ownership(opt: Options, v: bool) -> (r: Options)
    ensures
        r@ == (OptionsView { take_ownership: v, ..opt@ }),
{
    Options { take_ownership: v, ..opt }
}

fn with_include_ngx(opt: Options, v: bool) -> (r: Options)
    ensures
        r@ == (OptionsView { include_ngx: v, ..opt@ }),
{
    Options { include_ngx: v, ..opt }
}

fn with_include_hd_audio(opt: Options, v: bool) -> (r: Options)
    ensures
        r@ == (OptionsView { include_hd_audio: v, ..opt@ }),
{
    Options { include_hd_audio: v, ..opt }
}

fn with_include_physx(opt: Options, v: bool) -> (r: Options)
    ensures
        r@ == (OptionsView { include_physx: v, ..opt@ }),
{
    Options { include_physx: v, ..opt }
}

fn with_include_notebook_optimus(opt: Options, v: bool) -> (r: Options)
    ensures
        r@ == (OptionsView { include_notebook_optimus: v, ..opt@ }),
{
    Options { include_notebook_optimus: v, ..opt }
}

fn with_include_virtual_audio(opt: Options, v: bool) -> (r: Options)
    ensures
        r@ == (OptionsView { include_virtual_audio: v, ..opt@ }),
{
    Options { include_virtual_audio: v, ..opt }
}

fn with_include_nvwmi(opt: Options, v: bool) -> (r: Options)
    ensures
        r@ == (OptionsView { include_nvwmi: v, ..opt@ }),
{
    Options { include_nvwmi: v, ..opt }
}

fn with_include_capture_sdk(opt: Options, v: bool) -> (r: Options)
    ensures
        r@ == (OptionsView { include_capture_sdk: v, ..opt@ }),
{
    Options { include_capture_sdk: v, ..opt }
}

fn with_no_pause(opt: Options, v: bool) -> (r: Options)
    ensures
        r@ == (OptionsView { no_pause: v, ..opt@ }),
{
    Options { no_pause: v, ..opt }
}

fn with_pause_on_exit(opt: Options, v: bool) -> (r: Options)
    ensures
        r@ == (OptionsView { pause_on_exit: v, ..opt@ }),
{
    Options { pause_on_exit: v, ..opt }
}

fn with_no_color(opt: Options, v: bool) -> (r: Options)
    ensures
        r@ == (OptionsView { no_color: v, ..opt@ }),
{
    Options { no_color: v, ..opt }
}

fn with_preserve_nv_containers(opt: Options, v: bool) -> (r: Options)
    ensures
        r@ == (OptionsView { preserve_nv_containers: v, ..opt@ }),
{
    Options { preserve_nv_containers: v, ..opt }
}

#[verifier::rlimit(30)]
fn apply_switch_g0(opt: Options, s: Switch) -> (r: Options)
    requires
        s is ShowHelp || s is ShowVersion || s is ListComponents || s is Menu || s is NoMenu || s is Execute || s is DryRun,
    ensures
        r@ == apply_switch(opt@, s),
{
    match s {
        Switch::ShowHelp => with_show_help(opt, true),
        Switch::ShowVersion => with_show_version(opt, true),
        Switch::ListComponents => with_list_components(opt, true),
        Switch::Menu => with_menu(opt, true),
        Switch::NoMenu => with_menu(opt, false),
        Switch::Execute => with_execute(opt, true),
        Switch::DryRun => with_execute(opt, false),
        _ => opt,
    }
}

#[verifier::rlimit(30)]
fn apply_switch_g1(opt: Options, s: Switch) -> (r: Options)
    requires
        s is AllowAdminFallback || s is NoTiRelaunch || s is TiChild || s is KillLockers || s is DisableServices || s is DeleteServices || s is DisableScheduledTasks,
    ensures
        r@ == apply_switch(opt@, s),
{
    match s {
        Switch::AllowAdminFallback => with_allow_admin_fallback(opt, true),
        Switch::NoTiRelaunch => with_attempt_ti_relaunch(opt, false),
        Switch::TiChild => with_ti_child(opt, true),
        Switch::KillLockers => with_kill_lockers(opt, true),
        Switch::DisableServices => with_disable_services(opt, true),
        Switch::DeleteServices => with_delete_services(opt, true),
        Switch::DisableScheduledTasks => with_disable_scheduled_tasks(opt, true),
        _ => opt,
    }
}

#[verifier::rlimit(30)]
fn apply_switch_g2(opt: Options, s: Switch) -> (r: Options)
    requires
        s is NoDisableScheduledTasks || s is DeleteScheduledTasks || s is ScheduleRebootDelete || s is TakeOwnership || s is IncludeNgx || s is IncludeHdAudio || s is IncludePhysx,
    ensures
        r@ == apply_switch(opt@, s),
{
    match s {
        Switch::NoDisableScheduledTasks => with_disable_scheduled_tasks(opt, false),
        Switch::DeleteScheduledTasks => with_delete_scheduled_tasks(opt, true),
        Switch::ScheduleRebootDelete => with_schedule_locked_for_reboot(opt, true),
        Switch::TakeOwnership => with_take_ownership(opt, true),
        Switch::IncludeNgx => with_include_ngx(opt, true),
        Switch::IncludeHdAudio => with_include_hd_audio(opt, true),
        Switch::IncludePhysx => with_include_physx(opt, true),
        _ => opt,
    }
}

#[verifier::rlimit(30)]
fn apply_switch_g3(opt: Options, s: Switch) -> (r: Options)
    requires
        s is IncludeNotebookOptimus || s is IncludeVirtualAudio || s is IncludeNvwmi || s is IncludeCaptureSdk || s is NoPause || s is Pause || s is NoColor,
    ensures
        r@ == apply_switch(opt@, s),
{
    match s {
        Switch::IncludeNotebookOptimus => with_include_notebook_optimus(opt, true),
        Switch::IncludeVirtualAudio => with_include_virtual_audio(opt, true),
        Switch::IncludeNvwmi => with_include_nvwmi(opt, true),
        Switch::IncludeCaptureSdk => with_include_capture_sdk(opt, true),
        Switch::NoPause => with_no_pause(opt, true),
        Switch::Pause => with_pause_on_exit(opt, true),
        Switch::NoColor => with_no_color(opt, true),
        _ => opt,
    }
}
/// Applies one plain switch.
fn apply_switch_exec(opt: Options, s: Switch) -> (r: Options)
    ensures
        r@ == apply_switch(opt@, s),
{
    match s {
        Switch::ShowHelp | Switch::ShowVersion | Switch::ListComponents | Switch::Menu | Switch::NoMenu | Switch::Execute | Switch::DryRun => apply_switch_g0(opt, s),
        Switch::AllowAdminFallback | Switch::NoTiRelaunch | Switch::TiChild | Switch::KillLockers | Switch::DisableServices | Switch::DeleteServices | Switch::DisableScheduledTasks => apply_switch_g1(opt, s),
        Switch::NoDisableScheduledTasks | Switch::DeleteScheduledTasks | Switch::ScheduleRebootDelete | Switch::TakeOwnership | Switch::IncludeNgx | Switch::IncludeHdAudio | Switch::IncludePhysx => apply_switch_g2(opt, s),
        Switch::IncludeNotebookOptimus | Switch::IncludeVirtualAudio | Switch::IncludeNvwmi | Switch::IncludeCaptureSdk | Switch::NoPause | Switch::Pause | Switch::NoColor => apply_switch_g3(opt, s),
    }
}


fn with_status_file(opt: Options, v: String) -> (r: Options)
    ensures
        r@ == (OptionsView { status_file: v@, ..opt@ }),
{
    Options { status_file: v, ..opt }
}

fn with_log_dir_override(opt: Options, v: String) -> (r: Options)
    ensures
        r@ == (OptionsView { log_dir_override: v@, ..opt@ }),
{
    Options { log_dir_override: v, ..opt }
}

fn with_log_file_override(opt: Options, v: String) -> (r: Options)
    ensures
        r@ == (OptionsView { log_file_override: v@, ..opt@ }),
{
    Options { log_file_override: v, ..opt }
}

fn with_abort_event(opt: Options, v: String) -> (r: Options)
    ensures
        r@ == (OptionsView { abort_event: v@, ..opt@ }),
{
    Options { abort_event: v, ..opt }
}

/// Options with `problem` appended to the rejected arguments.
pub open spec fn with_problem(o: OptionsView, problem: Seq<char>) -> OptionsView {
    OptionsView { unknown_args: o.unknown_args.push(problem), ..o }
}

fn push_problem(opt: Options, problem: String) -> (r: Options)
    ensures
        r@ == with_problem(opt@, problem@),
{
    let mut o = opt;
    let ghost before = views(o.unknown_args@);
    o.unknown_args.push(problem);
    assert(views(o.unknown_args@) =~= before.push(problem@));
    o
}

/// Presets of a bare launch (no argument at all): the wizard opens in
/// execute mode with the recommended cleanup selected.
pub open spec fn bare_launch_view(o: OptionsView) -> OptionsView {
    OptionsView {
        menu: true,
        execute: true,
        kill_lockers: true,
        disable_services: true,
        delete_scheduled_tasks: true,
        schedule_locked_for_reboot: true,
        wizard_defaults: true,
        ..o
    }
}

fn bare_launch(opt: Options) -> (r: Options)
    ensures
        r@ == bare_launch_view(opt@),
{
    Options {
        menu: true,
        execute: true,
        kill_lockers: true,
        disable_services: true,
        delete_scheduled_tasks: true,
        schedule_locked_for_reboot: true,
        wizard_defaults: true,
        ..opt
    }
}

/// Flags that take the following argument as their value.
pub open spec fn value_flag(low: Seq<char>) -> bool {
    low == "--status-file"@ || low == "--log-dir"@ || low == "--ti-wait-seconds"@ || low
        == "--log-file"@ || low == "--abort-event"@
}

/// A value that itself looks like a flag: a dash followed by anything.
pub open spec fn flag_like(v: Seq<char>) -> bool {
    v.len() > 1 && v[0] == '-'
}

/// Problem text for a value flag whose value looks like another flag.
pub open spec fn missing_value_problem(a: Seq<char>, v: Seq<char>) -> Seq<char> {
    a + " is missing its value (found flag-like '"@ + v + "' instead)"@
}

/// What one argument does (with the argument after it, for a value flag).
pub ghost enum ArgActionView {
    Switch(Switch),
    Preserve(bool),
    BadValue(Seq<char>),
    MissingValue(Seq<char>),
    Wait(Seq<char>),
    StatusFile(Seq<char>),
    LogDir(Seq<char>),
    LogFile(Seq<char>),
    AbortEvent(Seq<char>),
    Component,
    Unknown(Seq<char>),
}

/// Whether the argument at `i` is a value flag that consumes the next one.
pub open spec fn takes_next(args: Seq<Seq<char>>, i: int) -> bool {
    let a = args[i];
    let low = lowercase(a);
    &&& switch_of(low) is None
    &&& bool_assignment(a, "--preserve-nvcontainers"@) is NotMine
    &&& low != "--preserve-nvcontainers"@
    &&& value_flag(low)
    &&& i + 1 < args.len()
}

/// Number of arguments read at `i`.
pub open spec fn arg_width(args: Seq<Seq<char>>, i: int) -> nat {
    if takes_next(args, i) {
        2
    } else {
        1
    }
}

/// The remainder of `a` after `prefix`, when `a` starts with it.
pub open spec fn after_prefix(a: Seq<char>, prefix: Seq<char>) -> Seq<char> {
    a.subrange(prefix.len() as int, a.len() as int)
}

/// The action of the argument at `i`, in the order the parser tries them:
/// plain switches (any case), the strict `--preserve-nvcontainers=<bool>`,
/// the bare `--preserve-nvcontainers`, value flags followed by a value,
/// `--flag=value` forms (exact case), `--component=` (any case, applied
/// later), and anything else is unknown.
pub open spec fn arg_action(args: Seq<Seq<char>>, i: int) -> ArgActionView {
    let a = args[i];
    let low = lowercase(a);
    let pre = bool_assignment(a, "--preserve-nvcontainers"@);
    if switch_of(low) is Some {
        ArgActionView::Switch(switch_of(low)->0)
    } else if pre is Assigned {
        ArgActionView::Preserve(pre->Assigned_0)
    } else if pre is Malformed {
        ArgActionView::BadValue(a)
    } else if low == "--preserve-nvcontainers"@ {
        ArgActionView::Preserve(true)
    } else if value_flag(low) && i + 1 < args.len() {
        let v = args[i + 1];
        if flag_like(v) {
            ArgActionView::MissingValue(missing_value_problem(a, v))
        } else if low == "--status-file"@ {
            ArgActionView::StatusFile(v)
        } else if low == "--log-dir"@ {
            ArgActionView::LogDir(v)
        } else if low == "--log-file"@ {
            ArgActionView::LogFile(v)
        } else if low == "--abort-event"@ {
            ArgActionView::AbortEvent(v)
        } else {
            ArgActionView::Wait(v)
        }
    } else if starts_seq(a, "--ti-wait-seconds="@) {
        ArgActionView::Wait(after_prefix(a, "--ti-wait-seconds="@))
    } else if starts_seq(a, "--status-file="@) {
        ArgActionView::StatusFile(after_prefix(a, "--status-file="@))
    } else if starts_seq(a, "--log-file="@) {
        ArgActionView::LogFile(after_prefix(a, "--log-file="@))
    } else if starts_seq(a, "--log-dir="@) {
        ArgActionView::LogDir(after_prefix(a, "--log-dir="@))
    } else if starts_seq(low, "--component="@) {
        ArgActionView::Component
    } else {
        ArgActionView::Unknown(a)
    }
}

/// Options after one action.
pub open spec fn apply_action(o: OptionsView, act: ArgActionView) -> OptionsView {
    match act {
        ArgActionView::Switch(s) => apply_switch(o, s),
        ArgActionView::Preserve(b) => OptionsView { preserve_nv_containers: b, ..o },
        ArgActionView::BadValue(a) => with_problem(o, a),
        ArgActionView::MissingValue(m) => with_problem(o, m),
        ArgActionView::Wait(raw) => apply_wait(raw, o),
        ArgActionView::StatusFile(v) => OptionsView { status_file: v, ..o },
        ArgActionView::LogDir(v) => OptionsView { log_dir_override: v, ..o },
        ArgActionView::LogFile(v) => OptionsView { log_file_override: v, ..o },
        ArgActionView::AbortEvent(v) => OptionsView { abort_event: v, ..o },
        ArgActionView::Component => o,
        ArgActionView::Unknown(a) => with_problem(o, a),
    }
}

/// The diagnostic line an action prints, if any.
pub open spec fn action_diagnostic(act: ArgActionView) -> Option<Seq<char>> {
    match act {
        ArgActionView::BadValue(a) => Some(
            "Invalid value in '"@ + a + "' (use on/off/true/false/1/0/yes/no)\n"@,
        ),
        ArgActionView::Unknown(a) => Some("Unknown option: "@ + a + "\n"@),
        _ => None,
    }
}

/// Options after reading `args` from index `i` on, starting from `o`.
pub open spec fn parse_from(args: Seq<Seq<char>>, i: nat, o: OptionsView) -> OptionsView
    decreases args.len() - i,
{
    if i >= args.len() {
        o
    } else {
        parse_from(args, i + arg_width(args, i as int), apply_action(o, arg_action(args, i as int)))
    }
}

/// Diagnostic lines printed while reading `args` from index `i` on.
pub open spec fn diagnostics_from(args: Seq<Seq<char>>, i: nat) -> Seq<Seq<char>>
    decreases args.len() - i,
{
    if i >= args.len() {
        Seq::empty()
    } else {
        let rest = diagnostics_from(args, i + arg_width(args, i as int));
        match action_diagnostic(arg_action(args, i as int)) {
            Some(d) => seq![d] + rest,
            None => rest,
        }
    }
}

/// Options before the first argument: the bare-launch presets when there is
/// no argument at all, the defaults otherwise.
pub open spec fn initial_options(n: nat) -> OptionsView {
    if n == 0 {
        bare_launch_view(default_options_view())
    } else {
        default_options_view()
    }
}

/// The options `args` select.
pub open spec fn parsed_options(args: Seq<Seq<char>>) -> OptionsView {
    parse_from(args, 0, initial_options(args.len()))
}

/// Executable form of [`ArgActionView`].
pub enum ArgAction {
    Switch(Switch),
    Preserve(bool),
    BadValue(String),
    MissingValue(String),
    Wait(String),
    StatusFile(String),
    LogDir(String),
    LogFile(String),
    AbortEvent(String),
    Component,
    Unknown(String),
}

impl View for ArgAction {
    type V = ArgActionView;

    open spec fn view(&self) -> ArgActionView {
        match self {
            ArgAction::Switch(s) => ArgActionView::Switch(*s),
            ArgAction::Preserve(b) => ArgActionView::Preserve(*b),
            ArgAction::BadValue(a) => ArgActionView::BadValue(a@),
            ArgAction::MissingValue(m) => ArgActionView::MissingValue(m@),
            ArgAction::Wait(v) => ArgActionView::Wait(v@),
            ArgAction::StatusFile(v) => ArgActionView::StatusFile(v@),
            ArgAction::LogDir(v) => ArgActionView::LogDir(v@),
            ArgAction::LogFile(v) => ArgActionView::LogFile(v@),
            ArgAction::AbortEvent(v) => ArgActionView::AbortEvent(v@),
            ArgAction::Component => ArgActionView::Component,
            ArgAction::Unknown(a) => ArgActionView::Unknown(a@),
        }
    }
}

/// The value after `prefix` when `a` starts with it (exact case).
fn strip_prefix_exact(a: &Vec<char>, prefix: &str) -> (r: Option<String>)
    ensures
        (r is Some) == starts_seq(a@, prefix@),
        r is Some ==> r->0@ == after_prefix(a@, prefix@),
{
    let p = chars_of(prefix);
    if crate::text::starts_with_chars(a, &p) {
        Some(string_of_range(a, p.len(), a.len()))
    } else {
        None
    }
}

fn value_action(low: &Vec<char>, a: &String, v: &String) -> (r: ArgAction)
    requires
        value_flag(low@),
    ensures
        r@ == (if flag_like(v@) {
            ArgActionView::MissingValue(missing_value_problem(a@, v@))
        } else if low@ == "--status-file"@ {
            ArgActionView::StatusFile(v@)
        } else if low@ == "--log-dir"@ {
            ArgActionView::LogDir(v@)
        } else if low@ == "--log-file"@ {
            ArgActionView::LogFile(v@)
        } else if low@ == "--abort-event"@ {
            ArgActionView::AbortEvent(v@)
        } else {
            ArgActionView::Wait(v@)
        }),
{
    let vc = chars_of(v.as_str());
    if vc.len() > 1 && vc[0] == '-' {
        let head = concat3(a.as_str(), " is missing its value (found flag-like '", v.as_str());
        let m = concat2(head.as_str(), "' instead)");
        ArgAction::MissingValue(m)
    } else if eq_str(low, "--status-file") {
        ArgAction::StatusFile(copy_string(v))
    } else if eq_str(low, "--log-dir") {
        ArgAction::LogDir(copy_string(v))
    } else if eq_str(low, "--log-file") {
        ArgAction::LogFile(copy_string(v))
    } else if eq_str(low, "--abort-event") {
        ArgAction::AbortEvent(copy_string(v))
    } else {
        ArgAction::Wait(copy_string(v))
    }
}

/// The action of the argument at `i` and the number of arguments it reads.
pub fn arg_action_exec(args: &[String], i: usize) -> (r: (ArgAction, usize))
    requires
        i < args.len(),
    ensures
        r.0@ == arg_action(views(args@), i as int),
        r.1 == arg_width(views(args@), i as int),
{
    let ghost va = views(args@);
    let a: &String = &args[i];
    assert(va[i as int] == a@);
    let low = lower_chars(a.as_str());
    if let Some(s) = switch_of_exec(&low) {
        return (ArgAction::Switch(s), 1);
    }
    let pre = parse_bool_assignment(a.as_str(), "--preserve-nvcontainers");
    match pre {
        BoolAssign::Assigned(b) => {
            return (ArgAction::Preserve(b), 1);
        },
        BoolAssign::Malformed(_) => {
            return (ArgAction::BadValue(copy_string(a)), 1);
        },
        BoolAssign::NotMine => {},
    }
    if eq_str(&low, "--preserve-nvcontainers") {
        return (ArgAction::Preserve(true), 1);
    }
    let vf = eq_str(&low, "--status-file") || eq_str(&low, "--log-dir") || eq_str(
        &low,
        "--ti-wait-seconds",
    ) || eq_str(&low, "--log-file") || eq_str(&low, "--abort-event");
    if vf && i + 1 < args.len() {
        let v: &String = &args[i + 1];
        assert(va[i + 1] == v@);
        return (value_action(&low, a, v), 2);
    }
    let ac = chars_of(a.as_str());
    if let Some(v) = strip_prefix_exact(&ac, "--ti-wait-seconds=") {
        return (ArgAction::Wait(v), 1);
    }
    if let Some(v) = strip_prefix_exact(&ac, "--status-file=") {
        return (ArgAction::StatusFile(v), 1);
    }
    if let Some(v) = strip_prefix_exact(&ac, "--log-file=") {
        return (ArgAction::LogFile(v), 1);
    }
    if let Some(v) = strip_prefix_exact(&ac, "--log-dir=") {
        return (ArgAction::LogDir(v), 1);
    }
    if starts_with_str(&low, "--component=") {
        return (ArgAction::Component, 1);
    }
    (ArgAction::Unknown(copy_string(a)), 1)
}

fn apply_problem_action(opt: Options, act: ArgAction) -> (r: Options)
    requires
        act is BadValue || act is MissingValue || act is Unknown,
    ensures
        r@ == apply_action(opt@, act@),
{
    match act {
        ArgAction::BadValue(a) => push_problem(opt, a),
        ArgAction::MissingValue(m) => push_problem(opt, m),
        ArgAction::Unknown(a) => push_problem(opt, a),
        _ => opt,
    }
}

fn apply_value_action(opt: Options, act: ArgAction) -> (r: Options)
    requires
        act is Wait || act is StatusFile || act is LogDir || act is LogFile || act is AbortEvent,
    ensures
        r@ == apply_action(opt@, act@),
{
    match act {
        ArgAction::Wait(raw) => {
            let (o, problem) = apply_wait_owned(raw.as_str(), opt);
            match problem {
                Some(p) => push_problem(o, p),
                None => o,
            }
        },
        ArgAction::StatusFile(v) => with_status_file(opt, v),
        ArgAction::LogDir(v) => with_log_dir_override(opt, v),
        ArgAction::LogFile(v) => with_log_file_override(opt, v),
        ArgAction::AbortEvent(v) => with_abort_event(opt, v),
        _ => opt,
    }
}

/// Applies one action to the options.
fn apply_action_exec(opt: Options, act: ArgAction) -> (r: Options)
    ensures
        r@ == apply_action(opt@, act@),
{
    match act {
        ArgAction::Switch(s) => apply_switch_exec(opt, s),
        ArgAction::Preserve(b) => with_preserve_nv_containers(opt, b),
        ArgAction::Component => opt,
        ArgAction::BadValue(_) | ArgAction::MissingValue(_) | ArgAction::Unknown(_) => {
            apply_problem_action(opt, act)
        },
        _ => apply_value_action(opt, act),
    }
}

fn action_diagnostic_exec(act: &ArgAction) -> (r: Option<String>)
    ensures
        match action_diagnostic(act@) {
            Some(d) => r is Some && r->0@ == d,
            None => r is None,
        },
{
    match act {
        ArgAction::BadValue(a) => Some(
            concat3("Invalid value in '", a.as_str(), "' (use on/off/true/false/1/0/yes/no)\n"),
        ),
        ArgAction::Unknown(a) => Some(concat3("Unknown option: ", a.as_str(), "\n")),
        _ => None,
    }
}

/// Parses the command line, returning the options and the diagnostic lines
/// (invalid boolean values, unknown options) to print on standard error.
pub fn parse_args_with_diagnostics(args: &[String]) -> (r: (Options, Vec<String>))
    ensures
        r.0@ == parsed_options(views(args@)),
        views(r.1@) == diagnostics_from(views(args@), 0),
{
    let ghost va = views(args@);
    let mut opt = if args.len() == 0 {
        bare_launch(Options::default())
    } else {
        Options::default()
    };
    let mut diags: Vec<String> = Vec::new();
    let mut i: usize = 0;
    assert(views(diags@) =~= Seq::<Seq<char>>::empty());
    while i < args.len()
        invariant
            i <= args.len(),
            va == views(args@),
            parse_from(va, i as nat, opt@) == parsed_options(va),
            views(diags@) + diagnostics_from(va, i as nat) == diagnostics_from(va, 0),
        decreases args.len() - i,
    {
        let (act, w) = arg_action_exec(args, i);
        let ghost before = views(diags@);
        match action_diagnostic_exec(&act) {
            Some(d) => {
                diags.push(d);
                assert(views(diags@) =~= before.push(d@));
            },
            None => {},
        }
        assert(views(diags@) + diagnostics_from(va, (i + w) as nat) =~= before
            + diagnostics_from(va, i as nat));
        opt = apply_action_exec(opt, act);
        i = i + w;
    }
    (opt, diags)
}

/// Parses the command line into options. Flags are matched in any case;
/// `--flag=value` forms in exact case. Unknown arguments, malformed boolean
/// values, flag-like values and wait values that are not whole integers are recorded in
/// `unknown_args` so execute mode can reject them before any change. With no
/// argument at all the wizard presets apply.
pub fn parse_args(args: &[String]) -> (r: Options)
    ensures
        r@ == parsed_options(views(args@)),
{
    let (opt, _diags) = parse_args_with_diagnostics(args);
    opt
}

} // verus!

verus! {

// ---------------------------------------------------------------------------
// Component selection from the command line
// ---------------------------------------------------------------------------

/// Index of the first `:` or `=` in `s` at or after `i`.
pub open spec fn find_separator(s: Seq<char>, i: int) -> Option<int>
    decreases s.len() - i,
{
    if i < 0 || i >= s.len() {
        None
    } else if s[i] == ':' || s[i] == '=' {
        Some(i)
    } else {
        find_separator(s, i + 1)
    }
}

/// Reading of one argument as `--component=Key:state`.
pub ghost enum ComponentArgView {
    /// Not a `--component=` argument (prefix compared in any case).
    NotComponent,
    /// No `:` or `=` after the prefix.
    MissingState,
    /// A state that is not a boolean word (lowercased).
    BadState(Seq<char>),
    /// Select (`true`) or deselect every key equal to this one in lowercase.
    Select(Seq<char>, bool),
}

/// Reading of `a`; the part after the 12-character prefix is `Key:state` or
/// `Key=state`, split at the first separator. An argument shorter than the
/// prefix (possible only if lowercasing lengthened it) has no state.
pub open spec fn component_arg(a: Seq<char>) -> ComponentArgView {
    let prefix = "--component="@;
    if !starts_seq(lowercase(a), prefix) {
        ComponentArgView::NotComponent
    } else if a.len() < prefix.len() {
        ComponentArgView::MissingState
    } else {
        let spec = a.subrange(prefix.len() as int, a.len() as int);
        match find_separator(spec, 0) {
            None => ComponentArgView::MissingState,
            Some(sep) => {
                let key = spec.subrange(0, sep);
                let state = lowercase(spec.subrange(sep + 1, spec.len() as int));
                if true_word(state) {
                    ComponentArgView::Select(lowercase(key), true)
                } else if false_word(state) {
                    ComponentArgView::Select(lowercase(key), false)
                } else {
                    ComponentArgView::BadState(state)
                }
            },
        }
    }
}

/// Some key of `keys` equals `key_low` in lowercase.
pub open spec fn any_key_matches(keys: Seq<Seq<char>>, key_low: Seq<char>) -> bool {
    exists|j: int| 0 <= j < keys.len() && lowercase(#[trigger] keys[j]) == key_low
}

/// Flags after setting every key equal to `key_low` in lowercase to `on`.
pub open spec fn select_matching(
    keys: Seq<Seq<char>>,
    vals: Seq<bool>,
    key_low: Seq<char>,
    on: bool,
) -> Seq<bool> {
    Seq::new(
        vals.len(),
        |j: int|
            if lowercase(keys[j]) == key_low {
                on
            } else {
                vals[j]
            },
    )
}

/// The first `n` keys joined with `", "`.
pub open spec fn join_keys(keys: Seq<Seq<char>>, n: nat) -> Seq<char>
    decreases n,
{
    if n == 0 {
        Seq::empty()
    } else {
        let head = join_keys(keys, (n - 1) as nat);
        if head.len() == 0 {
            keys[n - 1]
        } else {
            head + ", "@ + keys[n - 1]
        }
    }
}

/// Problem text for an argument without a state.
pub open spec fn missing_state_problem(a: Seq<char>) -> Seq<char> {
    a + " is missing an on/off state (use --component=Key:on|off)"@
}

/// Problem text for a state that is not a boolean word.
pub open spec fn bad_state_problem(a: Seq<char>, state: Seq<char>) -> Seq<char> {
    a + ": unknown state '"@ + state + "' (use on/off/true/false/1/0/yes/no)"@
}

/// Problem text for a key no entry matches, listing the valid keys in order.
pub open spec fn unknown_key_problem(a: Seq<char>, keys: Seq<Seq<char>>) -> Seq<char> {
    "unknown component key in '"@ + a + "'. Valid keys: "@ + join_keys(keys, keys.len())
}

/// Flags after one argument, and the problem it raises, if any.
pub open spec fn component_step(keys: Seq<Seq<char>>, vals: Seq<bool>, a: Seq<char>) -> (
    Seq<bool>,
    Option<Seq<char>>,
) {
    match component_arg(a) {
        ComponentArgView::NotComponent => (vals, None),
        ComponentArgView::MissingState => (vals, Some(missing_state_problem(a))),
        ComponentArgView::BadState(state) => (vals, Some(bad_state_problem(a, state))),
        ComponentArgView::Select(key_low, on) => if any_key_matches(keys, key_low) {
            (select_matching(keys, vals, key_low, on), None)
        } else {
            (vals, Some(unknown_key_problem(a, keys)))
        },
    }
}

/// The optional problem as a sequence of zero or one problems.
pub open spec fn opt_seq(p: Option<Seq<char>>) -> Seq<Seq<char>> {
    match p {
        Some(x) => seq![x],
        None => Seq::empty(),
    }
}

/// Flags and problems after the arguments from index `i` on.
pub open spec fn component_args_from(
    keys: Seq<Seq<char>>,
    vals: Seq<bool>,
    args: Seq<Seq<char>>,
    i: nat,
) -> (Seq<bool>, Seq<Seq<char>>)
    decreases args.len() - i,
{
    if i >= args.len() {
        (vals, Seq::empty())
    } else {
        let (v2, p) = component_step(keys, vals, args[i as int]);
        let (vf, ps) = component_args_from(keys, v2, args, i + 1);
        (vf, opt_seq(p) + ps)
    }
}

/// The index of the first `:` or `=` in `s`.
fn find_separator_exec(s: &Vec<char>) -> (r: Option<usize>)
    ensures
        match find_separator(s@, 0) {
            Some(k) => r is Some && r->0 as int == k,
            None => r is None,
        },
        r is Some ==> r->0 < s.len(),
{
    let mut i: usize = 0;
    while i < s.len()
        invariant
            i <= s.len(),
            find_separator(s@, 0) == find_separator(s@, i as int),
        decreases s.len() - i,
    {
        if s[i] == ':' || s[i] == '=' {
            return Some(i);
        }
        i = i + 1;
    }
    None
}

/// Executable form of [`ComponentArgView`].
enum ComponentArg {
    NotComponent,
    MissingState,
    BadState(String),
    Select(Vec<char>, bool),
}

fn component_arg_exec(a: &String) -> (r: ComponentArg)
    ensures
        match component_arg(a@) {
            ComponentArgView::NotComponent => r is NotComponent,
            ComponentArgView::MissingState => r is MissingState,
            ComponentArgView::BadState(st) => r is BadState && r->BadState_0@ == st,
            ComponentArgView::Select(k, on) => r is Select && r->Select_0@ == k && r->Select_1
                == on,
        },
{
    let low = lower_chars(a.as_str());
    if !starts_with_str(&low, "--component=") {
        return ComponentArg::NotComponent;
    }
    let ac = chars_of(a.as_str());
    let plen = chars_of("--component=").len();
    if plen > ac.len() {
        return ComponentArg::MissingState;
    }
    let spec_s = string_of_range(&ac, plen, ac.len());
    let spec_c = chars_of(spec_s.as_str());
    let ghost prefix = "--component="@;
    assert(spec_c@ == a@.subrange(prefix.len() as int, a@.len() as int));
    match find_separator_exec(&spec_c) {
        None => ComponentArg::MissingState,
        Some(sep) => {
            let key = string_of_range(&spec_c, 0, sep);
            let state_raw = string_of_range(&spec_c, sep + 1, spec_c.len());
            let state = lower_chars(state_raw.as_str());
            let key_low = lower_chars(key.as_str());
            assert(key@ == spec_c@.subrange(0, sep as int));
            assert(state@ == lowercase(spec_c@.subrange(sep + 1, spec_c@.len() as int)));
            if eq_str(&state, "on") || eq_str(&state, "true") || eq_str(&state, "1") || eq_str(
                &state,
                "yes",
            ) {
                ComponentArg::Select(key_low, true)
            } else if eq_str(&state, "off") || eq_str(&state, "false") || eq_str(&state, "0")
                || eq_str(&state, "no") {
                ComponentArg::Select(key_low, false)
            } else {
                ComponentArg::BadState(string_of(&state))
            }
        },
    }
}


/// Sets every entry whose key equals `key_low` in lowercase to `on`, and
/// tells whether any did.
fn select_matching_exec(m: &mut EnabledMap, key_low: &Vec<char>, on: bool) -> (matched: bool)
    ensures
        final(m).keys() == old(m).keys(),
        final(m).vals() == select_matching(old(m).keys(), old(m).vals(), key_low@, on),
        matched == any_key_matches(old(m).keys(), key_low@),
{
    let ghost keys0 = m.keys();
    let ghost vals0 = m.vals();
    let ghost target = select_matching(keys0, vals0, key_low@, on);
    let n = m.len();
    let mut j: usize = 0;
    let mut matched = false;
    while j < n
        invariant
            j <= n,
            n == keys0.len(),
            n == vals0.len(),
            m.keys() == keys0,
            m.vals().len() == n,
            target == select_matching(keys0, vals0, key_low@, on),
            forall|t: int| 0 <= t < j ==> m.vals()[t] == #[trigger] target[t],
            forall|t: int| j <= t < n ==> m.vals()[t] == #[trigger] vals0[t],
            matched == exists|t: int| 0 <= t < j && lowercase(#[trigger] keys0[t]) == key_low@,
        decreases n - j,
    {
        let k = lower_chars(m.key_at(j).as_str());
        if eq_chars(&k, key_low) {
            m.set_value_at(j, on);
            matched = true;
        }
        j = j + 1;
    }
    assert(m.vals() =~= target);
    matched
}

/// The keys of `m` joined with `", "`, in key order.
fn join_keys_exec(m: &EnabledMap) -> (r: String)
    ensures
        r@ == join_keys(m.keys(), m.keys().len()),
{
    let n = m.len();
    let mut out = String::new();
    let mut j: usize = 0;
    while j < n
        invariant
            j <= n,
            n == m.keys().len(),
            out@ == join_keys(m.keys(), j as nat),
        decreases n - j,
    {
        let k = m.key_at(j);
        if out.as_str().is_empty() {
            out = copy_string(k);
        } else {
            let sep = concat2(out.as_str(), ", ");
            out = concat2(sep.as_str(), k.as_str());
        }
        j = j + 1;
    }
    out
}

/// Applies every `--component=Key:on|off` argument to the selection, in
/// order, and returns the problems: a missing state, a state that is not a
/// boolean word, or a key that no entry matches (the key is compared in
/// lowercase; the problem lists the valid keys). Keys never change.
pub fn apply_component_args(enabled: &mut EnabledMap, args: &[String]) -> (problems: Vec<String>)
    ensures
        final(enabled).keys() == old(enabled).keys(),
        (final(enabled).vals(), views(problems@)) == component_args_from(
            old(enabled).keys(),
            old(enabled).vals(),
            views(args@),
            0,
        ),
{
    let ghost va = views(args@);
    let ghost keys0 = enabled.keys();
    let ghost total = component_args_from(keys0, enabled.vals(), va, 0);
    let mut problems: Vec<String> = Vec::new();
    let mut i: usize = 0;
    assert(views(problems@) =~= Seq::<Seq<char>>::empty());
    while i < args.len()
        invariant
            i <= args.len(),
            va == views(args@),
            enabled.keys() == keys0,
            component_args_from(keys0, enabled.vals(), va, i as nat).0 == total.0,
            views(problems@) + component_args_from(keys0, enabled.vals(), va, i as nat).1
                == total.1,
        decreases args.len() - i,
    {
        let a: &String = &args[i];
        assert(va[i as int] == a@);
        let _n = enabled.len();
        let ghost vals_before = enabled.vals();
        let ghost before = views(problems@);
        let ghost step = component_step(keys0, vals_before, a@);
        let mut problem: Option<String> = None;
        match component_arg_exec(a) {
            ComponentArg::NotComponent => {},
            ComponentArg::MissingState => {
                problem = Some(
                    concat2(a.as_str(), " is missing an on/off state (use --component=Key:on|off)"),
                );
            },
            ComponentArg::BadState(state) => {
                let head = concat3(a.as_str(), ": unknown state '", state.as_str());
                problem = Some(concat2(head.as_str(), "' (use on/off/true/false/1/0/yes/no)"));
            },
            ComponentArg::Select(key_low, on) => {
                let matched = select_matching_exec(enabled, &key_low, on);
                if !matched {
                    assert forall|t: int| 0 <= t < vals_before.len() implies enabled.vals()[t]
                        == vals_before[t] by {
                        assert(!(lowercase(keys0[t]) == key_low@));
                    }
                    assert(enabled.vals() =~= vals_before);
                    let head = concat3("unknown component key in '", a.as_str(), "'. Valid keys: ");
                    let valid = join_keys_exec(enabled);
                    problem = Some(concat2(head.as_str(), valid.as_str()));
                }
            },
        }
        assert(enabled.vals() == step.0);
        match problem {
            Some(p) => {
                assert(step.1 == Some(p@));
                problems.push(p);
                assert(views(problems@) =~= before.push(step.1->0));
            },
            None => {
                assert(step.1 is None);
            },
        }
        assert(views(problems@) + component_args_from(keys0, enabled.vals(), va, (i + 1) as nat).1
            =~= before + component_args_from(keys0, vals_before, va, i as nat).1);
        i = i + 1;
    }
    problems
}


/// Initial selection of one component: its default, overridden by the
/// matching `--include-*` switch for the optional components.
pub open spec fn initial_enabled(c: ComponentView, o: OptionsView) -> bool {
    if c.key == "NGX"@ {
        o.include_ngx
    } else if c.key == "HDAudio"@ {
        o.include_hd_audio
    } else if c.key == "PhysX"@ {
        o.include_physx
    } else if c.key == "NotebookOptimus"@ {
        o.include_notebook_optimus
    } else if c.key == "VirtualAudio"@ {
        o.include_virtual_audio
    } else if c.key == "NvWMI"@ {
        o.include_nvwmi
    } else if c.key == "CaptureSDK"@ {
        o.include_capture_sdk
    } else {
        c.default_enabled
    }
}

/// Selection after inserting the initial flag of each of `cs`, in order.
pub open spec fn selection_of(cs: Seq<ComponentView>, o: OptionsView) -> Map<Seq<char>, bool>
    decreases cs.len(),
{
    if cs.len() == 0 {
        Map::empty()
    } else {
        selection_of(cs.drop_last(), o).insert(cs.last().key, initial_enabled(cs.last(), o))
    }
}

fn initial_enabled_exec(c: &Component, opts: &Options) -> (r: bool)
    ensures
        r == initial_enabled(c@, opts@),
{
    let k = chars_of(c.key.as_str());
    if eq_str(&k, "NGX") {
        opts.include_ngx
    } else if eq_str(&k, "HDAudio") {
        opts.include_hd_audio
    } else if eq_str(&k, "PhysX") {
        opts.include_physx
    } else if eq_str(&k, "NotebookOptimus") {
        opts.include_notebook_optimus
    } else if eq_str(&k, "VirtualAudio") {
        opts.include_virtual_audio
    } else if eq_str(&k, "NvWMI") {
        opts.include_nvwmi
    } else if eq_str(&k, "CaptureSDK") {
        opts.include_capture_sdk
    } else {
        c.default_enabled
    }
}

/// The initial component selection: every catalog component at its default,
/// the optional ones following their `--include-*` switches.
pub fn initialize_component_selection(opts: &Options) -> (r: EnabledMap)
    ensures
        r@ == selection_of(catalog(), opts@),
{
    let comps = build_components();
    let ghost cs = component_views(comps@);
    let mut m = EnabledMap::new();
    let mut i: usize = 0;
    assert(cs.take(0) =~= Seq::<ComponentView>::empty());
    while i < comps.len()
        invariant
            i <= comps.len(),
            cs == component_views(comps@),
            cs == catalog(),
            m@ == selection_of(cs.take(i as int), opts@),
        decreases comps.len() - i,
    {
        let c = &comps[i];
        let on = initial_enabled_exec(c, opts);
        m.insert(c.key.as_str(), on);
        assert(cs.take(i + 1).drop_last() =~= cs.take(i as int));
        assert(cs.take(i + 1).last() == c@);
        i = i + 1;
    }
    assert(cs.take(comps.len() as int) =~= cs);
    m
}

/// Diagnostic line printed for a component-selection problem.
pub open spec fn component_problem_line(p: Seq<char>) -> Seq<char> {
    "Invalid component selection: "@ + p + "\n"@
}

/// Applies the `--component=` arguments to the selection and records each
/// problem in the options' rejected arguments, so execute mode refuses to
/// run; returns the diagnostic lines to print, one per problem.
pub fn apply_component_args_and_collect_problems(
    opts: &mut Options,
    enabled: &mut EnabledMap,
    args: &[String],
) -> (lines: Vec<String>)
    ensures
        final(enabled).keys() == old(enabled).keys(),
        final(enabled).vals() == component_args_from(
            old(enabled).keys(),
            old(enabled).vals(),
            views(args@),
            0,
        ).0,
        final(opts)@ == (OptionsView {
            unknown_args: old(opts)@.unknown_args + component_args_from(
                old(enabled).keys(),
                old(enabled).vals(),
                views(args@),
                0,
            ).1,
            ..old(opts)@
        }),
        views(lines@) == component_args_from(
            old(enabled).keys(),
            old(enabled).vals(),
            views(args@),
            0,
        ).1.map_values(|p: Seq<char>| component_problem_line(p)),
{
    let problems = apply_component_args(enabled, args);
    let mut tmp = Options::default();
    std::mem::swap(opts, &mut tmp);
    let (o, lines) = collect_problems(tmp, &problems);
    *opts = o;
    lines
}

fn collect_problems(opt: Options, problems: &Vec<String>) -> (r: (Options, Vec<String>))
    ensures
        r.0@ == (OptionsView {
            unknown_args: opt@.unknown_args + views(problems@),
            ..opt@
        }),
        views(r.1@) == views(problems@).map_values(|p: Seq<char>| component_problem_line(p)),
{
    let mut o = opt;
    let mut lines: Vec<String> = Vec::new();
    let ghost u0 = o@.unknown_args;
    let mut i: usize = 0;
    while i < problems.len()
        invariant
            i <= problems.len(),
            o@ == (OptionsView { unknown_args: u0 + views(problems@).take(i as int), ..opt@ }),
            views(lines@) == views(problems@).take(i as int).map_values(
                |p: Seq<char>| component_problem_line(p),
            ),
        decreases problems.len() - i,
    {
        let p = &problems[i];
        let line = concat3("Invalid component selection: ", p.as_str(), "\n");
        let ghost lb = views(lines@);
        lines.push(line);
        assert(views(lines@) =~= lb.push(component_problem_line(p@)));
        assert(views(problems@).take(i + 1) =~= views(problems@).take(i as int).push(p@));
        o = push_problem(o, copy_string(p));
        assert(views(problems@).take(i + 1).map_values(|q: Seq<char>| component_problem_line(q))
            =~= views(problems@).take(i as int).map_values(
            |q: Seq<char>| component_problem_line(q),
        ).push(component_problem_line(p@)));
        i = i + 1;
    }
    assert(views(problems@).take(problems.len() as int) =~= views(problems@));
    (o, lines)
}


/// Help text before the version number.
pub const USAGE_HEAD: &'static str = "\nNVIDIA post-install debloater native Rust build (version ";

/// Help text after the version number.
pub const USAGE_TAIL: &'static str = ")\n\nUsage:\nGreenPostInstallDebloatNative.exe                      Bare launch (double-click): wizard with recommended\ndefaults pre-selected (execute, kill-lockers, disable-services,\ndelete-scheduled-tasks, reboot-delete); keeps the\nNVIDIA profile updater installed. Requires interactive\nconfirmation; elevates via UAC when needed.\nGreenPostInstallDebloatNative.exe --menu               Interactive wizard with inert dry-run defaults.\nGreenPostInstallDebloatNative.exe --dry-run            Safe scan without changes.\nGreenPostInstallDebloatNative.exe --execute --kill-lockers --disable-services --delete-scheduled-tasks --schedule-reboot-delete\n\nCore switches:\n--execute                       Actually delete/disable. Default is dry-run.\nException: a bare launch (no arguments) opens the wizard\nin EXECUTE mode with the recommended switches pre-selected.\n--dry-run                       Explicit dry-run.\n--menu                          Interactive component selection.\n--no-menu                       Suppress the interactive menu.\n--kill-lockers                  Stop bloat services/processes before deleting.\n--preserve-nvcontainers[=on/off] Allow killing NVDisplay.Container/nvcontainer if matched. Default preserves them.\n--disable-services              Disable matching NVIDIA bloat services.\n--delete-services               Delete matching NVIDIA bloat services.\n--disable-scheduled-tasks       Disable matching NVIDIA scheduled tasks. Default true.\n--no-disable-scheduled-tasks    Do not disable matched scheduled tasks.\n--delete-scheduled-tasks        Delete matching NVIDIA scheduled tasks.\n--schedule-reboot-delete        Use MoveFileEx for locked files/folders.\n--take-ownership                Run takeown/icacls before deletion. Usually unnecessary under TrustedInstaller.\n\nTrustedInstaller behavior:\n--no-ti-relaunch                Do not attempt automatic TrustedInstaller scheduled-task relaunch.\n--allow-admin-fallback          Permit destructive execution as Administrator if TI relaunch fails/skipped.\n--ti-wait-seconds N             Parent wait timeout for TI child. Default 600;\n                                  values are clamped to 15..=7200 seconds.\nComponent selections made in the interactive menu are forwarded to the elevated child.\n\nOptional component inclusions:\n--include-ngx --include-hdaudio --include-physx --include-notebook-optimus\n--include-virtual-audio        Include NvVAD/NVIDIA Virtual Audio Device cleanup. Off by default.\n--include-nvwmi                Include NVIDIA WMI management interface cleanup. Off by default.\n--include-capture-sdk          Include NvFBC/NvIFR capture SDK runtime cleanup. Off by default.\n\nComponent selection:\n--component=Key:on/off         Toggle a specific component (repeatable).\n--list-components              Print all component keys and their state, then exit.\n\nMiscellaneous:\n--status-file PATH             Write child run status JSON to PATH (legacy diagnostics handoff).\n--log-dir PATH                 Base directory for the log file. Default: beside the executable.\n--log-file PATH                Use exactly this log file; all processes of a run (launcher, elevated\ninstance, SYSTEM worker) append to it, so one run leaves one log.\n--pause                        Always pause on exit (also used by the elevated\ninstance spawned by a bare double-click launch).\n--no-pause                     Do not pause on exit after an interactive menu run.\n--no-color                     Monochrome console output.\n--version                      Print version and exit.\n--help, -h, /?                 Show this help.\n\nExit codes:\n0 success | 1 fatal exception | 2 unknown fatal | 3 aborted by user\n10 TrustedInstaller relaunch failed/not permitted | 11 elevated child reported failure\n12 another execute-mode instance is already running | 13 invalid or unknown argument\n\n";

/// The `--help` text, with the version filled in.
pub fn usage_text() -> (r: String)
    ensures
        r@ == USAGE_HEAD@ + crate::app::GPD_VERSION@ + USAGE_TAIL@,
{
    concat3(USAGE_HEAD, crate::app::GPD_VERSION, USAGE_TAIL)
}

} // verus!
