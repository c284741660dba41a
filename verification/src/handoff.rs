//! What an elevated child reads back from the switches its parent forwards:
//! the parent's effective choices and component selection.

use vstd::prelude::*;
use crate::options::{
    parsed_options, TI_WAIT_MAX_SECS, TI_WAIT_MIN_SECS, any_key_matches, component_args_from, component_step, opt_seq, select_matching,
    ArgActionView, apply_action, arg_action, arg_width, bool_assignment, component_arg, parse_from, switch_of,
    takes_next, value_flag, Switch,
};
use crate::types::{default_options_view, OptionsView};
use crate::text::is_digit;
use crate::tasksched::{
    action_switches, child_switches, component_switches, flag_if, inclusion_switches,
    option_switches,
};
use crate::util::{atoi_seq, decimal_nat, digits_end, digits_value, skip_white_space};
use crate::text::{all_ascii, ascii_lower_seq, lowercase, starts_seq};

verus! {

/// ASCII text without capitals is its own lowercase.
proof fn lemma_lower_plain(s: Seq<char>)
    requires
        forall|i: int| 0 <= i < s.len() ==> (#[trigger] s[i] as u32) < 128 && !('A' <= s[i] && s[i] <= 'Z'),
    ensures
        lowercase(s) == s,
{
    assert(all_ascii(s));
    assert(ascii_lower_seq(s) =~= s);
}

/// `p` is no prefix of `h` when they differ at `k` (or `h` ends before).
proof fn lemma_not_prefix_at(h: Seq<char>, p: Seq<char>, k: int)
    requires
        0 <= k < p.len(),
        k >= h.len() || h[k] != p[k],
    ensures
        !starts_seq(h, p),
{
    if starts_seq(h, p) {
        assert(h.subrange(0, p.len() as int)[k] == h[k]);
    }
}

proof fn lemma_word_execute()
    ensures
        lowercase("--execute"@) == "--execute"@,
        switch_of("--execute"@) == Some(Switch::Execute),
        component_arg("--execute"@) is NotComponent,
{
    reveal_strlit("--component=");
    reveal_strlit("--execute");
    lemma_lower_plain("--execute"@);
    reveal_strlit("--help");
    reveal_strlit("-h");
    reveal_strlit("/?");
    reveal_strlit("--version");
    assert("--execute"@[2] != "--version"@[2]);
    reveal_strlit("--list-components");
    reveal_strlit("--menu");
    reveal_strlit("--no-menu");
    assert("--execute"@[2] != "--no-menu"@[2]);
    lemma_not_prefix_at("--execute"@, "--component="@, 9);
}

proof fn lemma_word_dry_run()
    ensures
        lowercase("--dry-run"@) == "--dry-run"@,
        switch_of("--dry-run"@) == Some(Switch::DryRun),
        component_arg("--dry-run"@) is NotComponent,
{
    reveal_strlit("--component=");
    reveal_strlit("--dry-run");
    lemma_lower_plain("--dry-run"@);
    reveal_strlit("--help");
    reveal_strlit("-h");
    reveal_strlit("/?");
    reveal_strlit("--version");
    assert("--dry-run"@[2] != "--version"@[2]);
    reveal_strlit("--list-components");
    reveal_strlit("--menu");
    reveal_strlit("--no-menu");
    assert("--dry-run"@[2] != "--no-menu"@[2]);
    reveal_strlit("--execute");
    assert("--dry-run"@[2] != "--execute"@[2]);
    reveal_strlit("-execute");
    lemma_not_prefix_at("--dry-run"@, "--component="@, 9);
}

proof fn lemma_word_kill_lockers()
    ensures
        lowercase("--kill-lockers"@) == "--kill-lockers"@,
        switch_of("--kill-lockers"@) == Some(Switch::KillLockers),
        component_arg("--kill-lockers"@) is NotComponent,
{
    reveal_strlit("--component=");
    reveal_strlit("--kill-lockers");
    lemma_lower_plain("--kill-lockers"@);
    reveal_strlit("--help");
    reveal_strlit("-h");
    reveal_strlit("/?");
    reveal_strlit("--version");
    reveal_strlit("--list-components");
    reveal_strlit("--menu");
    reveal_strlit("--no-menu");
    reveal_strlit("--execute");
    reveal_strlit("-execute");
    reveal_strlit("--dry-run");
    reveal_strlit("-dryrun");
    reveal_strlit("--allow-admin-fallback");
    reveal_strlit("--no-ti-relaunch");
    reveal_strlit("--ti-child");
    lemma_not_prefix_at("--kill-lockers"@, "--component="@, 2);
}

proof fn lemma_word_disable_services()
    ensures
        lowercase("--disable-services"@) == "--disable-services"@,
        switch_of("--disable-services"@) == Some(Switch::DisableServices),
        component_arg("--disable-services"@) is NotComponent,
{
    reveal_strlit("--component=");
    reveal_strlit("--disable-services");
    lemma_lower_plain("--disable-services"@);
    reveal_strlit("--help");
    reveal_strlit("-h");
    reveal_strlit("/?");
    reveal_strlit("--version");
    reveal_strlit("--list-components");
    reveal_strlit("--menu");
    reveal_strlit("--no-menu");
    reveal_strlit("--execute");
    reveal_strlit("-execute");
    reveal_strlit("--dry-run");
    reveal_strlit("-dryrun");
    reveal_strlit("--allow-admin-fallback");
    reveal_strlit("--no-ti-relaunch");
    reveal_strlit("--ti-child");
    reveal_strlit("--kill-lockers");
    lemma_not_prefix_at("--disable-services"@, "--component="@, 2);
}

proof fn lemma_word_delete_services()
    ensures
        lowercase("--delete-services"@) == "--delete-services"@,
        switch_of("--delete-services"@) == Some(Switch::DeleteServices),
        component_arg("--delete-services"@) is NotComponent,
{
    reveal_strlit("--component=");
    reveal_strlit("--delete-services");
    lemma_lower_plain("--delete-services"@);
    reveal_strlit("--help");
    reveal_strlit("-h");
    reveal_strlit("/?");
    reveal_strlit("--version");
    reveal_strlit("--list-components");
    assert("--delete-services"@[2] != "--list-components"@[2]);
    reveal_strlit("--menu");
    reveal_strlit("--no-menu");
    reveal_strlit("--execute");
    reveal_strlit("-execute");
    reveal_strlit("--dry-run");
    reveal_strlit("-dryrun");
    reveal_strlit("--allow-admin-fallback");
    reveal_strlit("--no-ti-relaunch");
    reveal_strlit("--ti-child");
    reveal_strlit("--kill-lockers");
    reveal_strlit("--disable-services");
    lemma_not_prefix_at("--delete-services"@, "--component="@, 2);
}

proof fn lemma_word_delete_scheduled_tasks()
    ensures
        lowercase("--delete-scheduled-tasks"@) == "--delete-scheduled-tasks"@,
        switch_of("--delete-scheduled-tasks"@) == Some(Switch::DeleteScheduledTasks),
        component_arg("--delete-scheduled-tasks"@) is NotComponent,
{
    reveal_strlit("--component=");
    reveal_strlit("--delete-scheduled-tasks");
    lemma_lower_plain("--delete-scheduled-tasks"@);
    reveal_strlit("--help");
    reveal_strlit("-h");
    reveal_strlit("/?");
    reveal_strlit("--version");
    reveal_strlit("--list-components");
    reveal_strlit("--menu");
    reveal_strlit("--no-menu");
    reveal_strlit("--execute");
    reveal_strlit("-execute");
    reveal_strlit("--dry-run");
    reveal_strlit("-dryrun");
    reveal_strlit("--allow-admin-fallback");
    reveal_strlit("--no-ti-relaunch");
    reveal_strlit("--ti-child");
    reveal_strlit("--kill-lockers");
    reveal_strlit("--disable-services");
    reveal_strlit("--delete-services");
    reveal_strlit("--disable-scheduled-tasks");
    reveal_strlit("--no-disable-scheduled-tasks");
    lemma_not_prefix_at("--delete-scheduled-tasks"@, "--component="@, 2);
}

proof fn lemma_word_no_disable_scheduled_tasks()
    ensures
        lowercase("--no-disable-scheduled-tasks"@) == "--no-disable-scheduled-tasks"@,
        switch_of("--no-disable-scheduled-tasks"@) == Some(Switch::NoDisableScheduledTasks),
        component_arg("--no-disable-scheduled-tasks"@) is NotComponent,
{
    reveal_strlit("--component=");
    reveal_strlit("--no-disable-scheduled-tasks");
    lemma_lower_plain("--no-disable-scheduled-tasks"@);
    reveal_strlit("--help");
    reveal_strlit("-h");
    reveal_strlit("/?");
    reveal_strlit("--version");
    reveal_strlit("--list-components");
    reveal_strlit("--menu");
    reveal_strlit("--no-menu");
    reveal_strlit("--execute");
    reveal_strlit("-execute");
    reveal_strlit("--dry-run");
    reveal_strlit("-dryrun");
    reveal_strlit("--allow-admin-fallback");
    reveal_strlit("--no-ti-relaunch");
    reveal_strlit("--ti-child");
    reveal_strlit("--kill-lockers");
    reveal_strlit("--disable-services");
    reveal_strlit("--delete-services");
    reveal_strlit("--disable-scheduled-tasks");
    lemma_not_prefix_at("--no-disable-scheduled-tasks"@, "--component="@, 2);
}

proof fn lemma_word_schedule_reboot_delete()
    ensures
        lowercase("--schedule-reboot-delete"@) == "--schedule-reboot-delete"@,
        switch_of("--schedule-reboot-delete"@) == Some(Switch::ScheduleRebootDelete),
        component_arg("--schedule-reboot-delete"@) is NotComponent,
{
    reveal_strlit("--component=");
    reveal_strlit("--schedule-reboot-delete");
    lemma_lower_plain("--schedule-reboot-delete"@);
    reveal_strlit("--help");
    reveal_strlit("-h");
    reveal_strlit("/?");
    reveal_strlit("--version");
    reveal_strlit("--list-components");
    reveal_strlit("--menu");
    reveal_strlit("--no-menu");
    reveal_strlit("--execute");
    reveal_strlit("-execute");
    reveal_strlit("--dry-run");
    reveal_strlit("-dryrun");
    reveal_strlit("--allow-admin-fallback");
    reveal_strlit("--no-ti-relaunch");
    reveal_strlit("--ti-child");
    reveal_strlit("--kill-lockers");
    reveal_strlit("--disable-services");
    reveal_strlit("--delete-services");
    reveal_strlit("--disable-scheduled-tasks");
    reveal_strlit("--no-disable-scheduled-tasks");
    reveal_strlit("--delete-scheduled-tasks");
    assert("--schedule-reboot-delete"@[2] != "--delete-scheduled-tasks"@[2]);
    lemma_not_prefix_at("--schedule-reboot-delete"@, "--component="@, 2);
}

proof fn lemma_word_take_ownership()
    ensures
        lowercase("--take-ownership"@) == "--take-ownership"@,
        switch_of("--take-ownership"@) == Some(Switch::TakeOwnership),
        component_arg("--take-ownership"@) is NotComponent,
{
    reveal_strlit("--component=");
    reveal_strlit("--take-ownership");
    lemma_lower_plain("--take-ownership"@);
    reveal_strlit("--help");
    reveal_strlit("-h");
    reveal_strlit("/?");
    reveal_strlit("--version");
    reveal_strlit("--list-components");
    reveal_strlit("--menu");
    reveal_strlit("--no-menu");
    reveal_strlit("--execute");
    reveal_strlit("-execute");
    reveal_strlit("--dry-run");
    reveal_strlit("-dryrun");
    reveal_strlit("--allow-admin-fallback");
    reveal_strlit("--no-ti-relaunch");
    assert("--take-ownership"@[2] != "--no-ti-relaunch"@[2]);
    reveal_strlit("--ti-child");
    reveal_strlit("--kill-lockers");
    reveal_strlit("--disable-services");
    reveal_strlit("--delete-services");
    reveal_strlit("--disable-scheduled-tasks");
    reveal_strlit("--no-disable-scheduled-tasks");
    reveal_strlit("--delete-scheduled-tasks");
    reveal_strlit("--schedule-reboot-delete");
    lemma_not_prefix_at("--take-ownership"@, "--component="@, 2);
}

proof fn lemma_word_include_ngx()
    ensures
        lowercase("--include-ngx"@) == "--include-ngx"@,
        switch_of("--include-ngx"@) == Some(Switch::IncludeNgx),
        component_arg("--include-ngx"@) is NotComponent,
{
    reveal_strlit("--component=");
    reveal_strlit("--include-ngx");
    lemma_lower_plain("--include-ngx"@);
    reveal_strlit("--help");
    reveal_strlit("-h");
    reveal_strlit("/?");
    reveal_strlit("--version");
    reveal_strlit("--list-components");
    reveal_strlit("--menu");
    reveal_strlit("--no-menu");
    reveal_strlit("--execute");
    reveal_strlit("-execute");
    reveal_strlit("--dry-run");
    reveal_strlit("-dryrun");
    reveal_strlit("--allow-admin-fallback");
    reveal_strlit("--no-ti-relaunch");
    reveal_strlit("--ti-child");
    reveal_strlit("--kill-lockers");
    reveal_strlit("--disable-services");
    reveal_strlit("--delete-services");
    reveal_strlit("--disable-scheduled-tasks");
    reveal_strlit("--no-disable-scheduled-tasks");
    reveal_strlit("--delete-scheduled-tasks");
    reveal_strlit("--schedule-reboot-delete");
    reveal_strlit("--take-ownership");
    lemma_not_prefix_at("--include-ngx"@, "--component="@, 2);
}

proof fn lemma_word_include_hdaudio()
    ensures
        lowercase("--include-hdaudio"@) == "--include-hdaudio"@,
        switch_of("--include-hdaudio"@) == Some(Switch::IncludeHdAudio),
        component_arg("--include-hdaudio"@) is NotComponent,
{
    reveal_strlit("--component=");
    reveal_strlit("--include-hdaudio");
    lemma_lower_plain("--include-hdaudio"@);
    reveal_strlit("--help");
    reveal_strlit("-h");
    reveal_strlit("/?");
    reveal_strlit("--version");
    reveal_strlit("--list-components");
    assert("--include-hdaudio"@[2] != "--list-components"@[2]);
    reveal_strlit("--menu");
    reveal_strlit("--no-menu");
    reveal_strlit("--execute");
    reveal_strlit("-execute");
    reveal_strlit("--dry-run");
    reveal_strlit("-dryrun");
    reveal_strlit("--allow-admin-fallback");
    reveal_strlit("--no-ti-relaunch");
    reveal_strlit("--ti-child");
    reveal_strlit("--kill-lockers");
    reveal_strlit("--disable-services");
    reveal_strlit("--delete-services");
    assert("--include-hdaudio"@[2] != "--delete-services"@[2]);
    reveal_strlit("--disable-scheduled-tasks");
    reveal_strlit("--no-disable-scheduled-tasks");
    reveal_strlit("--delete-scheduled-tasks");
    reveal_strlit("--schedule-reboot-delete");
    reveal_strlit("--take-ownership");
    reveal_strlit("--include-ngx");
    lemma_not_prefix_at("--include-hdaudio"@, "--component="@, 2);
}

proof fn lemma_word_include_physx()
    ensures
        lowercase("--include-physx"@) == "--include-physx"@,
        switch_of("--include-physx"@) == Some(Switch::IncludePhysx),
        component_arg("--include-physx"@) is NotComponent,
{
    reveal_strlit("--component=");
    reveal_strlit("--include-physx");
    lemma_lower_plain("--include-physx"@);
    reveal_strlit("--help");
    reveal_strlit("-h");
    reveal_strlit("/?");
    reveal_strlit("--version");
    reveal_strlit("--list-components");
    reveal_strlit("--menu");
    reveal_strlit("--no-menu");
    reveal_strlit("--execute");
    reveal_strlit("-execute");
    reveal_strlit("--dry-run");
    reveal_strlit("-dryrun");
    reveal_strlit("--allow-admin-fallback");
    reveal_strlit("--no-ti-relaunch");
    reveal_strlit("--ti-child");
    reveal_strlit("--kill-lockers");
    reveal_strlit("--disable-services");
    reveal_strlit("--delete-services");
    reveal_strlit("--disable-scheduled-tasks");
    reveal_strlit("--no-disable-scheduled-tasks");
    reveal_strlit("--delete-scheduled-tasks");
    reveal_strlit("--schedule-reboot-delete");
    reveal_strlit("--take-ownership");
    reveal_strlit("--include-ngx");
    reveal_strlit("--include-hdaudio");
    lemma_not_prefix_at("--include-physx"@, "--component="@, 2);
}

proof fn lemma_word_include_notebook_optimus()
    ensures
        lowercase("--include-notebook-optimus"@) == "--include-notebook-optimus"@,
        switch_of("--include-notebook-optimus"@) == Some(Switch::IncludeNotebookOptimus),
        component_arg("--include-notebook-optimus"@) is NotComponent,
{
    reveal_strlit("--component=");
    reveal_strlit("--include-notebook-optimus");
    lemma_lower_plain("--include-notebook-optimus"@);
    reveal_strlit("--help");
    reveal_strlit("-h");
    reveal_strlit("/?");
    reveal_strlit("--version");
    reveal_strlit("--list-components");
    reveal_strlit("--menu");
    reveal_strlit("--no-menu");
    reveal_strlit("--execute");
    reveal_strlit("-execute");
    reveal_strlit("--dry-run");
    reveal_strlit("-dryrun");
    reveal_strlit("--allow-admin-fallback");
    reveal_strlit("--no-ti-relaunch");
    reveal_strlit("--ti-child");
    reveal_strlit("--kill-lockers");
    reveal_strlit("--disable-services");
    reveal_strlit("--delete-services");
    reveal_strlit("--disable-scheduled-tasks");
    reveal_strlit("--no-disable-scheduled-tasks");
    reveal_strlit("--delete-scheduled-tasks");
    reveal_strlit("--schedule-reboot-delete");
    reveal_strlit("--take-ownership");
    reveal_strlit("--include-ngx");
    reveal_strlit("--include-hdaudio");
    reveal_strlit("--include-physx");
    lemma_not_prefix_at("--include-notebook-optimus"@, "--component="@, 2);
}

proof fn lemma_word_include_virtual_audio()
    ensures
        lowercase("--include-virtual-audio"@) == "--include-virtual-audio"@,
        switch_of("--include-virtual-audio"@) == Some(Switch::IncludeVirtualAudio),
        component_arg("--include-virtual-audio"@) is NotComponent,
{
    reveal_strlit("--component=");
    reveal_strlit("--include-virtual-audio");
    lemma_lower_plain("--include-virtual-audio"@);
    reveal_strlit("--help");
    reveal_strlit("-h");
    reveal_strlit("/?");
    reveal_strlit("--version");
    reveal_strlit("--list-components");
    reveal_strlit("--menu");
    reveal_strlit("--no-menu");
    reveal_strlit("--execute");
    reveal_strlit("-execute");
    reveal_strlit("--dry-run");
    reveal_strlit("-dryrun");
    reveal_strlit("--allow-admin-fallback");
    reveal_strlit("--no-ti-relaunch");
    reveal_strlit("--ti-child");
    reveal_strlit("--kill-lockers");
    reveal_strlit("--disable-services");
    reveal_strlit("--delete-services");
    reveal_strlit("--disable-scheduled-tasks");
    reveal_strlit("--no-disable-scheduled-tasks");
    reveal_strlit("--delete-scheduled-tasks");
    reveal_strlit("--schedule-reboot-delete");
    reveal_strlit("--take-ownership");
    reveal_strlit("--include-ngx");
    reveal_strlit("--include-hdaudio");
    reveal_strlit("--include-physx");
    reveal_strlit("--include-notebook-optimus");
    lemma_not_prefix_at("--include-virtual-audio"@, "--component="@, 2);
}

proof fn lemma_word_include_nvwmi()
    ensures
        lowercase("--include-nvwmi"@) == "--include-nvwmi"@,
        switch_of("--include-nvwmi"@) == Some(Switch::IncludeNvwmi),
        component_arg("--include-nvwmi"@) is NotComponent,
{
    reveal_strlit("--component=");
    reveal_strlit("--include-nvwmi");
    lemma_lower_plain("--include-nvwmi"@);
    reveal_strlit("--help");
    reveal_strlit("-h");
    reveal_strlit("/?");
    reveal_strlit("--version");
    reveal_strlit("--list-components");
    reveal_strlit("--menu");
    reveal_strlit("--no-menu");
    reveal_strlit("--execute");
    reveal_strlit("-execute");
    reveal_strlit("--dry-run");
    reveal_strlit("-dryrun");
    reveal_strlit("--allow-admin-fallback");
    reveal_strlit("--no-ti-relaunch");
    reveal_strlit("--ti-child");
    reveal_strlit("--kill-lockers");
    reveal_strlit("--disable-services");
    reveal_strlit("--delete-services");
    reveal_strlit("--disable-scheduled-tasks");
    reveal_strlit("--no-disable-scheduled-tasks");
    reveal_strlit("--delete-scheduled-tasks");
    reveal_strlit("--schedule-reboot-delete");
    reveal_strlit("--take-ownership");
    reveal_strlit("--include-ngx");
    reveal_strlit("--include-hdaudio");
    reveal_strlit("--include-physx");
    assert("--include-nvwmi"@[10] != "--include-physx"@[10]);
    reveal_strlit("--include-notebook-optimus");
    reveal_strlit("--include-virtual-audio");
    lemma_not_prefix_at("--include-nvwmi"@, "--component="@, 2);
}

proof fn lemma_word_include_capture_sdk()
    ensures
        lowercase("--include-capture-sdk"@) == "--include-capture-sdk"@,
        switch_of("--include-capture-sdk"@) == Some(Switch::IncludeCaptureSdk),
        component_arg("--include-capture-sdk"@) is NotComponent,
{
    reveal_strlit("--component=");
    reveal_strlit("--include-capture-sdk");
    lemma_lower_plain("--include-capture-sdk"@);
    reveal_strlit("--help");
    reveal_strlit("-h");
    reveal_strlit("/?");
    reveal_strlit("--version");
    reveal_strlit("--list-components");
    reveal_strlit("--menu");
    reveal_strlit("--no-menu");
    reveal_strlit("--execute");
    reveal_strlit("-execute");
    reveal_strlit("--dry-run");
    reveal_strlit("-dryrun");
    reveal_strlit("--allow-admin-fallback");
    reveal_strlit("--no-ti-relaunch");
    reveal_strlit("--ti-child");
    reveal_strlit("--kill-lockers");
    reveal_strlit("--disable-services");
    reveal_strlit("--delete-services");
    reveal_strlit("--disable-scheduled-tasks");
    reveal_strlit("--no-disable-scheduled-tasks");
    reveal_strlit("--delete-scheduled-tasks");
    reveal_strlit("--schedule-reboot-delete");
    reveal_strlit("--take-ownership");
    reveal_strlit("--include-ngx");
    reveal_strlit("--include-hdaudio");
    reveal_strlit("--include-physx");
    reveal_strlit("--include-notebook-optimus");
    reveal_strlit("--include-virtual-audio");
    reveal_strlit("--include-nvwmi");
    lemma_not_prefix_at("--include-capture-sdk"@, "--component="@, 2);
}

proof fn lemma_word_allow_admin_fallback()
    ensures
        lowercase("--allow-admin-fallback"@) == "--allow-admin-fallback"@,
        switch_of("--allow-admin-fallback"@) == Some(Switch::AllowAdminFallback),
        component_arg("--allow-admin-fallback"@) is NotComponent,
{
    reveal_strlit("--component=");
    reveal_strlit("--allow-admin-fallback");
    lemma_lower_plain("--allow-admin-fallback"@);
    reveal_strlit("--help");
    reveal_strlit("-h");
    reveal_strlit("/?");
    reveal_strlit("--version");
    reveal_strlit("--list-components");
    reveal_strlit("--menu");
    reveal_strlit("--no-menu");
    reveal_strlit("--execute");
    reveal_strlit("-execute");
    reveal_strlit("--dry-run");
    reveal_strlit("-dryrun");
    lemma_not_prefix_at("--allow-admin-fallback"@, "--component="@, 2);
}

// ---------------------------------------------------------------------------
// Reading arguments that never consume the next one
// ---------------------------------------------------------------------------

/// `a` never takes the argument after it as its value.
#[verifier::opaque]
pub open spec fn single(a: Seq<char>) -> bool {
    let low = lowercase(a);
    !(switch_of(low) is None && bool_assignment(a, "--preserve-nvcontainers"@) is NotMine && low
        != "--preserve-nvcontainers"@ && value_flag(low))
}

/// What `a` does on its own.
#[verifier::opaque]
pub open spec fn action_of(a: Seq<char>) -> crate::options::ArgActionView {
    arg_action(seq![a], 0)
}

/// Options after reading `args` one by one from the front, each on its own.
#[verifier::opaque]
pub open spec fn fold_actions(args: Seq<Seq<char>>, o: OptionsView) -> OptionsView
    decreases args.len(),
{
    if args.len() == 0 {
        o
    } else {
        fold_actions(args.drop_first(), apply_action(o, action_of(args[0])))
    }
}

/// Reading nothing changes nothing.
proof fn lemma_fold_empty(x: OptionsView)
    ensures
        fold_actions(Seq::empty(), x) == x,
{
    reveal(fold_actions);
}

/// Reading one argument applies its action.
proof fn lemma_fold_one(w: Seq<char>, x: OptionsView)
    ensures
        fold_actions(seq![w], x) == apply_action(x, action_of(w)),
{
    reveal(fold_actions);
    assert(seq![w].drop_first() =~= Seq::<Seq<char>>::empty());
    assert(fold_actions(seq![w].drop_first(), apply_action(x, action_of(w))) == apply_action(x, action_of(w)));
}

/// A single argument reads the same wherever it stands and is one wide.
proof fn lemma_single_local(args: Seq<Seq<char>>, i: int)
    requires
        0 <= i < args.len(),
        single(args[i]),
    ensures
        arg_action(args, i) == action_of(args[i]),
        arg_width(args, i) == 1,
        !takes_next(args, i),
{
    reveal(single);
    reveal(action_of);
    assert(seq![args[i]][0] == args[i]);
}

/// Reading a concatenation one by one is reading its parts in turn.
proof fn lemma_fold_concat(a: Seq<Seq<char>>, b: Seq<Seq<char>>, o: OptionsView)
    ensures
        fold_actions(a + b, o) == fold_actions(b, fold_actions(a, o)),
    decreases a.len(),
{
    reveal(fold_actions);
    if a.len() == 0 {
        assert(a + b =~= b);
    } else {
        assert((a + b).drop_first() =~= a.drop_first() + b);
        assert((a + b)[0] == a[0]);
        lemma_fold_concat(a.drop_first(), b, apply_action(o, action_of(a[0])));
    }
}

/// The parser reads arguments that are all single one by one.
proof fn lemma_parse_is_fold(args: Seq<Seq<char>>, i: nat, o: OptionsView)
    requires
        i <= args.len(),
        forall|t: int| 0 <= t < args.len() ==> single(#[trigger] args[t]),
    ensures
        parse_from(args, i, o) == fold_actions(args.skip(i as int), o),
    decreases args.len() - i,
{
    reveal(fold_actions);
    if i == args.len() {
        assert(args.skip(i as int) =~= Seq::<Seq<char>>::empty());
    } else {
        lemma_single_local(args, i as int);
        let next = apply_action(o, arg_action(args, i as int));
        lemma_parse_is_fold(args, (i + 1) as nat, next);
        assert(args.skip(i as int).drop_first() =~= args.skip((i + 1) as int));
        assert(args.skip(i as int)[0] == args[i as int]);
    }
}


// ---------------------------------------------------------------------------
// Decimal numbers read back
// ---------------------------------------------------------------------------

/// Every character of a decimal rendering is a digit, and there is one.
pub(crate) proof fn lemma_decimal_digits(n: nat)
    ensures
        decimal_nat(n).len() >= 1,
        forall|i: int| 0 <= i < decimal_nat(n).len() ==> is_digit(#[trigger] decimal_nat(n)[i]),
    decreases n,
{
    if n >= 10 {
        lemma_decimal_digits(n / 10);
    }
}

/// The value of digits depends only on the digits in range.
proof fn lemma_digits_value_prefix(s: Seq<char>, c: char, b: int)
    requires
        0 <= b <= s.len(),
    ensures
        digits_value(s.push(c), 0, b) == digits_value(s, 0, b),
    decreases b,
{
    if b > 0 {
        lemma_digits_value_prefix(s, c, b - 1);
    }
}

/// The digits of a decimal rendering read back as the number.
pub(crate) proof fn lemma_decimal_value(n: nat)
    ensures
        digits_value(decimal_nat(n), 0, decimal_nat(n).len() as int) == n,
    decreases n,
{
    let d = decimal_nat(n);
    if n >= 10 {
        let s = decimal_nat(n / 10);
        let c = crate::util::hex_digit_upper(n % 10);
        lemma_decimal_value(n / 10);
        lemma_digits_value_prefix(s, c, s.len() as int);
        assert(d == s.push(c));
        assert((c as u32) == 48 + n % 10);
        assert(digits_value(d, 0, d.len() as int) == digits_value(d, 0, s.len() as int) * 10 + ((
        d[s.len() as int] as u32) - ('0' as u32)) as nat);
        assert((n / 10) * 10 + n % 10 == n) by (nonlinear_arith);
    } else {
        let c = crate::util::hex_digit_upper(n);
        assert((c as u32) == 48 + n);
        assert(digits_value(d, 0, 1) == digits_value(d, 0, 0) * 10 + ((d[0] as u32) - ('0' as u32)) as nat);
    }
}

/// Digits run to the end of a decimal rendering.
proof fn lemma_digits_end_all(s: Seq<char>, i: int)
    requires
        0 <= i <= s.len(),
        forall|t: int| 0 <= t < s.len() ==> is_digit(#[trigger] s[t]),
    ensures
        digits_end(s, i) == s.len(),
    decreases s.len() - i,
{
    if i < s.len() {
        lemma_digits_end_all(s, i + 1);
    }
}

/// The forwarded wait switch `--ti-wait-seconds=<n>`.
pub open spec fn wait_switch(n: nat) -> Seq<char> {
    "--ti-wait-seconds="@ + decimal_nat(n)
}

/// The wait switch is plain lowercase text, no plain switch and no value
/// flag, never a `--component=` argument, and reads as its value.
proof fn lemma_word_wait(n: nat)
    requires
        n <= i32::MAX,
    ensures
        lowercase(wait_switch(n)) == wait_switch(n),
        single(wait_switch(n)),
        action_of(wait_switch(n)) == ArgActionView::Wait(decimal_nat(n)),
        component_arg(wait_switch(n)) is NotComponent,
{
    reveal(single);
    reveal(action_of);
    let a = wait_switch(n);
    let p = "--ti-wait-seconds="@;
    let d = decimal_nat(n);
    reveal_strlit("--ti-wait-seconds=");
    reveal_strlit("--component=");
    lemma_decimal_digits(n);
    assert(a.len() == p.len() + d.len());
    assert forall|i: int| 0 <= i < a.len() implies (#[trigger] a[i] as u32) < 128 && !('A' <= a[i]
        && a[i] <= 'Z') by {
        if i >= p.len() {
            assert(a[i] == d[i - p.len()]);
            assert(is_digit(d[i - p.len()]));
        } else {
            assert(a[i] == p[i]);
        }
    }
    lemma_lower_plain(a);
    assert(a[2] == 't');
    reveal_strlit("--help");
    assert(a[2] != "--help"@[2]);
    reveal_strlit("-h");
    reveal_strlit("/?");
    reveal_strlit("--version");
    assert(a[2] != "--version"@[2]);
    reveal_strlit("--list-components");
    assert(a[2] != "--list-components"@[2]);
    reveal_strlit("--menu");
    assert(a[2] != "--menu"@[2]);
    reveal_strlit("--no-menu");
    assert(a[2] != "--no-menu"@[2]);
    reveal_strlit("--execute");
    assert(a[2] != "--execute"@[2]);
    reveal_strlit("-execute");
    assert(a[2] != "-execute"@[2]);
    reveal_strlit("--dry-run");
    assert(a[2] != "--dry-run"@[2]);
    reveal_strlit("-dryrun");
    assert(a[2] != "-dryrun"@[2]);
    reveal_strlit("--allow-admin-fallback");
    assert(a[2] != "--allow-admin-fallback"@[2]);
    reveal_strlit("--no-ti-relaunch");
    assert(a[2] != "--no-ti-relaunch"@[2]);
    reveal_strlit("--ti-child");
    reveal_strlit("--kill-lockers");
    assert(a[2] != "--kill-lockers"@[2]);
    reveal_strlit("--disable-services");
    assert(a[2] != "--disable-services"@[2]);
    reveal_strlit("--delete-services");
    assert(a[2] != "--delete-services"@[2]);
    reveal_strlit("--disable-scheduled-tasks");
    assert(a[2] != "--disable-scheduled-tasks"@[2]);
    reveal_strlit("--no-disable-scheduled-tasks");
    assert(a[2] != "--no-disable-scheduled-tasks"@[2]);
    reveal_strlit("--delete-scheduled-tasks");
    assert(a[2] != "--delete-scheduled-tasks"@[2]);
    reveal_strlit("--schedule-reboot-delete");
    assert(a[2] != "--schedule-reboot-delete"@[2]);
    reveal_strlit("--take-ownership");
    reveal_strlit("--include-ngx");
    assert(a[2] != "--include-ngx"@[2]);
    reveal_strlit("--include-hdaudio");
    assert(a[2] != "--include-hdaudio"@[2]);
    reveal_strlit("--include-physx");
    assert(a[2] != "--include-physx"@[2]);
    reveal_strlit("--include-notebook-optimus");
    assert(a[2] != "--include-notebook-optimus"@[2]);
    reveal_strlit("--include-virtual-audio");
    assert(a[2] != "--include-virtual-audio"@[2]);
    reveal_strlit("--include-nvwmi");
    assert(a[2] != "--include-nvwmi"@[2]);
    reveal_strlit("--include-capture-sdk");
    assert(a[2] != "--include-capture-sdk"@[2]);
    reveal_strlit("--no-pause");
    assert(a[2] != "--no-pause"@[2]);
    reveal_strlit("--pause");
    assert(a[2] != "--pause"@[2]);
    reveal_strlit("--no-color");
    assert(a[2] != "--no-color"@[2]);
    reveal_strlit("--status-file");
    assert(a[2] != "--status-file"@[2]);
    reveal_strlit("--log-dir");
    assert(a[2] != "--log-dir"@[2]);
    reveal_strlit("--ti-wait-seconds");
    reveal_strlit("--log-file");
    assert(a[2] != "--log-file"@[2]);
    reveal_strlit("--abort-event");
    assert(a[2] != "--abort-event"@[2]);
    reveal_strlit("--preserve-nvcontainers");
    assert(a[2] != "--preserve-nvcontainers"@[2]);
    lemma_lower_plain("--preserve-nvcontainers"@);
    let pre = lowercase("--preserve-nvcontainers"@) + seq!['='];
    assert(pre[2] == 'p');
    lemma_not_prefix_at(a, pre, 2);
    lemma_not_prefix_at(a, "--component="@, 2);
    assert(seq![a][0] == a);
    assert(a.subrange(0, p.len() as int) =~= p);
    assert(a.subrange(p.len() as int, a.len() as int) =~= d);
}


/// `off` is a word for false and not one for true.
proof fn lemma_off_word()
    ensures
        !crate::options::true_word("off"@),
        crate::options::false_word("off"@),
        crate::options::true_word("on"@),
        lowercase("on"@) == "on"@,
        lowercase("off"@) == "off"@,
{
    reveal_strlit("off");
    reveal_strlit("on");
    reveal_strlit("true");
    reveal_strlit("1");
    reveal_strlit("yes");
    reveal_strlit("false");
    reveal_strlit("0");
    reveal_strlit("no");
    assert("off"@[0] != "yes"@[0]);
    lemma_lower_plain("on"@);
    lemma_lower_plain("off"@);
}

/// The forwarded `--preserve-nvcontainers=off` turns preservation off.
proof fn lemma_word_preserve_off()
    ensures
        lowercase("--preserve-nvcontainers=off"@) == "--preserve-nvcontainers=off"@,
        single("--preserve-nvcontainers=off"@),
        action_of("--preserve-nvcontainers=off"@) == ArgActionView::Preserve(false),
        component_arg("--preserve-nvcontainers=off"@) is NotComponent,
{
    reveal(single);
    reveal(action_of);
    let a = "--preserve-nvcontainers=off"@;
    reveal_strlit("--preserve-nvcontainers=off");
    reveal_strlit("--component=");
    lemma_lower_plain(a);
    reveal_strlit("--help");
    reveal_strlit("-h");
    reveal_strlit("/?");
    reveal_strlit("--version");
    reveal_strlit("--list-components");
    reveal_strlit("--menu");
    reveal_strlit("--no-menu");
    reveal_strlit("--execute");
    reveal_strlit("-execute");
    reveal_strlit("--dry-run");
    reveal_strlit("-dryrun");
    reveal_strlit("--allow-admin-fallback");
    reveal_strlit("--no-ti-relaunch");
    reveal_strlit("--ti-child");
    reveal_strlit("--kill-lockers");
    reveal_strlit("--disable-services");
    reveal_strlit("--delete-services");
    reveal_strlit("--disable-scheduled-tasks");
    reveal_strlit("--no-disable-scheduled-tasks");
    reveal_strlit("--delete-scheduled-tasks");
    reveal_strlit("--schedule-reboot-delete");
    reveal_strlit("--take-ownership");
    reveal_strlit("--include-ngx");
    reveal_strlit("--include-hdaudio");
    reveal_strlit("--include-physx");
    reveal_strlit("--include-notebook-optimus");
    reveal_strlit("--include-virtual-audio");
    reveal_strlit("--include-nvwmi");
    reveal_strlit("--include-capture-sdk");
    reveal_strlit("--no-pause");
    reveal_strlit("--pause");
    reveal_strlit("--no-color");
    reveal_strlit("--status-file");
    reveal_strlit("--log-dir");
    reveal_strlit("--ti-wait-seconds");
    reveal_strlit("--log-file");
    reveal_strlit("--abort-event");
    reveal_strlit("--preserve-nvcontainers");
    lemma_lower_plain("--preserve-nvcontainers"@);
    lemma_off_word();
    let pre = lowercase("--preserve-nvcontainers"@) + seq!['='];
    assert(a.subrange(0, pre.len() as int) =~= pre);
    reveal_strlit("off");
    assert(a.subrange(pre.len() as int, a.len() as int) =~= "off"@);
    lemma_not_prefix_at(a, "--component="@, 2);
    assert(seq![a][0] == a);
}

/// A key that forwards cleanly: ASCII, without `:` or `=`.
pub open spec fn plain_key(k: Seq<char>) -> bool {
    forall|i: int| 0 <= i < k.len() ==> (#[trigger] k[i] as u32) < 128 && k[i] != ':' && k[i] != '='
}

/// The first separator at or after `i` is at `m`.
proof fn lemma_find_separator_at(s: Seq<char>, i: int, m: int)
    requires
        0 <= i <= m < s.len(),
        s[m] == ':' || s[m] == '=',
        forall|t: int| i <= t < m ==> #[trigger] s[t] != ':' && s[t] != '=',
    ensures
        crate::options::find_separator(s, i) == Some(m),
    decreases m - i,
{
    if i < m {
        lemma_find_separator_at(s, i + 1, m);
    }
}

/// A forwarded component switch is no plain switch and no value flag, and
/// reads as the selection of its key.
proof fn lemma_word_component(k: Seq<char>, on: bool)
    requires
        plain_key(k),
    ensures
        single(crate::tasksched::component_switch(k, on)),
        action_of(crate::tasksched::component_switch(k, on)) == ArgActionView::Component,
        component_arg(crate::tasksched::component_switch(k, on)) == crate::options::ComponentArgView::Select(lowercase(k), on),
{
    reveal(single);
    reveal(action_of);
    let a = crate::tasksched::component_switch(k, on);
    let p = "--component="@;
    let w = if on { "on"@ } else { "off"@ };
    reveal_strlit("--component=");
    reveal_strlit(":");
    reveal_strlit("on");
    reveal_strlit("off");
    lemma_off_word();
    assert(a =~= p + k + seq![':'] + w);
    assert(all_ascii(a)) by {
        assert forall|i: int| 0 <= i < a.len() implies (#[trigger] a[i] as u32) < 128 by {
            if i < p.len() {
                assert(a[i] == p[i]);
            } else if i < p.len() + k.len() {
                assert(a[i] == k[i - p.len()]);
            } else if i == p.len() + k.len() {
                assert(a[i] == ':');
            } else {
                assert(a[i] == w[i - p.len() - k.len() - 1]);
            }
        }
    }
    let low = lowercase(a);
    assert(low == ascii_lower_seq(a));
    assert(low.len() == a.len());
    assert forall|i: int| 0 <= i < p.len() implies #[trigger] low[i] == p[i] by {
        assert(a[i] == p[i]);
    }
    assert(low[2] == 'c');
    reveal_strlit("--help");
    assert(low[2] != "--help"@[2]);
    reveal_strlit("-h");
    reveal_strlit("/?");
    reveal_strlit("--version");
    assert(low[2] != "--version"@[2]);
    reveal_strlit("--list-components");
    assert(low[2] != "--list-components"@[2]);
    reveal_strlit("--menu");
    assert(low[2] != "--menu"@[2]);
    reveal_strlit("--no-menu");
    assert(low[2] != "--no-menu"@[2]);
    reveal_strlit("--execute");
    assert(low[2] != "--execute"@[2]);
    reveal_strlit("-execute");
    assert(low[2] != "-execute"@[2]);
    reveal_strlit("--dry-run");
    assert(low[2] != "--dry-run"@[2]);
    reveal_strlit("-dryrun");
    assert(low[2] != "-dryrun"@[2]);
    reveal_strlit("--allow-admin-fallback");
    assert(low[2] != "--allow-admin-fallback"@[2]);
    reveal_strlit("--no-ti-relaunch");
    assert(low[2] != "--no-ti-relaunch"@[2]);
    reveal_strlit("--ti-child");
    assert(low[2] != "--ti-child"@[2]);
    reveal_strlit("--kill-lockers");
    assert(low[2] != "--kill-lockers"@[2]);
    reveal_strlit("--disable-services");
    assert(low[2] != "--disable-services"@[2]);
    reveal_strlit("--delete-services");
    assert(low[2] != "--delete-services"@[2]);
    reveal_strlit("--disable-scheduled-tasks");
    assert(low[2] != "--disable-scheduled-tasks"@[2]);
    reveal_strlit("--no-disable-scheduled-tasks");
    assert(low[2] != "--no-disable-scheduled-tasks"@[2]);
    reveal_strlit("--delete-scheduled-tasks");
    assert(low[2] != "--delete-scheduled-tasks"@[2]);
    reveal_strlit("--schedule-reboot-delete");
    assert(low[2] != "--schedule-reboot-delete"@[2]);
    reveal_strlit("--take-ownership");
    assert(low[2] != "--take-ownership"@[2]);
    reveal_strlit("--include-ngx");
    assert(low[2] != "--include-ngx"@[2]);
    reveal_strlit("--include-hdaudio");
    assert(low[2] != "--include-hdaudio"@[2]);
    reveal_strlit("--include-physx");
    assert(low[2] != "--include-physx"@[2]);
    reveal_strlit("--include-notebook-optimus");
    assert(low[2] != "--include-notebook-optimus"@[2]);
    reveal_strlit("--include-virtual-audio");
    assert(low[2] != "--include-virtual-audio"@[2]);
    reveal_strlit("--include-nvwmi");
    assert(low[2] != "--include-nvwmi"@[2]);
    reveal_strlit("--include-capture-sdk");
    assert(low[2] != "--include-capture-sdk"@[2]);
    reveal_strlit("--no-pause");
    assert(low[2] != "--no-pause"@[2]);
    reveal_strlit("--pause");
    assert(low[2] != "--pause"@[2]);
    reveal_strlit("--no-color");
    assert(low[2] != "--no-color"@[2]);
    reveal_strlit("--status-file");
    assert(low[2] != "--status-file"@[2]);
    reveal_strlit("--log-dir");
    assert(low[2] != "--log-dir"@[2]);
    reveal_strlit("--ti-wait-seconds");
    assert(low[2] != "--ti-wait-seconds"@[2]);
    reveal_strlit("--log-file");
    assert(low[2] != "--log-file"@[2]);
    reveal_strlit("--abort-event");
    assert(low[2] != "--abort-event"@[2]);
    reveal_strlit("--preserve-nvcontainers");
    assert(low[2] != "--preserve-nvcontainers"@[2]);
    reveal_strlit("--ti-wait-seconds=");
    reveal_strlit("--status-file=");
    reveal_strlit("--log-file=");
    reveal_strlit("--log-dir=");
    assert(a[2] == 'c');
    lemma_not_prefix_at(a, "--ti-wait-seconds="@, 2);
    lemma_not_prefix_at(a, "--status-file="@, 2);
    lemma_not_prefix_at(a, "--log-file="@, 2);
    lemma_not_prefix_at(a, "--log-dir="@, 2);
    lemma_lower_plain("--preserve-nvcontainers"@);
    let pre = lowercase("--preserve-nvcontainers"@) + seq!['='];
    assert(pre[2] == 'p');
    lemma_not_prefix_at(low, pre, 2);
    assert(low.subrange(0, p.len() as int) =~= p);
    assert(seq![a][0] == a);
    let spec = a.subrange(p.len() as int, a.len() as int);
    assert(spec =~= k + seq![':'] + w);
    lemma_find_separator_at(spec, 0, k.len() as int);
    assert(spec.subrange(0, k.len() as int) =~= k);
    assert(spec.subrange(k.len() as int + 1, spec.len() as int) =~= w);
}


/// Every argument of `s` is single.
pub open spec fn all_single(s: Seq<Seq<char>>) -> bool {
    forall|t: int| 0 <= t < s.len() ==> single(#[trigger] s[t])
}

/// No argument of `s` is a `--component=` argument.
pub open spec fn none_component(s: Seq<Seq<char>>) -> bool {
    forall|t: int| 0 <= t < s.len() ==> #[trigger] component_arg(s[t]) is NotComponent
}

proof fn lemma_concat_props(a: Seq<Seq<char>>, b: Seq<Seq<char>>)
    ensures
        all_single(a) && all_single(b) ==> all_single(a + b),
        none_component(a) && none_component(b) ==> none_component(a + b),
{
    assert forall|t: int| 0 <= t < (a + b).len() implies #[trigger] (a + b)[t] == (if t < a.len() {
        a[t]
    } else {
        b[t - a.len()]
    }) by {}
}

/// A switch present or not, read one by one after `prefix`.
proof fn lemma_fold_flag(prefix: Seq<Seq<char>>, b: bool, w: Seq<char>, x: OptionsView)
    ensures
        fold_actions(prefix + flag_if(b, w), x) == (if b {
            apply_action(fold_actions(prefix, x), action_of(w))
        } else {
            fold_actions(prefix, x)
        }),
{
    reveal(fold_actions);
    lemma_fold_concat(prefix, flag_if(b, w), x);
    let y = fold_actions(prefix, x);
    if b {
        assert(flag_if(b, w).drop_first() =~= Seq::<Seq<char>>::empty());
        assert(fold_actions(flag_if(b, w), y) == fold_actions(flag_if(b, w).drop_first(), apply_action(y, action_of(w))));
    }
}

/// The properties of a present-or-absent switch.
proof fn lemma_flag_props(b: bool, w: Seq<char>)
    requires
        single(w),
        component_arg(w) is NotComponent,
    ensures
        all_single(flag_if(b, w)),
        none_component(flag_if(b, w)),
{
}

proof fn lemma_act_execute()
    ensures
        action_of("--execute"@) == ArgActionView::Switch(Switch::Execute),
        single("--execute"@),
        component_arg("--execute"@) is NotComponent,
{
    reveal(action_of);
    reveal(single);
    lemma_word_execute();
    assert(seq!["--execute"@][0] == "--execute"@);
}

proof fn lemma_act_dry_run()
    ensures
        action_of("--dry-run"@) == ArgActionView::Switch(Switch::DryRun),
        single("--dry-run"@),
        component_arg("--dry-run"@) is NotComponent,
{
    reveal(action_of);
    reveal(single);
    lemma_word_dry_run();
    assert(seq!["--dry-run"@][0] == "--dry-run"@);
}

proof fn lemma_act_kill_lockers()
    ensures
        action_of("--kill-lockers"@) == ArgActionView::Switch(Switch::KillLockers),
        single("--kill-lockers"@),
        component_arg("--kill-lockers"@) is NotComponent,
{
    reveal(action_of);
    reveal(single);
    lemma_word_kill_lockers();
    assert(seq!["--kill-lockers"@][0] == "--kill-lockers"@);
}

proof fn lemma_act_disable_services()
    ensures
        action_of("--disable-services"@) == ArgActionView::Switch(Switch::DisableServices),
        single("--disable-services"@),
        component_arg("--disable-services"@) is NotComponent,
{
    reveal(action_of);
    reveal(single);
    lemma_word_disable_services();
    assert(seq!["--disable-services"@][0] == "--disable-services"@);
}

proof fn lemma_act_delete_services()
    ensures
        action_of("--delete-services"@) == ArgActionView::Switch(Switch::DeleteServices),
        single("--delete-services"@),
        component_arg("--delete-services"@) is NotComponent,
{
    reveal(action_of);
    reveal(single);
    lemma_word_delete_services();
    assert(seq!["--delete-services"@][0] == "--delete-services"@);
}

proof fn lemma_act_delete_scheduled_tasks()
    ensures
        action_of("--delete-scheduled-tasks"@) == ArgActionView::Switch(Switch::DeleteScheduledTasks),
        single("--delete-scheduled-tasks"@),
        component_arg("--delete-scheduled-tasks"@) is NotComponent,
{
    reveal(action_of);
    reveal(single);
    lemma_word_delete_scheduled_tasks();
    assert(seq!["--delete-scheduled-tasks"@][0] == "--delete-scheduled-tasks"@);
}

proof fn lemma_act_no_disable_scheduled_tasks()
    ensures
        action_of("--no-disable-scheduled-tasks"@) == ArgActionView::Switch(Switch::NoDisableScheduledTasks),
        single("--no-disable-scheduled-tasks"@),
        component_arg("--no-disable-scheduled-tasks"@) is NotComponent,
{
    reveal(action_of);
    reveal(single);
    lemma_word_no_disable_scheduled_tasks();
    assert(seq!["--no-disable-scheduled-tasks"@][0] == "--no-disable-scheduled-tasks"@);
}

proof fn lemma_act_schedule_reboot_delete()
    ensures
        action_of("--schedule-reboot-delete"@) == ArgActionView::Switch(Switch::ScheduleRebootDelete),
        single("--schedule-reboot-delete"@),
        component_arg("--schedule-reboot-delete"@) is NotComponent,
{
    reveal(action_of);
    reveal(single);
    lemma_word_schedule_reboot_delete();
    assert(seq!["--schedule-reboot-delete"@][0] == "--schedule-reboot-delete"@);
}

proof fn lemma_act_take_ownership()
    ensures
        action_of("--take-ownership"@) == ArgActionView::Switch(Switch::TakeOwnership),
        single("--take-ownership"@),
        component_arg("--take-ownership"@) is NotComponent,
{
    reveal(action_of);
    reveal(single);
    lemma_word_take_ownership();
    assert(seq!["--take-ownership"@][0] == "--take-ownership"@);
}

proof fn lemma_act_include_ngx()
    ensures
        action_of("--include-ngx"@) == ArgActionView::Switch(Switch::IncludeNgx),
        single("--include-ngx"@),
        component_arg("--include-ngx"@) is NotComponent,
{
    reveal(action_of);
    reveal(single);
    lemma_word_include_ngx();
    assert(seq!["--include-ngx"@][0] == "--include-ngx"@);
}

proof fn lemma_act_include_hdaudio()
    ensures
        action_of("--include-hdaudio"@) == ArgActionView::Switch(Switch::IncludeHdAudio),
        single("--include-hdaudio"@),
        component_arg("--include-hdaudio"@) is NotComponent,
{
    reveal(action_of);
    reveal(single);
    lemma_word_include_hdaudio();
    assert(seq!["--include-hdaudio"@][0] == "--include-hdaudio"@);
}

proof fn lemma_act_include_physx()
    ensures
        action_of("--include-physx"@) == ArgActionView::Switch(Switch::IncludePhysx),
        single("--include-physx"@),
        component_arg("--include-physx"@) is NotComponent,
{
    reveal(action_of);
    reveal(single);
    lemma_word_include_physx();
    assert(seq!["--include-physx"@][0] == "--include-physx"@);
}

proof fn lemma_act_include_notebook_optimus()
    ensures
        action_of("--include-notebook-optimus"@) == ArgActionView::Switch(Switch::IncludeNotebookOptimus),
        single("--include-notebook-optimus"@),
        component_arg("--include-notebook-optimus"@) is NotComponent,
{
    reveal(action_of);
    reveal(single);
    lemma_word_include_notebook_optimus();
    assert(seq!["--include-notebook-optimus"@][0] == "--include-notebook-optimus"@);
}

proof fn lemma_act_include_virtual_audio()
    ensures
        action_of("--include-virtual-audio"@) == ArgActionView::Switch(Switch::IncludeVirtualAudio),
        single("--include-virtual-audio"@),
        component_arg("--include-virtual-audio"@) is NotComponent,
{
    reveal(action_of);
    reveal(single);
    lemma_word_include_virtual_audio();
    assert(seq!["--include-virtual-audio"@][0] == "--include-virtual-audio"@);
}

proof fn lemma_act_include_nvwmi()
    ensures
        action_of("--include-nvwmi"@) == ArgActionView::Switch(Switch::IncludeNvwmi),
        single("--include-nvwmi"@),
        component_arg("--include-nvwmi"@) is NotComponent,
{
    reveal(action_of);
    reveal(single);
    lemma_word_include_nvwmi();
    assert(seq!["--include-nvwmi"@][0] == "--include-nvwmi"@);
}

proof fn lemma_act_include_capture_sdk()
    ensures
        action_of("--include-capture-sdk"@) == ArgActionView::Switch(Switch::IncludeCaptureSdk),
        single("--include-capture-sdk"@),
        component_arg("--include-capture-sdk"@) is NotComponent,
{
    reveal(action_of);
    reveal(single);
    lemma_word_include_capture_sdk();
    assert(seq!["--include-capture-sdk"@][0] == "--include-capture-sdk"@);
}

proof fn lemma_act_allow_admin_fallback()
    ensures
        action_of("--allow-admin-fallback"@) == ArgActionView::Switch(Switch::AllowAdminFallback),
        single("--allow-admin-fallback"@),
        component_arg("--allow-admin-fallback"@) is NotComponent,
{
    reveal(action_of);
    reveal(single);
    lemma_word_allow_admin_fallback();
    assert(seq!["--allow-admin-fallback"@][0] == "--allow-admin-fallback"@);
}

/// The mode switch forwarded for `o`.
pub open spec fn mode_switch(o: OptionsView) -> Seq<char> {
    if o.execute {
        "--execute"@
    } else {
        "--dry-run"@
    }
}

/// The first `k + 1` pieces of the forwarded mode and destructive switches.
pub open spec fn action_prefix(o: OptionsView, k: nat) -> Seq<Seq<char>>
    decreases k,
{
    if k == 0 {
        seq![mode_switch(o)]
    } else {
        action_prefix(o, (k - 1) as nat) + action_piece(o, k)
    }
}

/// Piece `k` (from 1) of the forwarded mode and destructive switches.
pub open spec fn action_piece(o: OptionsView, k: nat) -> Seq<Seq<char>> {
    if k == 1 {
        flag_if(o.kill_lockers, "--kill-lockers"@)
    } else if k == 2 {
        flag_if(!o.preserve_nv_containers, "--preserve-nvcontainers=off"@)
    } else if k == 3 {
        flag_if(o.disable_services, "--disable-services"@)
    } else if k == 4 {
        flag_if(o.delete_services, "--delete-services"@)
    } else if k == 5 {
        flag_if(o.delete_scheduled_tasks, "--delete-scheduled-tasks"@)
    } else if k == 6 {
        flag_if(!o.disable_scheduled_tasks, "--no-disable-scheduled-tasks"@)
    } else if k == 7 {
        flag_if(o.schedule_locked_for_reboot, "--schedule-reboot-delete"@)
    } else if k == 8 {
        flag_if(o.take_ownership, "--take-ownership"@)
    } else {
        Seq::empty()
    }
}

/// Options after the first `k + 1` pieces, read from `x`.
pub open spec fn action_result(o: OptionsView, x: OptionsView, k: nat) -> OptionsView
    decreases k,
{
    if k == 0 {
        OptionsView { execute: o.execute, ..x }
    } else {
        let y = action_result(o, x, (k - 1) as nat);
        if k == 1 {
            OptionsView { kill_lockers: y.kill_lockers || o.kill_lockers, ..y }
        } else if k == 2 {
            OptionsView { preserve_nv_containers: y.preserve_nv_containers && o.preserve_nv_containers, ..y }
        } else if k == 3 {
            OptionsView { disable_services: y.disable_services || o.disable_services, ..y }
        } else if k == 4 {
            OptionsView { delete_services: y.delete_services || o.delete_services, ..y }
        } else if k == 5 {
            OptionsView { delete_scheduled_tasks: y.delete_scheduled_tasks || o.delete_scheduled_tasks, ..y }
        } else if k == 6 {
            OptionsView { disable_scheduled_tasks: y.disable_scheduled_tasks && o.disable_scheduled_tasks, ..y }
        } else if k == 7 {
            OptionsView { schedule_locked_for_reboot: y.schedule_locked_for_reboot || o.schedule_locked_for_reboot, ..y }
        } else if k == 8 {
            OptionsView { take_ownership: y.take_ownership || o.take_ownership, ..y }
        } else {
            y
        }
    }
}

#[verifier::rlimit(40)]
#[verifier::spinoff_prover]
proof fn lemma_action_step0(o: OptionsView, x: OptionsView)
    ensures
        fold_actions(action_prefix(o, 0), x) == action_result(o, x, 0),
{
    lemma_act_execute();
    lemma_act_dry_run();
    lemma_fold_one(mode_switch(o), x);
}

proof fn lemma_action_props0(o: OptionsView, x: OptionsView)
    ensures
        all_single(action_prefix(o, 0)),
        none_component(action_prefix(o, 0)),
{
    lemma_act_execute();
    lemma_act_dry_run();
}

#[verifier::rlimit(40)]
#[verifier::spinoff_prover]
proof fn lemma_action_step1(o: OptionsView, x: OptionsView)
    ensures
        fold_actions(action_prefix(o, 1), x) == action_result(o, x, 1),
{
    lemma_action_step0(o, x);
    lemma_act_kill_lockers();
    lemma_fold_flag(action_prefix(o, 0), o.kill_lockers, "--kill-lockers"@, x);
    assert(action_prefix(o, 1) == action_prefix(o, 0) + flag_if(o.kill_lockers, "--kill-lockers"@));
}

proof fn lemma_action_props1(o: OptionsView, x: OptionsView)
    ensures
        all_single(action_prefix(o, 1)),
        none_component(action_prefix(o, 1)),
{
    lemma_action_props0(o, x);
    lemma_act_kill_lockers();
    lemma_flag_props(o.kill_lockers, "--kill-lockers"@);
    lemma_concat_props(action_prefix(o, 0), flag_if(o.kill_lockers, "--kill-lockers"@));
    assert(action_prefix(o, 1) == action_prefix(o, 0) + flag_if(o.kill_lockers, "--kill-lockers"@));
}

#[verifier::rlimit(40)]
#[verifier::spinoff_prover]
proof fn lemma_action_step2(o: OptionsView, x: OptionsView)
    ensures
        fold_actions(action_prefix(o, 2), x) == action_result(o, x, 2),
{
    lemma_action_step1(o, x);
    lemma_word_preserve_off();
    lemma_fold_flag(action_prefix(o, 1), !o.preserve_nv_containers, "--preserve-nvcontainers=off"@, x);
    assert(action_prefix(o, 2) == action_prefix(o, 1) + flag_if(!o.preserve_nv_containers, "--preserve-nvcontainers=off"@));
}

proof fn lemma_action_props2(o: OptionsView, x: OptionsView)
    ensures
        all_single(action_prefix(o, 2)),
        none_component(action_prefix(o, 2)),
{
    lemma_action_props1(o, x);
    lemma_word_preserve_off();
    lemma_flag_props(!o.preserve_nv_containers, "--preserve-nvcontainers=off"@);
    lemma_concat_props(action_prefix(o, 1), flag_if(!o.preserve_nv_containers, "--preserve-nvcontainers=off"@));
    assert(action_prefix(o, 2) == action_prefix(o, 1) + flag_if(!o.preserve_nv_containers, "--preserve-nvcontainers=off"@));
}

#[verifier::rlimit(40)]
#[verifier::spinoff_prover]
proof fn lemma_action_step3(o: OptionsView, x: OptionsView)
    ensures
        fold_actions(action_prefix(o, 3), x) == action_result(o, x, 3),
{
    lemma_action_step2(o, x);
    lemma_act_disable_services();
    lemma_fold_flag(action_prefix(o, 2), o.disable_services, "--disable-services"@, x);
    assert(action_prefix(o, 3) == action_prefix(o, 2) + flag_if(o.disable_services, "--disable-services"@));
}

proof fn lemma_action_props3(o: OptionsView, x: OptionsView)
    ensures
        all_single(action_prefix(o, 3)),
        none_component(action_prefix(o, 3)),
{
    lemma_action_props2(o, x);
    lemma_act_disable_services();
    lemma_flag_props(o.disable_services, "--disable-services"@);
    lemma_concat_props(action_prefix(o, 2), flag_if(o.disable_services, "--disable-services"@));
    assert(action_prefix(o, 3) == action_prefix(o, 2) + flag_if(o.disable_services, "--disable-services"@));
}

#[verifier::rlimit(40)]
#[verifier::spinoff_prover]
proof fn lemma_action_step4(o: OptionsView, x: OptionsView)
    ensures
        fold_actions(action_prefix(o, 4), x) == action_result(o, x, 4),
{
    lemma_action_step3(o, x);
    lemma_act_delete_services();
    lemma_fold_flag(action_prefix(o, 3), o.delete_services, "--delete-services"@, x);
    assert(action_prefix(o, 4) == action_prefix(o, 3) + flag_if(o.delete_services, "--delete-services"@));
}

proof fn lemma_action_props4(o: OptionsView, x: OptionsView)
    ensures
        all_single(action_prefix(o, 4)),
        none_component(action_prefix(o, 4)),
{
    lemma_action_props3(o, x);
    lemma_act_delete_services();
    lemma_flag_props(o.delete_services, "--delete-services"@);
    lemma_concat_props(action_prefix(o, 3), flag_if(o.delete_services, "--delete-services"@));
    assert(action_prefix(o, 4) == action_prefix(o, 3) + flag_if(o.delete_services, "--delete-services"@));
}

#[verifier::rlimit(40)]
#[verifier::spinoff_prover]
proof fn lemma_action_step5(o: OptionsView, x: OptionsView)
    ensures
        fold_actions(action_prefix(o, 5), x) == action_result(o, x, 5),
{
    lemma_action_step4(o, x);
    lemma_act_delete_scheduled_tasks();
    lemma_fold_flag(action_prefix(o, 4), o.delete_scheduled_tasks, "--delete-scheduled-tasks"@, x);
    assert(action_prefix(o, 5) == action_prefix(o, 4) + flag_if(o.delete_scheduled_tasks, "--delete-scheduled-tasks"@));
}

proof fn lemma_action_props5(o: OptionsView, x: OptionsView)
    ensures
        all_single(action_prefix(o, 5)),
        none_component(action_prefix(o, 5)),
{
    lemma_action_props4(o, x);
    lemma_act_delete_scheduled_tasks();
    lemma_flag_props(o.delete_scheduled_tasks, "--delete-scheduled-tasks"@);
    lemma_concat_props(action_prefix(o, 4), flag_if(o.delete_scheduled_tasks, "--delete-scheduled-tasks"@));
    assert(action_prefix(o, 5) == action_prefix(o, 4) + flag_if(o.delete_scheduled_tasks, "--delete-scheduled-tasks"@));
}

#[verifier::rlimit(40)]
#[verifier::spinoff_prover]
proof fn lemma_action_step6(o: OptionsView, x: OptionsView)
    ensures
        fold_actions(action_prefix(o, 6), x) == action_result(o, x, 6),
{
    lemma_action_step5(o, x);
    lemma_act_no_disable_scheduled_tasks();
    lemma_fold_flag(action_prefix(o, 5), !o.disable_scheduled_tasks, "--no-disable-scheduled-tasks"@, x);
    assert(action_prefix(o, 6) == action_prefix(o, 5) + flag_if(!o.disable_scheduled_tasks, "--no-disable-scheduled-tasks"@));
}

proof fn lemma_action_props6(o: OptionsView, x: OptionsView)
    ensures
        all_single(action_prefix(o, 6)),
        none_component(action_prefix(o, 6)),
{
    lemma_action_props5(o, x);
    lemma_act_no_disable_scheduled_tasks();
    lemma_flag_props(!o.disable_scheduled_tasks, "--no-disable-scheduled-tasks"@);
    lemma_concat_props(action_prefix(o, 5), flag_if(!o.disable_scheduled_tasks, "--no-disable-scheduled-tasks"@));
    assert(action_prefix(o, 6) == action_prefix(o, 5) + flag_if(!o.disable_scheduled_tasks, "--no-disable-scheduled-tasks"@));
}

#[verifier::rlimit(40)]
#[verifier::spinoff_prover]
proof fn lemma_action_step7(o: OptionsView, x: OptionsView)
    ensures
        fold_actions(action_prefix(o, 7), x) == action_result(o, x, 7),
{
    lemma_action_step6(o, x);
    lemma_act_schedule_reboot_delete();
    lemma_fold_flag(action_prefix(o, 6), o.schedule_locked_for_reboot, "--schedule-reboot-delete"@, x);
    assert(action_prefix(o, 7) == action_prefix(o, 6) + flag_if(o.schedule_locked_for_reboot, "--schedule-reboot-delete"@));
}

proof fn lemma_action_props7(o: OptionsView, x: OptionsView)
    ensures
        all_single(action_prefix(o, 7)),
        none_component(action_prefix(o, 7)),
{
    lemma_action_props6(o, x);
    lemma_act_schedule_reboot_delete();
    lemma_flag_props(o.schedule_locked_for_reboot, "--schedule-reboot-delete"@);
    lemma_concat_props(action_prefix(o, 6), flag_if(o.schedule_locked_for_reboot, "--schedule-reboot-delete"@));
    assert(action_prefix(o, 7) == action_prefix(o, 6) + flag_if(o.schedule_locked_for_reboot, "--schedule-reboot-delete"@));
}

#[verifier::rlimit(40)]
#[verifier::spinoff_prover]
proof fn lemma_action_step8(o: OptionsView, x: OptionsView)
    ensures
        fold_actions(action_prefix(o, 8), x) == action_result(o, x, 8),
{
    lemma_action_step7(o, x);
    lemma_act_take_ownership();
    lemma_fold_flag(action_prefix(o, 7), o.take_ownership, "--take-ownership"@, x);
    assert(action_prefix(o, 8) == action_prefix(o, 7) + flag_if(o.take_ownership, "--take-ownership"@));
}

proof fn lemma_action_props8(o: OptionsView, x: OptionsView)
    ensures
        all_single(action_prefix(o, 8)),
        none_component(action_prefix(o, 8)),
{
    lemma_action_props7(o, x);
    lemma_act_take_ownership();
    lemma_flag_props(o.take_ownership, "--take-ownership"@);
    lemma_concat_props(action_prefix(o, 7), flag_if(o.take_ownership, "--take-ownership"@));
    assert(action_prefix(o, 8) == action_prefix(o, 7) + flag_if(o.take_ownership, "--take-ownership"@));
}

/// Reading the forwarded mode and destructive switches one by one.
proof fn lemma_fold_action_switches(o: OptionsView, x: OptionsView)
    ensures
        fold_actions(action_switches(o), x) == action_result(o, x, 8),
        all_single(action_switches(o)),
        none_component(action_switches(o)),
{
    lemma_action_step8(o, x);
    lemma_action_props8(o, x);
    assert(action_switches(o) == action_prefix(o, 8)) by {
        reveal_with_fuel(action_prefix, 9);
    }
}

/// Piece `k` (from 1) of the forwarded inclusion and fallback switches.
pub open spec fn inclusion_piece(o: OptionsView, k: nat) -> Seq<Seq<char>> {
    if k == 1 {
        flag_if(o.include_ngx, "--include-ngx"@)
    } else if k == 2 {
        flag_if(o.include_hd_audio, "--include-hdaudio"@)
    } else if k == 3 {
        flag_if(o.include_physx, "--include-physx"@)
    } else if k == 4 {
        flag_if(o.include_notebook_optimus, "--include-notebook-optimus"@)
    } else if k == 5 {
        flag_if(o.include_virtual_audio, "--include-virtual-audio"@)
    } else if k == 6 {
        flag_if(o.include_nvwmi, "--include-nvwmi"@)
    } else if k == 7 {
        flag_if(o.include_capture_sdk, "--include-capture-sdk"@)
    } else if k == 8 {
        flag_if(o.allow_admin_fallback, "--allow-admin-fallback"@)
    } else {
        Seq::empty()
    }
}

/// The first `k` pieces of the forwarded inclusion and fallback switches.
pub open spec fn inclusion_prefix(o: OptionsView, k: nat) -> Seq<Seq<char>>
    decreases k,
{
    if k == 0 {
        Seq::empty()
    } else {
        inclusion_prefix(o, (k - 1) as nat) + inclusion_piece(o, k)
    }
}

/// Options after the first `k` pieces, read from `x`.
pub open spec fn inclusion_result(o: OptionsView, x: OptionsView, k: nat) -> OptionsView
    decreases k,
{
    if k == 0 {
        x
    } else {
        let y = inclusion_result(o, x, (k - 1) as nat);
        if k == 1 {
            OptionsView { include_ngx: y.include_ngx || o.include_ngx, ..y }
        } else if k == 2 {
            OptionsView { include_hd_audio: y.include_hd_audio || o.include_hd_audio, ..y }
        } else if k == 3 {
            OptionsView { include_physx: y.include_physx || o.include_physx, ..y }
        } else if k == 4 {
            OptionsView { include_notebook_optimus: y.include_notebook_optimus || o.include_notebook_optimus, ..y }
        } else if k == 5 {
            OptionsView { include_virtual_audio: y.include_virtual_audio || o.include_virtual_audio, ..y }
        } else if k == 6 {
            OptionsView { include_nvwmi: y.include_nvwmi || o.include_nvwmi, ..y }
        } else if k == 7 {
            OptionsView { include_capture_sdk: y.include_capture_sdk || o.include_capture_sdk, ..y }
        } else if k == 8 {
            OptionsView { allow_admin_fallback: y.allow_admin_fallback || o.allow_admin_fallback, ..y }
        } else {
            y
        }
    }
}

#[verifier::rlimit(40)]
#[verifier::spinoff_prover]
proof fn lemma_inclusion_step0(o: OptionsView, x: OptionsView)
    ensures
        fold_actions(inclusion_prefix(o, 0), x) == inclusion_result(o, x, 0),
{
    lemma_fold_empty(x);
}

proof fn lemma_inclusion_props0(o: OptionsView, x: OptionsView)
    ensures
        all_single(inclusion_prefix(o, 0)),
        none_component(inclusion_prefix(o, 0)),
{

}

#[verifier::rlimit(40)]
#[verifier::spinoff_prover]
proof fn lemma_inclusion_step1(o: OptionsView, x: OptionsView)
    ensures
        fold_actions(inclusion_prefix(o, 1), x) == inclusion_result(o, x, 1),
{
    lemma_inclusion_step0(o, x);
    lemma_act_include_ngx();
    lemma_fold_flag(inclusion_prefix(o, 0), o.include_ngx, "--include-ngx"@, x);
    assert(inclusion_prefix(o, 1) == inclusion_prefix(o, 0) + flag_if(o.include_ngx, "--include-ngx"@));
}

proof fn lemma_inclusion_props1(o: OptionsView, x: OptionsView)
    ensures
        all_single(inclusion_prefix(o, 1)),
        none_component(inclusion_prefix(o, 1)),
{
    lemma_inclusion_props0(o, x);
    lemma_act_include_ngx();
    lemma_flag_props(o.include_ngx, "--include-ngx"@);
    lemma_concat_props(inclusion_prefix(o, 0), flag_if(o.include_ngx, "--include-ngx"@));
    assert(inclusion_prefix(o, 1) == inclusion_prefix(o, 0) + flag_if(o.include_ngx, "--include-ngx"@));
}

#[verifier::rlimit(40)]
#[verifier::spinoff_prover]
proof fn lemma_inclusion_step2(o: OptionsView, x: OptionsView)
    ensures
        fold_actions(inclusion_prefix(o, 2), x) == inclusion_result(o, x, 2),
{
    lemma_inclusion_step1(o, x);
    lemma_act_include_hdaudio();
    lemma_fold_flag(inclusion_prefix(o, 1), o.include_hd_audio, "--include-hdaudio"@, x);
    assert(inclusion_prefix(o, 2) == inclusion_prefix(o, 1) + flag_if(o.include_hd_audio, "--include-hdaudio"@));
}

proof fn lemma_inclusion_props2(o: OptionsView, x: OptionsView)
    ensures
        all_single(inclusion_prefix(o, 2)),
        none_component(inclusion_prefix(o, 2)),
{
    lemma_inclusion_props1(o, x);
    lemma_act_include_hdaudio();
    lemma_flag_props(o.include_hd_audio, "--include-hdaudio"@);
    lemma_concat_props(inclusion_prefix(o, 1), flag_if(o.include_hd_audio, "--include-hdaudio"@));
    assert(inclusion_prefix(o, 2) == inclusion_prefix(o, 1) + flag_if(o.include_hd_audio, "--include-hdaudio"@));
}

#[verifier::rlimit(40)]
#[verifier::spinoff_prover]
proof fn lemma_inclusion_step3(o: OptionsView, x: OptionsView)
    ensures
        fold_actions(inclusion_prefix(o, 3), x) == inclusion_result(o, x, 3),
{
    lemma_inclusion_step2(o, x);
    lemma_act_include_physx();
    lemma_fold_flag(inclusion_prefix(o, 2), o.include_physx, "--include-physx"@, x);
    assert(inclusion_prefix(o, 3) == inclusion_prefix(o, 2) + flag_if(o.include_physx, "--include-physx"@));
}

proof fn lemma_inclusion_props3(o: OptionsView, x: OptionsView)
    ensures
        all_single(inclusion_prefix(o, 3)),
        none_component(inclusion_prefix(o, 3)),
{
    lemma_inclusion_props2(o, x);
    lemma_act_include_physx();
    lemma_flag_props(o.include_physx, "--include-physx"@);
    lemma_concat_props(inclusion_prefix(o, 2), flag_if(o.include_physx, "--include-physx"@));
    assert(inclusion_prefix(o, 3) == inclusion_prefix(o, 2) + flag_if(o.include_physx, "--include-physx"@));
}

#[verifier::rlimit(40)]
#[verifier::spinoff_prover]
proof fn lemma_inclusion_step4(o: OptionsView, x: OptionsView)
    ensures
        fold_actions(inclusion_prefix(o, 4), x) == inclusion_result(o, x, 4),
{
    lemma_inclusion_step3(o, x);
    lemma_act_include_notebook_optimus();
    lemma_fold_flag(inclusion_prefix(o, 3), o.include_notebook_optimus, "--include-notebook-optimus"@, x);
    assert(inclusion_prefix(o, 4) == inclusion_prefix(o, 3) + flag_if(o.include_notebook_optimus, "--include-notebook-optimus"@));
}

proof fn lemma_inclusion_props4(o: OptionsView, x: OptionsView)
    ensures
        all_single(inclusion_prefix(o, 4)),
        none_component(inclusion_prefix(o, 4)),
{
    lemma_inclusion_props3(o, x);
    lemma_act_include_notebook_optimus();
    lemma_flag_props(o.include_notebook_optimus, "--include-notebook-optimus"@);
    lemma_concat_props(inclusion_prefix(o, 3), flag_if(o.include_notebook_optimus, "--include-notebook-optimus"@));
    assert(inclusion_prefix(o, 4) == inclusion_prefix(o, 3) + flag_if(o.include_notebook_optimus, "--include-notebook-optimus"@));
}

#[verifier::rlimit(40)]
#[verifier::spinoff_prover]
proof fn lemma_inclusion_step5(o: OptionsView, x: OptionsView)
    ensures
        fold_actions(inclusion_prefix(o, 5), x) == inclusion_result(o, x, 5),
{
    lemma_inclusion_step4(o, x);
    lemma_act_include_virtual_audio();
    lemma_fold_flag(inclusion_prefix(o, 4), o.include_virtual_audio, "--include-virtual-audio"@, x);
    assert(inclusion_prefix(o, 5) == inclusion_prefix(o, 4) + flag_if(o.include_virtual_audio, "--include-virtual-audio"@));
}

proof fn lemma_inclusion_props5(o: OptionsView, x: OptionsView)
    ensures
        all_single(inclusion_prefix(o, 5)),
        none_component(inclusion_prefix(o, 5)),
{
    lemma_inclusion_props4(o, x);
    lemma_act_include_virtual_audio();
    lemma_flag_props(o.include_virtual_audio, "--include-virtual-audio"@);
    lemma_concat_props(inclusion_prefix(o, 4), flag_if(o.include_virtual_audio, "--include-virtual-audio"@));
    assert(inclusion_prefix(o, 5) == inclusion_prefix(o, 4) + flag_if(o.include_virtual_audio, "--include-virtual-audio"@));
}

#[verifier::rlimit(40)]
#[verifier::spinoff_prover]
proof fn lemma_inclusion_step6(o: OptionsView, x: OptionsView)
    ensures
        fold_actions(inclusion_prefix(o, 6), x) == inclusion_result(o, x, 6),
{
    lemma_inclusion_step5(o, x);
    lemma_act_include_nvwmi();
    lemma_fold_flag(inclusion_prefix(o, 5), o.include_nvwmi, "--include-nvwmi"@, x);
    assert(inclusion_prefix(o, 6) == inclusion_prefix(o, 5) + flag_if(o.include_nvwmi, "--include-nvwmi"@));
}

proof fn lemma_inclusion_props6(o: OptionsView, x: OptionsView)
    ensures
        all_single(inclusion_prefix(o, 6)),
        none_component(inclusion_prefix(o, 6)),
{
    lemma_inclusion_props5(o, x);
    lemma_act_include_nvwmi();
    lemma_flag_props(o.include_nvwmi, "--include-nvwmi"@);
    lemma_concat_props(inclusion_prefix(o, 5), flag_if(o.include_nvwmi, "--include-nvwmi"@));
    assert(inclusion_prefix(o, 6) == inclusion_prefix(o, 5) + flag_if(o.include_nvwmi, "--include-nvwmi"@));
}

#[verifier::rlimit(40)]
#[verifier::spinoff_prover]
proof fn lemma_inclusion_step7(o: OptionsView, x: OptionsView)
    ensures
        fold_actions(inclusion_prefix(o, 7), x) == inclusion_result(o, x, 7),
{
    lemma_inclusion_step6(o, x);
    lemma_act_include_capture_sdk();
    lemma_fold_flag(inclusion_prefix(o, 6), o.include_capture_sdk, "--include-capture-sdk"@, x);
    assert(inclusion_prefix(o, 7) == inclusion_prefix(o, 6) + flag_if(o.include_capture_sdk, "--include-capture-sdk"@));
}

proof fn lemma_inclusion_props7(o: OptionsView, x: OptionsView)
    ensures
        all_single(inclusion_prefix(o, 7)),
        none_component(inclusion_prefix(o, 7)),
{
    lemma_inclusion_props6(o, x);
    lemma_act_include_capture_sdk();
    lemma_flag_props(o.include_capture_sdk, "--include-capture-sdk"@);
    lemma_concat_props(inclusion_prefix(o, 6), flag_if(o.include_capture_sdk, "--include-capture-sdk"@));
    assert(inclusion_prefix(o, 7) == inclusion_prefix(o, 6) + flag_if(o.include_capture_sdk, "--include-capture-sdk"@));
}

#[verifier::rlimit(40)]
#[verifier::spinoff_prover]
proof fn lemma_inclusion_step8(o: OptionsView, x: OptionsView)
    ensures
        fold_actions(inclusion_prefix(o, 8), x) == inclusion_result(o, x, 8),
{
    lemma_inclusion_step7(o, x);
    lemma_act_allow_admin_fallback();
    lemma_fold_flag(inclusion_prefix(o, 7), o.allow_admin_fallback, "--allow-admin-fallback"@, x);
    assert(inclusion_prefix(o, 8) == inclusion_prefix(o, 7) + flag_if(o.allow_admin_fallback, "--allow-admin-fallback"@));
}

proof fn lemma_inclusion_props8(o: OptionsView, x: OptionsView)
    ensures
        all_single(inclusion_prefix(o, 8)),
        none_component(inclusion_prefix(o, 8)),
{
    lemma_inclusion_props7(o, x);
    lemma_act_allow_admin_fallback();
    lemma_flag_props(o.allow_admin_fallback, "--allow-admin-fallback"@);
    lemma_concat_props(inclusion_prefix(o, 7), flag_if(o.allow_admin_fallback, "--allow-admin-fallback"@));
    assert(inclusion_prefix(o, 8) == inclusion_prefix(o, 7) + flag_if(o.allow_admin_fallback, "--allow-admin-fallback"@));
}

/// Reading the forwarded inclusion and fallback switches one by one.
proof fn lemma_fold_inclusion_switches(o: OptionsView, x: OptionsView)
    ensures
        fold_actions(inclusion_switches(o), x) == inclusion_result(o, x, 8),
        all_single(inclusion_switches(o)),
        none_component(inclusion_switches(o)),
{
    lemma_inclusion_step8(o, x);
    lemma_inclusion_props8(o, x);
    assert(inclusion_switches(o) == inclusion_prefix(o, 8)) by {
        reveal_with_fuel(inclusion_prefix, 9);
        assert(Seq::<Seq<char>>::empty() + flag_if(o.include_ngx, "--include-ngx"@) =~= flag_if(
            o.include_ngx,
            "--include-ngx"@,
        ));
    }
}


// ---------------------------------------------------------------------------
// Component switches
// ---------------------------------------------------------------------------

/// Reading forwarded component switches leaves the options as they are.
proof fn lemma_fold_components(keys: Seq<Seq<char>>, vals: Seq<bool>, x: OptionsView)
    requires
        keys.len() == vals.len(),
        forall|j: int| 0 <= j < keys.len() ==> plain_key(#[trigger] keys[j]),
    ensures
        fold_actions(component_switches(keys, vals), x) == x,
        all_single(component_switches(keys, vals)),
    decreases keys.len(),
{
    let cs = component_switches(keys, vals);
    assert forall|t: int| 0 <= t < cs.len() implies single(#[trigger] cs[t]) by {
        lemma_word_component(keys[t], vals[t]);
    }
    if keys.len() == 0 {
        assert(cs =~= Seq::<Seq<char>>::empty());
        lemma_fold_empty(x);
    } else {
        lemma_word_component(keys[0], vals[0]);
        let rest = component_switches(keys.drop_first(), vals.drop_first());
        assert(cs.drop_first() =~= rest);
        assert(seq![cs[0]] + rest =~= cs);
        lemma_fold_one(cs[0], x);
        lemma_fold_concat(seq![cs[0]], rest, x);
        assert forall|j: int| 0 <= j < keys.drop_first().len() implies plain_key(
            #[trigger] keys.drop_first()[j],
        ) by {
            assert(keys.drop_first()[j] == keys[j + 1]);
        }
        lemma_fold_components(keys.drop_first(), vals.drop_first(), x);
    }
}

/// Arguments that are no `--component=` arguments leave the selection as
/// it is and raise no problem.
proof fn lemma_components_skip(
    keys: Seq<Seq<char>>,
    v: Seq<bool>,
    args: Seq<Seq<char>>,
    n: nat,
    i: nat,
)
    requires
        i <= n <= args.len(),
        forall|t: int| 0 <= t < n ==> #[trigger] component_arg(args[t]) is NotComponent,
    ensures
        component_args_from(keys, v, args, i) == component_args_from(keys, v, args, n),
    decreases n - i,
{
    if i < n {
        lemma_components_skip(keys, v, args, n, i + 1);
        assert(opt_seq(None) + component_args_from(keys, v, args, i + 1).1 =~= component_args_from(
            keys,
            v,
            args,
            i + 1,
        ).1);
    }
}

/// Reading `p + c` from `p.len() + j` on is reading `c` from `j` on.
proof fn lemma_components_shift(
    keys: Seq<Seq<char>>,
    v: Seq<bool>,
    p: Seq<Seq<char>>,
    c: Seq<Seq<char>>,
    j: nat,
)
    requires
        j <= c.len(),
    ensures
        component_args_from(keys, v, p + c, p.len() + j) == component_args_from(keys, v, c, j),
    decreases c.len() - j,
{
    if j < c.len() {
        assert((p + c)[p.len() + j as int] == c[j as int]);
        let v2 = component_step(keys, v, c[j as int]).0;
        lemma_components_shift(keys, v2, p, c, (j + 1) as nat);
        assert(p.len() + j + 1 == p.len() + (j + 1));
    }
}

/// The forwarded component switches from `j` on set exactly the entries
/// from `j` on to the parent's flags.
proof fn lemma_components_apply(keys: Seq<Seq<char>>, vals: Seq<bool>, v: Seq<bool>, j: nat)
    requires
        j <= keys.len(),
        keys.len() == vals.len(),
        v.len() == keys.len(),
        forall|t: int| 0 <= t < keys.len() ==> plain_key(#[trigger] keys[t]),
        forall|s: int, t: int|
            0 <= s < t < keys.len() ==> lowercase(#[trigger] keys[s]) != lowercase(#[trigger] keys[t]),
    ensures
        component_args_from(keys, v, component_switches(keys, vals), j).0 == Seq::new(
            v.len(),
            |t: int|
                if t >= j {
                    vals[t]
                } else {
                    v[t]
                },
        ),
        component_args_from(keys, v, component_switches(keys, vals), j).1 == Seq::<Seq<char>>::empty(),
    decreases keys.len() - j,
{
    let cs = component_switches(keys, vals);
    if j == keys.len() {
        assert(v =~= Seq::new(
            v.len(),
            |t: int|
                if t >= j {
                    vals[t]
                } else {
                    v[t]
                },
        ));
    } else {
        let k = keys[j as int];
        lemma_word_component(k, vals[j as int]);
        assert(cs[j as int] == crate::tasksched::component_switch(k, vals[j as int]));
        assert(any_key_matches(keys, lowercase(k))) by {
            assert(lowercase(keys[j as int]) == lowercase(k));
        }
        let v2 = select_matching(keys, v, lowercase(k), vals[j as int]);
        assert(v2 =~= v.update(j as int, vals[j as int])) by {
            assert forall|t: int| 0 <= t < v.len() && t != j implies lowercase(#[trigger] keys[t])
                != lowercase(k) by {
                if t < j {
                    assert(lowercase(keys[t]) != lowercase(keys[j as int]));
                } else {
                    assert(lowercase(keys[j as int]) != lowercase(keys[t]));
                }
            }
        }
        lemma_components_apply(keys, vals, v2, j + 1);
        let r = component_args_from(keys, v2, cs, j + 1);
        assert(r.0 =~= Seq::new(
            v.len(),
            |t: int|
                if t >= j {
                    vals[t]
                } else {
                    v[t]
                },
        ));
        assert(opt_seq(None) + r.1 =~= Seq::<Seq<char>>::empty());
    }
}


// ---------------------------------------------------------------------------
// The law
// ---------------------------------------------------------------------------

/// The options after the forwarded option switches, from the defaults.
pub open spec fn forwarded_result(o: OptionsView) -> OptionsView {
    OptionsView {
        ti_wait_seconds: o.ti_wait_seconds,
        ..inclusion_result(o, action_result(o, default_options_view(), 8), 8)
    }
}

/// The forwarded option switches are single, none is a `--component=`
/// argument, and read from the defaults they give [`forwarded_result`].
#[verifier::rlimit(40)]
#[verifier::spinoff_prover]
proof fn lemma_fold_option_switches(o: OptionsView)
    requires
        TI_WAIT_MIN_SECS <= o.ti_wait_seconds <= TI_WAIT_MAX_SECS,
    ensures
        fold_actions(option_switches(o), default_options_view()) == forwarded_result(o),
        all_single(option_switches(o)),
        none_component(option_switches(o)),
{
    let n = o.ti_wait_seconds as nat;
    let a = action_switches(o);
    let i = inclusion_switches(o);
    let w = wait_switch(n);
    let d0 = default_options_view();
    assert(crate::util::decimal(o.ti_wait_seconds) == decimal_nat(n));
    assert(option_switches(o) == a + i + seq![w]);
    lemma_fold_action_switches(o, d0);
    let y1 = fold_actions(a, d0);
    lemma_fold_inclusion_switches(o, y1);
    let y2 = fold_actions(i, y1);
    lemma_word_wait(n);
    lemma_fold_one(w, y2);
    crate::status_file::lemma_parse_decimal_nat(n);
    assert(all_single(seq![w]) && none_component(seq![w]));
    lemma_concat_props(a, i);
    lemma_concat_props(a + i, seq![w]);
    lemma_fold_concat(a, i, d0);
    lemma_fold_concat(a + i, seq![w], d0);
}

/// The choices [`forwarded_result`] holds.
proof fn lemma_forwarded_result_fields(o: OptionsView)
    ensures
        ({
            let c = forwarded_result(o);
            &&& c.execute == o.execute
            &&& c.kill_lockers == o.kill_lockers
            &&& c.preserve_nv_containers == o.preserve_nv_containers
            &&& c.disable_services == o.disable_services
            &&& c.delete_services == o.delete_services
            &&& c.disable_scheduled_tasks == o.disable_scheduled_tasks
            &&& c.delete_scheduled_tasks == o.delete_scheduled_tasks
            &&& c.schedule_locked_for_reboot == o.schedule_locked_for_reboot
            &&& c.take_ownership == o.take_ownership
            &&& c.include_ngx == o.include_ngx
            &&& c.include_hd_audio == o.include_hd_audio
            &&& c.include_physx == o.include_physx
            &&& c.include_notebook_optimus == o.include_notebook_optimus
            &&& c.include_virtual_audio == o.include_virtual_audio
            &&& c.include_nvwmi == o.include_nvwmi
            &&& c.include_capture_sdk == o.include_capture_sdk
            &&& c.allow_admin_fallback == o.allow_admin_fallback
            &&& c.ti_wait_seconds == o.ti_wait_seconds
            &&& c.unknown_args == Seq::<Seq<char>>::empty()
        }),
{
    reveal_with_fuel(action_result, 9);
    reveal_with_fuel(inclusion_result, 9);
}

/// What an elevated child reads back from the switches forwarded for the
/// choices `o` and the selection `vals` over `keys`, when it starts from the
/// selection `start` over the same keys: the same mode, the same destructive,
/// inclusion and fallback choices and the same wait bound, with no rejected
/// argument; and exactly the selection `vals`, without a problem.
pub open spec fn reads_back_choices(
    o: OptionsView,
    keys: Seq<Seq<char>>,
    vals: Seq<bool>,
    start: Seq<bool>,
) -> bool {
    let c = parsed_options(child_switches(o, keys, vals));
    &&& c.execute == o.execute
    &&& c.kill_lockers == o.kill_lockers
    &&& c.preserve_nv_containers == o.preserve_nv_containers
    &&& c.disable_services == o.disable_services
    &&& c.delete_services == o.delete_services
    &&& c.disable_scheduled_tasks == o.disable_scheduled_tasks
    &&& c.delete_scheduled_tasks == o.delete_scheduled_tasks
    &&& c.schedule_locked_for_reboot == o.schedule_locked_for_reboot
    &&& c.take_ownership == o.take_ownership
    &&& c.include_ngx == o.include_ngx
    &&& c.include_hd_audio == o.include_hd_audio
    &&& c.include_physx == o.include_physx
    &&& c.include_notebook_optimus == o.include_notebook_optimus
    &&& c.include_virtual_audio == o.include_virtual_audio
    &&& c.include_nvwmi == o.include_nvwmi
    &&& c.include_capture_sdk == o.include_capture_sdk
    &&& c.allow_admin_fallback == o.allow_admin_fallback
    &&& c.ti_wait_seconds == o.ti_wait_seconds
    &&& c.unknown_args == Seq::<Seq<char>>::empty()
    &&& component_args_from(keys, start, child_switches(o, keys, vals), 0) == (
        vals,
        Seq::<Seq<char>>::empty(),
    )
}

/// The switches a parent forwards to its elevated child read back as the
/// parent's effective choices: the child parses the same mode, the same
/// destructive, inclusion and fallback choices and the same wait bound,
/// with no rejected argument; and whatever selection the child starts from
/// over the same keys, the forwarded component switches leave exactly the
/// parent's selection, again without a problem. Keys forward cleanly when
/// they are ASCII without `:` or `=` and differ in lowercase.
pub proof fn lemma_forwarded_choices_read_back(
    o: OptionsView,
    keys: Seq<Seq<char>>,
    vals: Seq<bool>,
    start: Seq<bool>,
)
    requires
        TI_WAIT_MIN_SECS <= o.ti_wait_seconds <= TI_WAIT_MAX_SECS,
        keys.len() == vals.len(),
        start.len() == keys.len(),
        forall|j: int| 0 <= j < keys.len() ==> plain_key(#[trigger] keys[j]),
        forall|s: int, t: int|
            0 <= s < t < keys.len() ==> lowercase(#[trigger] keys[s]) != lowercase(#[trigger] keys[t]),
    ensures
        reads_back_choices(o, keys, vals, start),
{
    lemma_read_back_options(o, keys, vals);
    lemma_forwarded_result_fields(o);
    lemma_read_back_components(o, keys, vals, start);
}

/// The option half of [`lemma_forwarded_choices_read_back`].
proof fn lemma_read_back_options(o: OptionsView, keys: Seq<Seq<char>>, vals: Seq<bool>)
    requires
        TI_WAIT_MIN_SECS <= o.ti_wait_seconds <= TI_WAIT_MAX_SECS,
        keys.len() == vals.len(),
        forall|j: int| 0 <= j < keys.len() ==> plain_key(#[trigger] keys[j]),
    ensures
        parsed_options(child_switches(o, keys, vals)) == forwarded_result(o),
{
    let opts = option_switches(o);
    let c = component_switches(keys, vals);
    let args = child_switches(o, keys, vals);
    let d0 = default_options_view();
    lemma_fold_option_switches(o);
    lemma_fold_components(keys, vals, forwarded_result(o));
    lemma_concat_props(opts, c);
    lemma_fold_concat(opts, c, d0);
    assert(args == opts + c);
    lemma_parse_is_fold(args, 0, d0);
    assert(args.skip(0) =~= args);
}

/// The selection half of [`lemma_forwarded_choices_read_back`].
proof fn lemma_read_back_components(
    o: OptionsView,
    keys: Seq<Seq<char>>,
    vals: Seq<bool>,
    start: Seq<bool>,
)
    requires
        TI_WAIT_MIN_SECS <= o.ti_wait_seconds <= TI_WAIT_MAX_SECS,
        keys.len() == vals.len(),
        start.len() == keys.len(),
        forall|j: int| 0 <= j < keys.len() ==> plain_key(#[trigger] keys[j]),
        forall|s: int, t: int|
            0 <= s < t < keys.len() ==> lowercase(#[trigger] keys[s]) != lowercase(#[trigger] keys[t]),
    ensures
        component_args_from(keys, start, child_switches(o, keys, vals), 0) == (
            vals,
            Seq::<Seq<char>>::empty(),
        ),
{
    let opts = option_switches(o);
    let c = component_switches(keys, vals);
    let args = child_switches(o, keys, vals);
    lemma_fold_option_switches(o);
    assert(args == opts + c);
    assert forall|t: int| 0 <= t < opts.len() implies #[trigger] component_arg(args[t]) is NotComponent by {
        assert(args[t] == opts[t]);
    }
    lemma_components_skip(keys, start, args, opts.len(), 0);
    lemma_components_shift(keys, start, opts, c, 0);
    assert(opts.len() + 0nat == opts.len());
    lemma_components_apply(keys, vals, start, 0);
    assert(component_args_from(keys, start, c, 0).0 =~= vals);
}

} // verus!
