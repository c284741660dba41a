//! What each plain switch does when it is the only argument: it sets its
//! one option and leaves every other option at its default, whatever the
//! letter case it is typed in.

use vstd::prelude::*;
use crate::options::{
    apply_switch, arg_action, arg_width, initial_options, parse_from, parsed_options, switch_of,
    takes_next, ArgActionView, Switch,
};
use crate::text::lowercase;
use crate::types::{default_options_view, OptionsView};

verus! {

/// A lone argument that names a plain switch yields the defaults with that
/// switch applied.
proof fn lemma_lone_switch(a: Seq<char>, s: Switch)
    requires
        switch_of(lowercase(a)) == Some(s),
    ensures
        parsed_options(seq![a]) == apply_switch(default_options_view(), s),
{
    let args = seq![a];
    assert(args[0] == a);
    assert(!takes_next(args, 0));
    assert(arg_width(args, 0) == 1);
    assert(arg_action(args, 0) == ArgActionView::Switch(s));
    assert(initial_options(1) == default_options_view());
    assert(parse_from(args, 1, apply_switch(default_options_view(), s))
        == apply_switch(default_options_view(), s));
}

/// The switch each word names.
proof fn lemma_switch_words()
    ensures
        switch_of("--help"@) == Some(Switch::ShowHelp),
        switch_of("-h"@) == Some(Switch::ShowHelp),
        switch_of("/?"@) == Some(Switch::ShowHelp),
        switch_of("--version"@) == Some(Switch::ShowVersion),
        switch_of("--list-components"@) == Some(Switch::ListComponents),
        switch_of("--menu"@) == Some(Switch::Menu),
        switch_of("--no-menu"@) == Some(Switch::NoMenu),
        switch_of("--execute"@) == Some(Switch::Execute),
        switch_of("-execute"@) == Some(Switch::Execute),
        switch_of("--dry-run"@) == Some(Switch::DryRun),
        switch_of("-dryrun"@) == Some(Switch::DryRun),
        switch_of("--allow-admin-fallback"@) == Some(Switch::AllowAdminFallback),
        switch_of("--no-ti-relaunch"@) == Some(Switch::NoTiRelaunch),
        switch_of("--ti-child"@) == Some(Switch::TiChild),
        switch_of("--kill-lockers"@) == Some(Switch::KillLockers),
        switch_of("--disable-services"@) == Some(Switch::DisableServices),
        switch_of("--delete-services"@) == Some(Switch::DeleteServices),
        switch_of("--disable-scheduled-tasks"@) == Some(Switch::DisableScheduledTasks),
        switch_of("--no-disable-scheduled-tasks"@) == Some(Switch::NoDisableScheduledTasks),
        switch_of("--delete-scheduled-tasks"@) == Some(Switch::DeleteScheduledTasks),
        switch_of("--schedule-reboot-delete"@) == Some(Switch::ScheduleRebootDelete),
        switch_of("--take-ownership"@) == Some(Switch::TakeOwnership),
        switch_of("--include-ngx"@) == Some(Switch::IncludeNgx),
        switch_of("--include-hdaudio"@) == Some(Switch::IncludeHdAudio),
        switch_of("--include-physx"@) == Some(Switch::IncludePhysx),
        switch_of("--include-notebook-optimus"@) == Some(Switch::IncludeNotebookOptimus),
        switch_of("--include-virtual-audio"@) == Some(Switch::IncludeVirtualAudio),
        switch_of("--include-nvwmi"@) == Some(Switch::IncludeNvwmi),
        switch_of("--include-capture-sdk"@) == Some(Switch::IncludeCaptureSdk),
        switch_of("--no-pause"@) == Some(Switch::NoPause),
        switch_of("--pause"@) == Some(Switch::Pause),
        switch_of("--no-color"@) == Some(Switch::NoColor),
{
    reveal_strlit("--help");
    reveal_strlit("-h");
    reveal_strlit("/?");
    reveal_strlit("--version");
    reveal_strlit("--list-components");
    reveal_strlit("--menu");
    reveal_strlit("--no-menu");
    reveal_strlit("--execute");
    reveal_strlit("-execute");
    reveal_strlit("--dry-run");
    reveal_strlit("-dryrun");
    reveal_strlit("--allow-admin-fallback");
    reveal_strlit("--no-ti-relaunch");
    reveal_strlit("--ti-child");
    reveal_strlit("--kill-lockers");
    reveal_strlit("--disable-services");
    reveal_strlit("--delete-services");
    reveal_strlit("--disable-scheduled-tasks");
    reveal_strlit("--no-disable-scheduled-tasks");
    reveal_strlit("--delete-scheduled-tasks");
    reveal_strlit("--schedule-reboot-delete");
    reveal_strlit("--take-ownership");
    reveal_strlit("--include-ngx");
    reveal_strlit("--include-hdaudio");
    reveal_strlit("--include-physx");
    reveal_strlit("--include-notebook-optimus");
    reveal_strlit("--include-virtual-audio");
    reveal_strlit("--include-nvwmi");
    reveal_strlit("--include-capture-sdk");
    reveal_strlit("--no-pause");
    reveal_strlit("--pause");
    reveal_strlit("--no-color");
    assert("--help"@.len() == 6);
    assert("-h"@.len() == 2);
    assert("/?"@.len() == 2);
    assert("--version"@.len() == 9);
    assert("--list-components"@.len() == 17);
    assert("--menu"@.len() == 6);
    assert("--no-menu"@.len() == 9);
    assert("--execute"@.len() == 9);
    assert("-execute"@.len() == 8);
    assert("--dry-run"@.len() == 9);
    assert("-dryrun"@.len() == 7);
    assert("--allow-admin-fallback"@.len() == 22);
    assert("--no-ti-relaunch"@.len() == 16);
    assert("--ti-child"@.len() == 10);
    assert("--kill-lockers"@.len() == 14);
    assert("--disable-services"@.len() == 18);
    assert("--delete-services"@.len() == 17);
    assert("--disable-scheduled-tasks"@.len() == 25);
    assert("--no-disable-scheduled-tasks"@.len() == 28);
    assert("--delete-scheduled-tasks"@.len() == 24);
    assert("--schedule-reboot-delete"@.len() == 24);
    assert("--take-ownership"@.len() == 16);
    assert("--include-ngx"@.len() == 13);
    assert("--include-hdaudio"@.len() == 17);
    assert("--include-physx"@.len() == 15);
    assert("--include-notebook-optimus"@.len() == 26);
    assert("--include-virtual-audio"@.len() == 23);
    assert("--include-nvwmi"@.len() == 15);
    assert("--include-capture-sdk"@.len() == 21);
    assert("--no-pause"@.len() == 10);
    assert("--pause"@.len() == 7);
    assert("--no-color"@.len() == 10);
    assert("--help"@[2] == 'h');
    assert("-h"@[0] == '-');
    assert("/?"@[0] == '/');
    assert("--version"@[2] == 'v');
    assert("--list-components"@[2] == 'l');
    assert("--menu"@[2] == 'm');
    assert("--no-menu"@[2] == 'n');
    assert("--execute"@[2] == 'e');
    assert("--dry-run"@[2] == 'd');
    assert("-dryrun"@[1] == 'd');
    assert("--no-ti-relaunch"@[2] == 'n');
    assert("--ti-child"@[2] == 't');
    assert("--delete-services"@[2] == 'd');
    assert("--delete-scheduled-tasks"@[2] == 'd');
    assert("--schedule-reboot-delete"@[2] == 's');
    assert("--take-ownership"@[2] == 't');
    assert("--include-hdaudio"@[2] == 'i');
    assert("--include-physx"@[10] == 'p');
    assert("--include-nvwmi"@[10] == 'n');
    assert("--no-pause"@[2] == 'n');
    assert("--no-pause"@[5] == 'p');
    assert("--pause"@[1] == '-');
    assert("--no-color"@[2] == 'n');
    assert("--no-color"@[5] == 'c');
}

/// `--help`, `-h`, `/?`, in any letter case and as the only argument, asks
/// for the help text (`show_help` is `true`) and leaves every other option at
/// its default.
pub proof fn lemma_help_switch_alone(a: Seq<char>)
    requires
        lowercase(a) == "--help"@ || lowercase(a) == "-h"@ || lowercase(a) == "/?"@,
    ensures
        parsed_options(seq![a]) == (OptionsView { show_help: true, ..default_options_view() }),
{
    lemma_switch_words();
    lemma_lone_switch(a, Switch::ShowHelp);
}

/// `--version`, in any letter case and as the only argument, asks for the
/// version (`show_version` is `true`) and leaves every other option at its
/// default.
pub proof fn lemma_version_switch_alone(a: Seq<char>)
    requires
        lowercase(a) == "--version"@,
    ensures
        parsed_options(seq![a]) == (OptionsView { show_version: true, ..default_options_view() }),
{
    lemma_switch_words();
    lemma_lone_switch(a, Switch::ShowVersion);
}

/// `--list-components`, in any letter case and as the only argument, asks for
/// the component list (`list_components` is `true`) and leaves every other
/// option at its default.
pub proof fn lemma_list_components_switch_alone(a: Seq<char>)
    requires
        lowercase(a) == "--list-components"@,
    ensures
        parsed_options(seq![a]) == (OptionsView {
            list_components: true,
            ..default_options_view()
        }),
{
    lemma_switch_words();
    lemma_lone_switch(a, Switch::ListComponents);
}

/// `--menu`, in any letter case and as the only argument, asks for the
/// interactive menu (`menu` is `true`) and leaves every other option at its
/// default.
pub proof fn lemma_menu_switch_alone(a: Seq<char>)
    requires
        lowercase(a) == "--menu"@,
    ensures
        parsed_options(seq![a]) == (OptionsView { menu: true, ..default_options_view() }),
{
    lemma_switch_words();
    lemma_lone_switch(a, Switch::Menu);
}

/// `--no-menu`, in any letter case and as the only argument, turns the
/// interactive menu off (`menu` is `false`) and leaves every other option at
/// its default.
pub proof fn lemma_no_menu_switch_alone(a: Seq<char>)
    requires
        lowercase(a) == "--no-menu"@,
    ensures
        parsed_options(seq![a]) == (OptionsView { menu: false, ..default_options_view() }),
{
    lemma_switch_words();
    lemma_lone_switch(a, Switch::NoMenu);
}

/// `--execute`, `-execute`, in any letter case and as the only argument,
/// turns real changes on (`execute` is `true`) and leaves every other option
/// at its default.
pub proof fn lemma_execute_switch_alone(a: Seq<char>)
    requires
        lowercase(a) == "--execute"@ || lowercase(a) == "-execute"@,
    ensures
        parsed_options(seq![a]) == (OptionsView { execute: true, ..default_options_view() }),
{
    lemma_switch_words();
    lemma_lone_switch(a, Switch::Execute);
}

/// `--dry-run`, `-dryrun`, in any letter case and as the only argument, keeps
/// the run a dry run (`execute` is `false`) and leaves every other option at
/// its default.
pub proof fn lemma_dry_run_switch_alone(a: Seq<char>)
    requires
        lowercase(a) == "--dry-run"@ || lowercase(a) == "-dryrun"@,
    ensures
        parsed_options(seq![a]) == (OptionsView { execute: false, ..default_options_view() }),
{
    lemma_switch_words();
    lemma_lone_switch(a, Switch::DryRun);
}

/// `--allow-admin-fallback`, in any letter case and as the only argument,
/// allows the plain administrator fallback (`allow_admin_fallback` is `true`)
/// and leaves every other option at its default.
pub proof fn lemma_allow_admin_fallback_switch_alone(a: Seq<char>)
    requires
        lowercase(a) == "--allow-admin-fallback"@,
    ensures
        parsed_options(seq![a]) == (OptionsView {
            allow_admin_fallback: true,
            ..default_options_view()
        }),
{
    lemma_switch_words();
    lemma_lone_switch(a, Switch::AllowAdminFallback);
}

/// `--no-ti-relaunch`, in any letter case and as the only argument, turns the
/// TrustedInstaller relaunch off (`attempt_ti_relaunch` is `false`) and
/// leaves every other option at its default.
pub proof fn lemma_no_ti_relaunch_switch_alone(a: Seq<char>)
    requires
        lowercase(a) == "--no-ti-relaunch"@,
    ensures
        parsed_options(seq![a]) == (OptionsView {
            attempt_ti_relaunch: false,
            ..default_options_view()
        }),
{
    lemma_switch_words();
    lemma_lone_switch(a, Switch::NoTiRelaunch);
}

/// `--ti-child`, in any letter case and as the only argument, marks the run
/// as the TrustedInstaller child (`ti_child` is `true`) and leaves every
/// other option at its default.
pub proof fn lemma_ti_child_switch_alone(a: Seq<char>)
    requires
        lowercase(a) == "--ti-child"@,
    ensures
        parsed_options(seq![a]) == (OptionsView { ti_child: true, ..default_options_view() }),
{
    lemma_switch_words();
    lemma_lone_switch(a, Switch::TiChild);
}

/// `--kill-lockers`, in any letter case and as the only argument, turns
/// locker killing on (`kill_lockers` is `true`) and leaves every other option
/// at its default.
pub proof fn lemma_kill_lockers_switch_alone(a: Seq<char>)
    requires
        lowercase(a) == "--kill-lockers"@,
    ensures
        parsed_options(seq![a]) == (OptionsView { kill_lockers: true, ..default_options_view() }),
{
    lemma_switch_words();
    lemma_lone_switch(a, Switch::KillLockers);
}

/// `--disable-services`, in any letter case and as the only argument, turns
/// service disabling on (`disable_services` is `true`) and leaves every other
/// option at its default.
pub proof fn lemma_disable_services_switch_alone(a: Seq<char>)
    requires
        lowercase(a) == "--disable-services"@,
    ensures
        parsed_options(seq![a]) == (OptionsView {
            disable_services: true,
            ..default_options_view()
        }),
{
    lemma_switch_words();
    lemma_lone_switch(a, Switch::DisableServices);
}

/// `--delete-services`, in any letter case and as the only argument, turns
/// service deletion on (`delete_services` is `true`) and leaves every other
/// option at its default.
pub proof fn lemma_delete_services_switch_alone(a: Seq<char>)
    requires
        lowercase(a) == "--delete-services"@,
    ensures
        parsed_options(seq![a]) == (OptionsView {
            delete_services: true,
            ..default_options_view()
        }),
{
    lemma_switch_words();
    lemma_lone_switch(a, Switch::DeleteServices);
}

/// `--disable-scheduled-tasks`, in any letter case and as the only argument,
/// turns scheduled-task disabling on (`disable_scheduled_tasks` is `true`)
/// and leaves every other option at its default.
pub proof fn lemma_disable_scheduled_tasks_switch_alone(a: Seq<char>)
    requires
        lowercase(a) == "--disable-scheduled-tasks"@,
    ensures
        parsed_options(seq![a]) == (OptionsView {
            disable_scheduled_tasks: true,
            ..default_options_view()
        }),
{
    lemma_switch_words();
    lemma_lone_switch(a, Switch::DisableScheduledTasks);
}

/// `--no-disable-scheduled-tasks`, in any letter case and as the only
/// argument, turns scheduled-task disabling off (`disable_scheduled_tasks` is
/// `false`) and leaves every other option at its default.
pub proof fn lemma_no_disable_scheduled_tasks_switch_alone(a: Seq<char>)
    requires
        lowercase(a) == "--no-disable-scheduled-tasks"@,
    ensures
        parsed_options(seq![a]) == (OptionsView {
            disable_scheduled_tasks: false,
            ..default_options_view()
        }),
{
    lemma_switch_words();
    lemma_lone_switch(a, Switch::NoDisableScheduledTasks);
}

/// `--delete-scheduled-tasks`, in any letter case and as the only argument,
/// turns scheduled-task deletion on (`delete_scheduled_tasks` is `true`) and
/// leaves every other option at its default.
pub proof fn lemma_delete_scheduled_tasks_switch_alone(a: Seq<char>)
    requires
        lowercase(a) == "--delete-scheduled-tasks"@,
    ensures
        parsed_options(seq![a]) == (OptionsView {
            delete_scheduled_tasks: true,
            ..default_options_view()
        }),
{
    lemma_switch_words();
    lemma_lone_switch(a, Switch::DeleteScheduledTasks);
}

/// `--schedule-reboot-delete`, in any letter case and as the only argument,
/// schedules locked files for deletion at reboot
/// (`schedule_locked_for_reboot` is `true`) and leaves every other option at
/// its default.
pub proof fn lemma_schedule_reboot_delete_switch_alone(a: Seq<char>)
    requires
        lowercase(a) == "--schedule-reboot-delete"@,
    ensures
        parsed_options(seq![a]) == (OptionsView {
            schedule_locked_for_reboot: true,
            ..default_options_view()
        }),
{
    lemma_switch_words();
    lemma_lone_switch(a, Switch::ScheduleRebootDelete);
}

/// `--take-ownership`, in any letter case and as the only argument, turns
/// ownership taking on (`take_ownership` is `true`) and leaves every other
/// option at its default.
pub proof fn lemma_take_ownership_switch_alone(a: Seq<char>)
    requires
        lowercase(a) == "--take-ownership"@,
    ensures
        parsed_options(seq![a]) == (OptionsView { take_ownership: true, ..default_options_view() }),
{
    lemma_switch_words();
    lemma_lone_switch(a, Switch::TakeOwnership);
}

/// `--include-ngx`, in any letter case and as the only argument, selects the
/// NGX component (`include_ngx` is `true`) and leaves every other option at
/// its default.
pub proof fn lemma_include_ngx_switch_alone(a: Seq<char>)
    requires
        lowercase(a) == "--include-ngx"@,
    ensures
        parsed_options(seq![a]) == (OptionsView { include_ngx: true, ..default_options_view() }),
{
    lemma_switch_words();
    lemma_lone_switch(a, Switch::IncludeNgx);
}

/// `--include-hdaudio`, in any letter case and as the only argument, selects
/// the HD Audio component (`include_hd_audio` is `true`) and leaves every
/// other option at its default.
pub proof fn lemma_include_hdaudio_switch_alone(a: Seq<char>)
    requires
        lowercase(a) == "--include-hdaudio"@,
    ensures
        parsed_options(seq![a]) == (OptionsView {
            include_hd_audio: true,
            ..default_options_view()
        }),
{
    lemma_switch_words();
    lemma_lone_switch(a, Switch::IncludeHdAudio);
}

/// `--include-physx`, in any letter case and as the only argument, selects
/// the PhysX component (`include_physx` is `true`) and leaves every other
/// option at its default.
pub proof fn lemma_include_physx_switch_alone(a: Seq<char>)
    requires
        lowercase(a) == "--include-physx"@,
    ensures
        parsed_options(seq![a]) == (OptionsView { include_physx: true, ..default_options_view() }),
{
    lemma_switch_words();
    lemma_lone_switch(a, Switch::IncludePhysx);
}

/// `--include-notebook-optimus`, in any letter case and as the only argument,
/// selects the notebook Optimus component (`include_notebook_optimus` is
/// `true`) and leaves every other option at its default.
pub proof fn lemma_include_notebook_optimus_switch_alone(a: Seq<char>)
    requires
        lowercase(a) == "--include-notebook-optimus"@,
    ensures
        parsed_options(seq![a]) == (OptionsView {
            include_notebook_optimus: true,
            ..default_options_view()
        }),
{
    lemma_switch_words();
    lemma_lone_switch(a, Switch::IncludeNotebookOptimus);
}

/// `--include-virtual-audio`, in any letter case and as the only argument,
/// selects the virtual audio component (`include_virtual_audio` is `true`)
/// and leaves every other option at its default.
pub proof fn lemma_include_virtual_audio_switch_alone(a: Seq<char>)
    requires
        lowercase(a) == "--include-virtual-audio"@,
    ensures
        parsed_options(seq![a]) == (OptionsView {
            include_virtual_audio: true,
            ..default_options_view()
        }),
{
    lemma_switch_words();
    lemma_lone_switch(a, Switch::IncludeVirtualAudio);
}

/// `--include-nvwmi`, in any letter case and as the only argument, selects
/// the NvWMI component (`include_nvwmi` is `true`) and leaves every other
/// option at its default.
pub proof fn lemma_include_nvwmi_switch_alone(a: Seq<char>)
    requires
        lowercase(a) == "--include-nvwmi"@,
    ensures
        parsed_options(seq![a]) == (OptionsView { include_nvwmi: true, ..default_options_view() }),
{
    lemma_switch_words();
    lemma_lone_switch(a, Switch::IncludeNvwmi);
}

/// `--include-capture-sdk`, in any letter case and as the only argument,
/// selects the Capture SDK component (`include_capture_sdk` is `true`) and
/// leaves every other option at its default.
pub proof fn lemma_include_capture_sdk_switch_alone(a: Seq<char>)
    requires
        lowercase(a) == "--include-capture-sdk"@,
    ensures
        parsed_options(seq![a]) == (OptionsView {
            include_capture_sdk: true,
            ..default_options_view()
        }),
{
    lemma_switch_words();
    lemma_lone_switch(a, Switch::IncludeCaptureSdk);
}

/// `--no-pause`, in any letter case and as the only argument, turns the exit
/// pause off (`no_pause` is `true`) and leaves every other option at its
/// default.
pub proof fn lemma_no_pause_switch_alone(a: Seq<char>)
    requires
        lowercase(a) == "--no-pause"@,
    ensures
        parsed_options(seq![a]) == (OptionsView { no_pause: true, ..default_options_view() }),
{
    lemma_switch_words();
    lemma_lone_switch(a, Switch::NoPause);
}

/// `--pause`, in any letter case and as the only argument, asks for a pause
/// on exit (`pause_on_exit` is `true`) and leaves every other option at its
/// default.
pub proof fn lemma_pause_switch_alone(a: Seq<char>)
    requires
        lowercase(a) == "--pause"@,
    ensures
        parsed_options(seq![a]) == (OptionsView { pause_on_exit: true, ..default_options_view() }),
{
    lemma_switch_words();
    lemma_lone_switch(a, Switch::Pause);
}

/// `--no-color`, in any letter case and as the only argument, turns colored
/// output off (`no_color` is `true`) and leaves every other option at its
/// default.
pub proof fn lemma_no_color_switch_alone(a: Seq<char>)
    requires
        lowercase(a) == "--no-color"@,
    ensures
        parsed_options(seq![a]) == (OptionsView { no_color: true, ..default_options_view() }),
{
    lemma_switch_words();
    lemma_lone_switch(a, Switch::NoColor);
}

} // verus!
