//! The interactive component-selection wizard: its screen, how a typed
//! command is read, what each command toggles, and the execute
//! confirmation.

use vstd::prelude::*;
use crate::app::{is_enabled, EnabledMap};
use crate::components::{build_components, catalog, component_views};
use crate::text::{concat2, concat3, eq_str, lower_chars, lowercase};
use crate::types::{ComponentView, Options, OptionsView};
use crate::util::{atoi_prefix, atoi_seq, decimal_nat, push_decimal, trim, trim_seq};

verus! {

/// Banner shown when the wizard opens.
pub const MENU_INTRO: &'static str = "\nNVIDIA post-install debloater\nLogs will be written next to this executable.\nDry-run is recommended before destructive execution.\n\n";

/// Command help and prompt shown below the component list.
pub const MENU_COMMANDS: &'static str = "\nCommands:\n  number = toggle component\n  e = toggle execute/dry-run\n  k = toggle kill-lockers\n  s = toggle disable-services\n  d = toggle disable-scheduled-tasks\n  t = toggle delete-scheduled-tasks\n  r = toggle reboot-delete for locked files\n  c = toggle preserve NVIDIA containers\n  y = start\n  q = quit\n> ";

/// A command typed at the wizard prompt.
#[derive(Debug, PartialEq, Eq, Structural)]
pub enum MenuCommand {
    /// Blank input: show the menu again.
    Empty,
    Quit,
    Start,
    ToggleExecute,
    ToggleKillLockers,
    ToggleDisableServices,
    ToggleDisableTasks,
    ToggleDeleteTasks,
    ToggleRebootDelete,
    TogglePreserveContainers,
    /// Toggle the catalog component at this index (0-based).
    ToggleComponent(usize),
    /// Anything else: ignored.
    Unknown,
}

/// Reading of one input line: trimmed; a letter command in any case; else
/// a number from 1 to the number of components selects one.
pub open spec fn menu_command_spec(input: Seq<char>, n_components: nat) -> MenuCommand {
    let t = trim_seq(input);
    let low = lowercase(t);
    if t.len() == 0 {
        MenuCommand::Empty
    } else if low == "q"@ {
        MenuCommand::Quit
    } else if low == "y"@ {
        MenuCommand::Start
    } else if low == "e"@ {
        MenuCommand::ToggleExecute
    } else if low == "k"@ {
        MenuCommand::ToggleKillLockers
    } else if low == "s"@ {
        MenuCommand::ToggleDisableServices
    } else if low == "d"@ {
        MenuCommand::ToggleDisableTasks
    } else if low == "t"@ {
        MenuCommand::ToggleDeleteTasks
    } else if low == "r"@ {
        MenuCommand::ToggleRebootDelete
    } else if low == "c"@ {
        MenuCommand::TogglePreserveContainers
    } else if 1 <= atoi_seq(t) && atoi_seq(t) <= n_components {
        MenuCommand::ToggleComponent((atoi_seq(t) - 1) as usize)
    } else {
        MenuCommand::Unknown
    }
}

/// Reads one input line of the wizard.
pub fn menu_command(input: &str, n_components: usize) -> (r: MenuCommand)
    ensures
        r == menu_command_spec(input@, n_components as nat),
{
    let t = trim(input);
    let low = lower_chars(t.as_str());
    if t.as_str().is_empty() {
        MenuCommand::Empty
    } else if eq_str(&low, "q") {
        MenuCommand::Quit
    } else if eq_str(&low, "y") {
        MenuCommand::Start
    } else if eq_str(&low, "e") {
        MenuCommand::ToggleExecute
    } else if eq_str(&low, "k") {
        MenuCommand::ToggleKillLockers
    } else if eq_str(&low, "s") {
        MenuCommand::ToggleDisableServices
    } else if eq_str(&low, "d") {
        MenuCommand::ToggleDisableTasks
    } else if eq_str(&low, "t") {
        MenuCommand::ToggleDeleteTasks
    } else if eq_str(&low, "r") {
        MenuCommand::ToggleRebootDelete
    } else if eq_str(&low, "c") {
        MenuCommand::TogglePreserveContainers
    } else {
        let n = atoi_prefix(t.as_str());
        if n >= 1 && (n as u64) <= (n_components as u64) {
            MenuCommand::ToggleComponent((n - 1) as usize)
        } else {
            MenuCommand::Unknown
        }
    }
}

/// Options after a toggle command (other commands change nothing).
pub open spec fn toggled(o: OptionsView, cmd: MenuCommand) -> OptionsView {
    match cmd {
        MenuCommand::ToggleExecute => OptionsView { execute: !o.execute, ..o },
        MenuCommand::ToggleKillLockers => OptionsView { kill_lockers: !o.kill_lockers, ..o },
        MenuCommand::ToggleDisableServices => OptionsView { disable_services: !o.disable_services, ..o },
        MenuCommand::ToggleDisableTasks => OptionsView {
            disable_scheduled_tasks: !o.disable_scheduled_tasks,
            ..o
        },
        MenuCommand::ToggleDeleteTasks => OptionsView {
            delete_scheduled_tasks: !o.delete_scheduled_tasks,
            ..o
        },
        MenuCommand::ToggleRebootDelete => OptionsView {
            schedule_locked_for_reboot: !o.schedule_locked_for_reboot,
            ..o
        },
        MenuCommand::TogglePreserveContainers => OptionsView {
            preserve_nv_containers: !o.preserve_nv_containers,
            ..o
        },
        _ => o,
    }
}

fn toggle_execute(o: Options) -> (r: Options)
    ensures
        r@ == (OptionsView { execute: !o@.execute, ..o@ }),
{
    Options { execute: !o.execute, ..o }
}

fn toggle_kill_lockers(o: Options) -> (r: Options)
    ensures
        r@ == (OptionsView { kill_lockers: !o@.kill_lockers, ..o@ }),
{
    Options { kill_lockers: !o.kill_lockers, ..o }
}

fn toggle_disable_services(o: Options) -> (r: Options)
    ensures
        r@ == (OptionsView { disable_services: !o@.disable_services, ..o@ }),
{
    Options { disable_services: !o.disable_services, ..o }
}

fn toggle_disable_tasks(o: Options) -> (r: Options)
    ensures
        r@ == (OptionsView { disable_scheduled_tasks: !o@.disable_scheduled_tasks, ..o@ }),
{
    Options { disable_scheduled_tasks: !o.disable_scheduled_tasks, ..o }
}

fn toggle_delete_tasks(o: Options) -> (r: Options)
    ensures
        r@ == (OptionsView { delete_scheduled_tasks: !o@.delete_scheduled_tasks, ..o@ }),
{
    Options { delete_scheduled_tasks: !o.delete_scheduled_tasks, ..o }
}

fn toggle_reboot_delete(o: Options) -> (r: Options)
    ensures
        r@ == (OptionsView { schedule_locked_for_reboot: !o@.schedule_locked_for_reboot, ..o@ }),
{
    Options { schedule_locked_for_reboot: !o.schedule_locked_for_reboot, ..o }
}

fn toggle_preserve(o: Options) -> (r: Options)
    ensures
        r@ == (OptionsView { preserve_nv_containers: !o@.preserve_nv_containers, ..o@ }),
{
    Options { preserve_nv_containers: !o.preserve_nv_containers, ..o }
}

fn toggled_options(o: Options, cmd: &MenuCommand) -> (r: Options)
    ensures
        r@ == toggled(o@, *cmd),
{
    match cmd {
        MenuCommand::ToggleExecute => toggle_execute(o),
        MenuCommand::ToggleKillLockers => toggle_kill_lockers(o),
        MenuCommand::ToggleDisableServices => toggle_disable_services(o),
        MenuCommand::ToggleDisableTasks => toggle_disable_tasks(o),
        MenuCommand::ToggleDeleteTasks => toggle_delete_tasks(o),
        MenuCommand::ToggleRebootDelete => toggle_reboot_delete(o),
        MenuCommand::TogglePreserveContainers => toggle_preserve(o),
        _ => o,
    }
}

/// Selection after a command: a component toggle flips that catalog
/// component's entry when the selection has it; nothing else changes.
pub open spec fn toggled_selection(m: Map<Seq<char>, bool>, cmd: MenuCommand) -> Map<Seq<char>, bool> {
    match cmd {
        MenuCommand::ToggleComponent(i) => if i < catalog().len() && m.dom().contains(
            catalog()[i as int].key,
        ) {
            m.insert(catalog()[i as int].key, !m[catalog()[i as int].key])
        } else {
            m
        },
        _ => m,
    }
}

/// Applies a toggle command to the options and the selection.
pub fn apply_menu_command(opts: &mut Options, enabled: &mut EnabledMap, cmd: &MenuCommand)
    ensures
        final(opts)@ == toggled(old(opts)@, *cmd),
        final(enabled)@ == toggled_selection(old(enabled)@, *cmd),
{
    let mut tmp = Options::default();
    std::mem::swap(opts, &mut tmp);
    *opts = toggled_options(tmp, cmd);
    if let MenuCommand::ToggleComponent(i) = cmd {
        let comps = build_components();
        proof {
            assert(component_views(comps@) == catalog());
            assert(comps@.len() == catalog().len());
        }
        if *i < comps.len() {
            let key = &comps[*i];
            assert(key@ == catalog()[*i as int]);
            match enabled.get(key.key.as_str()) {
                Some(v) => enabled.insert(key.key.as_str(), !v),
                None => {},
            }
        }
    }
}

/// The typed confirmation of an execute run: exactly `EXECUTE` after
/// trimming; closed input does not confirm.
pub fn execute_confirmed(line: Option<&str>) -> (r: bool)
    ensures
        r == match line {
            Some(l) => trim_seq(l@) == "EXECUTE"@,
            None => false,
        },
{
    match line {
        Some(l) => {
            let t = crate::text::chars_of(trim(l).as_str());
            eq_str(&t, "EXECUTE")
        },
        None => false,
    }
}

/// `yes` or `no`.
pub open spec fn yes_no(b: bool) -> Seq<char> {
    if b {
        "yes"@
    } else {
        "no"@
    }
}

fn yes_no_str(b: bool) -> (r: &'static str)
    ensures
        r@ == yes_no(b),
{
    if b {
        "yes"
    } else {
        "no"
    }
}

/// Status lines shown above the component list.
pub open spec fn menu_status(o: OptionsView) -> Seq<char> {
    "Mode: "@ + (if o.execute {
        "EXECUTE"@
    } else {
        "DRY RUN"@
    }) + "\n"@ + "Preserve NVIDIA Container processes: "@ + yes_no(o.preserve_nv_containers) + "\n"@
        + "Kill lockers: "@ + yes_no(o.kill_lockers) + "\n"@ + "Disable services: "@ + yes_no(
        o.disable_services,
    ) + "\n"@ + "Disable scheduled tasks: "@ + yes_no(o.disable_scheduled_tasks) + "\n"@
        + "Delete scheduled tasks: "@ + yes_no(o.delete_scheduled_tasks) + "\n"@
        + "Schedule locked files for reboot deletion: "@ + yes_no(o.schedule_locked_for_reboot)
        + "\n\n"@
}

/// The status lines of the menu screen.
pub fn menu_status_text(opts: &Options) -> (r: String)
    ensures
        r@ == menu_status(opts@),
{
    let a = concat3(
        "Mode: ",
        if opts.execute {
            "EXECUTE"
        } else {
            "DRY RUN"
        },
        "\n",
    );
    let a = concat3(a.as_str(), "Preserve NVIDIA Container processes: ", yes_no_str(opts.preserve_nv_containers));
    let a = concat3(a.as_str(), "\n", "Kill lockers: ");
    let a = concat3(a.as_str(), yes_no_str(opts.kill_lockers), "\n");
    let a = concat3(a.as_str(), "Disable services: ", yes_no_str(opts.disable_services));
    let a = concat3(a.as_str(), "\n", "Disable scheduled tasks: ");
    let a = concat3(a.as_str(), yes_no_str(opts.disable_scheduled_tasks), "\n");
    let a = concat3(a.as_str(), "Delete scheduled tasks: ", yes_no_str(opts.delete_scheduled_tasks));
    let a = concat3(a.as_str(), "\n", "Schedule locked files for reboot deletion: ");
    let a = concat3(a.as_str(), yes_no_str(opts.schedule_locked_for_reboot), "\n\n");
    assert(a@ =~= menu_status(opts@));
    a
}

/// `n` right-aligned in two columns.
pub open spec fn two_columns(n: nat) -> Seq<char> {
    if decimal_nat(n).len() < 2 {
        " "@ + decimal_nat(n)
    } else {
        decimal_nat(n)
    }
}

/// One component line of the menu: number, mark, key, display name and an
/// optional marker.
pub open spec fn menu_component_line(number: nat, c: ComponentView, on: bool) -> Seq<char> {
    two_columns(number) + ") ["@ + (if on {
        "x"@
    } else {
        " "@
    }) + "] "@ + c.key + " - "@ + c.display_name + (if c.optional {
        " (optional)"@
    } else {
        Seq::empty()
    }) + "\n"@
}

/// The component lines of the first `n` catalog entries.
pub open spec fn menu_components(m: Map<Seq<char>, bool>, n: nat) -> Seq<char>
    decreases n,
{
    if n == 0 {
        Seq::empty()
    } else {
        let c = catalog()[n - 1];
        menu_components(m, (n - 1) as nat) + menu_component_line(n, c, is_enabled(m, c.key))
    }
}

/// The component list of the menu screen.
pub fn menu_components_text(enabled: &EnabledMap) -> (r: String)
    ensures
        r@ == menu_components(enabled@, catalog().len()),
{
    let comps = build_components();
    let ghost cs = component_views(comps@);
    let mut out = String::new();
    let mut i: usize = 0;
    while i < comps.len()
        invariant
            i <= comps.len(),
            cs == component_views(comps@),
            cs == catalog(),
            out@ == menu_components(enabled@, i as nat),
        decreases comps.len() - i,
    {
        let c = &comps[i];
        assert(cs[i as int] == c@);
        let on = match enabled.get(c.key.as_str()) {
            Some(v) => v,
            None => false,
        };
        let mut num = String::new();
        push_decimal(&mut num, (i + 1) as u64);
        assert(num@ =~= decimal_nat((i + 1) as nat));
        let ncol = if crate::text::chars_of(num.as_str()).len() < 2 {
            concat2(" ", num.as_str())
        } else {
            num
        };
        let a = concat3(
            ncol.as_str(),
            ") [",
            if on {
                "x"
            } else {
                " "
            },
        );
        let b = concat3(a.as_str(), "] ", c.key.as_str());
        let d = concat3(b.as_str(), " - ", c.display_name.as_str());
        let e = concat3(
            d.as_str(),
            if c.optional {
                " (optional)"
            } else {
                ""
            },
            "\n",
        );
        proof {
            reveal_strlit("");
        }
        assert(e@ =~= menu_component_line((i + 1) as nat, c@, is_enabled(enabled@, c@.key)));
        out = concat2(out.as_str(), e.as_str());
        i = i + 1;
    }
    out
}

} // verus!
