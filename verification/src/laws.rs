//! Properties of the library as a whole: what no selection, switch or
//! input can make it do, and what one operation undoes or keeps.

use vstd::prelude::*;
use crate::actions::{
    locker_plan, plan_of, process_plan_spec, service_label, service_plan_spec, service_stage_plan, task_plan_spec,
    PlanView,
};
use crate::targets::{explicitly_killable, strong_nvidia_context};
use crate::app::{is_enabled, lex_lt, strictly_sorted};
use crate::components::catalog;
use crate::deletion::{delete_step_spec, unsafe_recursive, DeleteStep};
use crate::matching::{
    matched_component_index, named_target_key, nvidia_context, preserved_container, process_decision,
    process_key, resolve_view, service_decision, task_decision, DecisionView,
};
use crate::menu::{toggled, toggled_selection, MenuCommand};
use crate::options::{apply_action, arg_action, arg_width, parse_from, parsed_options, initial_options, TI_WAIT_MAX_SECS, TI_WAIT_MIN_SECS, apply_wait, apply_switch, ArgActionView};
use crate::report::{check_count, not_attempted, pending_reboot};
use crate::types::{ActionView, ComponentView, OptionsView};
use crate::options::{initial_enabled, selection_of, Switch};
use crate::tasksched::wait_decision;
use crate::handoff::{lemma_forwarded_choices_read_back, plain_key, reads_back_choices};
use crate::text::{all_ascii, ascii_lower, lowercase};

verus! {

// ---------------------------------------------------------------------------
// Component selection is authoritative
// ---------------------------------------------------------------------------

/// A decision allows changes on behalf of a component only when that
/// component is selected.
pub proof fn lemma_allowed_only_if_selected(key: Seq<char>, m: Map<Seq<char>, bool>)
    ensures
        resolve_view(key, m) matches DecisionView::Allowed(c) ==> is_enabled(m, c.key),
        resolve_view(key, m) matches DecisionView::ComponentDisabled(c) ==> !is_enabled(m, c.key),
{
}

/// A plan acts or dry-runs only on behalf of a selected component, and a
/// deselected component's target is only ever recorded as skipped.
pub proof fn lemma_plans_follow_selection(d: DecisionView, m: Map<Seq<char>, bool>, execute: bool)
    requires
        d matches DecisionView::Allowed(c) ==> is_enabled(m, c.key),
        d matches DecisionView::ComponentDisabled(c) ==> !is_enabled(m, c.key),
    ensures
        plan_of(d, execute) matches PlanView::Act(k) ==> is_enabled(m, k),
        plan_of(d, execute) matches PlanView::DryRun(k) ==> is_enabled(m, k),
        plan_of(d, execute) matches PlanView::Skip(k) ==> !is_enabled(m, k),
{
}

/// No service, scheduled task or process is changed or dry-run on behalf
/// of a deselected component.
pub proof fn lemma_targets_follow_selection(
    name: Seq<char>,
    display: Seq<char>,
    m: Map<Seq<char>, bool>,
    preserve: bool,
    execute: bool,
)
    ensures
        service_plan_spec(name, display, m, preserve, execute) matches PlanView::Act(k)
            ==> is_enabled(m, k),
        service_plan_spec(name, display, m, preserve, execute) matches PlanView::DryRun(k)
            ==> is_enabled(m, k),
        task_plan_spec(name, m, execute) matches PlanView::Act(k) ==> is_enabled(m, k),
        task_plan_spec(name, m, execute) matches PlanView::DryRun(k) ==> is_enabled(m, k),
        process_plan_spec(name, m, preserve, execute) matches PlanView::Act(k) ==> is_enabled(m, k),
        process_plan_spec(name, m, preserve, execute) matches PlanView::DryRun(k) ==> is_enabled(
            m,
            k,
        ),
{
    match crate::matching::named_target_key(name + seq![' '] + display) {
        Some(k) => lemma_allowed_only_if_selected(k, m),
        None => {},
    }
    match crate::matching::named_target_key(name) {
        Some(k) => lemma_allowed_only_if_selected(k, m),
        None => {},
    }
    match crate::matching::process_key(name) {
        Some(k) => lemma_allowed_only_if_selected(k, m),
        None => {},
    }
}

/// Unknown targets fail closed: a service is planned at all only with a
/// strong NVIDIA anchor in its label, NVIDIA context in its name and display
/// name, and a component term; a scheduled task only with a strong anchor,
/// NVIDIA context and a component term in its name; a process only when its
/// basename is one of the explicitly killable names and names a component.
pub proof fn lemma_targets_need_anchor(
    name: Seq<char>,
    display: Seq<char>,
    m: Map<Seq<char>, bool>,
    preserve: bool,
    execute: bool,
)
    ensures
        !(service_plan_spec(name, display, m, preserve, execute) is Ignore) ==> {
            &&& strong_nvidia_context(service_label(name, display))
            &&& nvidia_context(name + seq![' '] + display)
            &&& named_target_key(name + seq![' '] + display) is Some
        },
        !(task_plan_spec(name, m, execute) is Ignore) ==> {
            &&& strong_nvidia_context(name)
            &&& nvidia_context(name)
            &&& named_target_key(name) is Some
        },
        !(process_plan_spec(name, m, preserve, execute) is Ignore) ==> explicitly_killable(name)
            && process_key(name) is Some,
{
}

/// Stages act only when asked: without `--kill-lockers` no process is
/// stopped or dry-run, and without any service operation no service is
/// touched; when a stage runs, its plans are the target plans, so every law
/// on those plans holds of the stage.
pub proof fn lemma_stages_follow_switches(
    name: Seq<char>,
    display: Seq<char>,
    m: Map<Seq<char>, bool>,
    preserve: bool,
    execute: bool,
    kill_lockers: bool,
    disable: bool,
    delete: bool,
)
    ensures
        !kill_lockers ==> locker_plan(name, m, preserve, execute, kill_lockers) == PlanView::Ignore,
        kill_lockers ==> locker_plan(name, m, preserve, execute, kill_lockers) == process_plan_spec(
            name,
            m,
            preserve,
            execute,
        ),
        !(kill_lockers || disable || delete) ==> service_stage_plan(
            name,
            display,
            m,
            preserve,
            execute,
            kill_lockers,
            disable,
            delete,
        ) == PlanView::Ignore,
        (kill_lockers || disable || delete) ==> service_stage_plan(
            name,
            display,
            m,
            preserve,
            execute,
            kill_lockers,
            disable,
            delete,
        ) == service_plan_spec(name, display, m, preserve, execute),
{
}

/// A path is claimed only by a selected component.
pub proof fn lemma_paths_follow_selection(p: Seq<char>, m: Map<Seq<char>, bool>)
    ensures
        matched_component_index(p, m) == -1 || (0 <= matched_component_index(p, m) < catalog().len()
            && is_enabled(m, catalog()[matched_component_index(p, m)].key)),
{
    if !crate::matching::excluded_candidate(p, m) {
        crate::matching::lemma_first_hit_bounds(
            catalog(),
            m,
            crate::winpath::leaf_of(p),
            p,
            0,
        );
    }
}

// ---------------------------------------------------------------------------
// Preserved containers
// ---------------------------------------------------------------------------

/// While preservation is on, an NVIDIA display container is never a
/// target: not as a process, not as a service.
pub proof fn lemma_preserved_containers_untouched(
    name: Seq<char>,
    display: Seq<char>,
    m: Map<Seq<char>, bool>,
    execute: bool,
)
    ensures
        preserved_container(name) ==> process_plan_spec(name, m, true, execute) == PlanView::Ignore,
        preserved_container(name + seq![' '] + display) ==> service_plan_spec(
            name,
            display,
            m,
            true,
            execute,
        ) == PlanView::Ignore,
{
}

// ---------------------------------------------------------------------------
// Dry runs change nothing
// ---------------------------------------------------------------------------

/// Without `--execute` no plan changes anything and no path is deleted.
pub proof fn lemma_dry_run_changes_nothing(
    d: DecisionView,
    abort: bool,
    missing: bool,
    unsafe_target: bool,
)
    ensures
        !(plan_of(d, false) is Act),
        delete_step_spec(abort, missing, unsafe_target, false) != DeleteStep::Delete,
{
}

/// A path is deleted only when no abort was requested, it is not known to
/// be gone, it is not an unsafe recursive target, and the run executes.
pub proof fn lemma_delete_only_after_safety_checks(
    abort: bool,
    missing: bool,
    unsafe_target: bool,
    execute: bool,
)
    ensures
        delete_step_spec(abort, missing, unsafe_target, execute) == DeleteStep::Delete <==> (!abort
            && !missing && !unsafe_target && execute),
{
}

/// Files are never unsafe recursive targets; a DriverStore package root
/// always is.
pub proof fn lemma_package_roots_blocked(full: Seq<char>, parent: Seq<char>, leaf: Seq<char>)
    ensures
        !unsafe_recursive(false, full, parent, leaf),
        crate::text::contains_seq(parent, "\\windows\\system32\\driverstore\\filerepository"@)
            && crate::matching::inf_arch_marker(leaf) ==> unsafe_recursive(true, full, parent, leaf),
{
}

// ---------------------------------------------------------------------------
// Command-line invariants
// ---------------------------------------------------------------------------

/// One parsing step keeps the wait bound in its range and never drops a
/// recorded problem.
#[verifier::spinoff_prover]
proof fn lemma_action_keeps(o: OptionsView, act: ArgActionView)
    requires
        TI_WAIT_MIN_SECS <= o.ti_wait_seconds <= TI_WAIT_MAX_SECS,
    ensures
        TI_WAIT_MIN_SECS <= apply_action(o, act).ti_wait_seconds <= TI_WAIT_MAX_SECS,
        apply_action(o, act).unknown_args.len() >= o.unknown_args.len(),
        apply_action(o, act).unknown_args.take(o.unknown_args.len() as int) == o.unknown_args,
{
    let r = apply_action(o, act);
    match act {
        ArgActionView::Wait(raw) => {
            match crate::json::parse_i64(raw) {
                Some(v) => {
                    assert(r.unknown_args == o.unknown_args);
                },
                None => {
                    assert(r.unknown_args == o.unknown_args.push(crate::options::ti_wait_problem(raw)));
                },
            }
        },
        _ => {},
    }
    assert(r.unknown_args.take(o.unknown_args.len() as int) =~= o.unknown_args);
}

/// Parsing from any state with the wait bound in range keeps it in range
/// and keeps every problem already recorded, in order.
pub proof fn lemma_parse_keeps(args: Seq<Seq<char>>, i: nat, o: OptionsView)
    requires
        TI_WAIT_MIN_SECS <= o.ti_wait_seconds <= TI_WAIT_MAX_SECS,
    ensures
        TI_WAIT_MIN_SECS <= parse_from(args, i, o).ti_wait_seconds <= TI_WAIT_MAX_SECS,
        parse_from(args, i, o).unknown_args.len() >= o.unknown_args.len(),
        parse_from(args, i, o).unknown_args.take(o.unknown_args.len() as int) == o.unknown_args,
    decreases args.len() - i,
{
    if i < args.len() {
        let o2 = apply_action(o, arg_action(args, i as int));
        lemma_action_keeps(o, arg_action(args, i as int));
        lemma_parse_keeps(args, i + arg_width(args, i as int), o2);
        let r = parse_from(args, i + arg_width(args, i as int), o2);
        assert(r.unknown_args.take(o.unknown_args.len() as int) =~= r.unknown_args.take(
            o2.unknown_args.len() as int,
        ).take(o.unknown_args.len() as int));
    }
}

/// An argument that asks for execute mode, in any letter case.
pub open spec fn asks_execute(a: Seq<char>) -> bool {
    lowercase(a) == "--execute"@ || lowercase(a) == "-execute"@
}

/// Parsing on from `i` turns execute mode on only when it was on already or
/// an argument from `i` on asks for it.
proof fn lemma_execute_from(args: Seq<Seq<char>>, i: nat, o: OptionsView)
    ensures
        parse_from(args, i, o).execute ==> o.execute || exists|j: int|
            i <= j < args.len() && #[trigger] asks_execute(args[j]),
    decreases args.len() - i,
{
    if i < args.len() {
        let act = arg_action(args, i as int);
        let o2 = apply_action(o, act);
        lemma_execute_from(args, i + arg_width(args, i as int), o2);
        if o2.execute && !o.execute {
            assert(act == ArgActionView::Switch(Switch::Execute));
            assert(asks_execute(args[i as int]));
        }
    }
}

/// A command line with arguments runs dry unless one of them asks for
/// execute mode: `--execute` (or `-execute`), in any letter case.
pub proof fn lemma_dry_run_by_default(args: Seq<Seq<char>>)
    requires
        args.len() > 0,
    ensures
        parsed_options(args).execute ==> exists|j: int|
            0 <= j < args.len() && #[trigger] asks_execute(args[j]),
{
    lemma_execute_from(args, 0, initial_options(args.len()));
}

/// Whatever the command line, the TrustedInstaller wait bound ends up
/// between 15 and 7200 seconds.
pub proof fn lemma_parsed_wait_in_range(args: Seq<Seq<char>>)
    ensures
        TI_WAIT_MIN_SECS <= parsed_options(args).ti_wait_seconds <= TI_WAIT_MAX_SECS,
{
    lemma_parse_keeps(args, 0, initial_options(args.len()));
}

/// An argument that is unknown, a malformed boolean, a flag-like value or a
/// wait value that is not a whole integer is never silently dropped: once recorded, a
/// problem stays in the rejected arguments to the end of the parse, so
/// execute mode refuses the run.
pub proof fn lemma_problem_recorded(args: Seq<Seq<char>>, i: nat, o: OptionsView)
    requires
        i < args.len(),
        TI_WAIT_MIN_SECS <= o.ti_wait_seconds <= TI_WAIT_MAX_SECS,
        apply_action(o, arg_action(args, i as int)).unknown_args.len() > o.unknown_args.len(),
    ensures
        parse_from(args, i, o).unknown_args.len() > 0,
{
    let o2 = apply_action(o, arg_action(args, i as int));
    lemma_action_keeps(o, arg_action(args, i as int));
    lemma_parse_keeps(args, i + arg_width(args, i as int), o2);
}

// ---------------------------------------------------------------------------
// Menu toggles
// ---------------------------------------------------------------------------

proof fn lemma_twice_toggleexecute(o: OptionsView)
    ensures
        toggled(toggled(o, MenuCommand::ToggleExecute), MenuCommand::ToggleExecute) == o,
{
}

proof fn lemma_twice_togglekilllockers(o: OptionsView)
    ensures
        toggled(toggled(o, MenuCommand::ToggleKillLockers), MenuCommand::ToggleKillLockers) == o,
{
}

proof fn lemma_twice_toggledisableservices(o: OptionsView)
    ensures
        toggled(toggled(o, MenuCommand::ToggleDisableServices), MenuCommand::ToggleDisableServices) == o,
{
}

proof fn lemma_twice_toggledisabletasks(o: OptionsView)
    ensures
        toggled(toggled(o, MenuCommand::ToggleDisableTasks), MenuCommand::ToggleDisableTasks) == o,
{
}

proof fn lemma_twice_toggledeletetasks(o: OptionsView)
    ensures
        toggled(toggled(o, MenuCommand::ToggleDeleteTasks), MenuCommand::ToggleDeleteTasks) == o,
{
}

proof fn lemma_twice_togglerebootdelete(o: OptionsView)
    ensures
        toggled(toggled(o, MenuCommand::ToggleRebootDelete), MenuCommand::ToggleRebootDelete) == o,
{
}

proof fn lemma_twice_togglepreservecontainers(o: OptionsView)
    ensures
        toggled(toggled(o, MenuCommand::TogglePreserveContainers), MenuCommand::TogglePreserveContainers) == o,
{
}

/// Toggling the same setting twice restores the options and the selection.
pub proof fn lemma_menu_toggle_twice(o: OptionsView, m: Map<Seq<char>, bool>, cmd: MenuCommand)
    ensures
        toggled(toggled(o, cmd), cmd) == o,
        toggled_selection(toggled_selection(m, cmd), cmd) == m,
{
    match cmd {
        MenuCommand::ToggleExecute => lemma_twice_toggleexecute(o),
        MenuCommand::ToggleKillLockers => lemma_twice_togglekilllockers(o),
        MenuCommand::ToggleDisableServices => lemma_twice_toggledisableservices(o),
        MenuCommand::ToggleDisableTasks => lemma_twice_toggledisabletasks(o),
        MenuCommand::ToggleDeleteTasks => lemma_twice_toggledeletetasks(o),
        MenuCommand::ToggleRebootDelete => lemma_twice_togglerebootdelete(o),
        MenuCommand::TogglePreserveContainers => lemma_twice_togglepreservecontainers(o),
        MenuCommand::ToggleComponent(i) => {
            if i < catalog().len() && m.dom().contains(catalog()[i as int].key) {
                let k = catalog()[i as int].key;
                assert(m.insert(k, !m[k]).insert(k, !m.insert(k, !m[k])[k]) =~= m);
            }
        },
        _ => {},
    }
}

// ---------------------------------------------------------------------------
// Post-run check
// ---------------------------------------------------------------------------

/// Paths waiting for a reboot and paths not attempted in a dry run are
/// disjoint groups of the paths that still exist.
pub proof fn lemma_post_run_counts(
    actions: Seq<ActionView>,
    paths: Seq<Seq<char>>,
    exists: Seq<bool>,
    execute: bool,
    n: nat,
)
    ensures
        check_count(actions, paths, exists, execute, 1, n) + check_count(
            actions,
            paths,
            exists,
            execute,
            2,
            n,
        ) <= check_count(actions, paths, exists, execute, 0, n),
    decreases n,
{
    if n > 0 {
        lemma_post_run_counts(actions, paths, exists, execute, (n - 1) as nat);
    }
}


/// The catalog keys are pairwise different.
proof fn lemma_catalog_keys_distinct()
    ensures
        forall|i: int, j: int|
            0 <= i < j < catalog().len() ==> #[trigger] catalog()[i].key != #[trigger] catalog()[j].key,
{
    reveal_strlit("Telemetry");
    reveal_strlit("UpdateAndProfileUpdater");
    reveal_strlit("Installer2Cache");
    reveal_strlit("GeForceExperienceAndNvidiaApp");
    reveal_strlit("ShadowPlayShare");
    reveal_strlit("CaptureSDK");
    reveal_strlit("AnselCamera");
    reveal_strlit("FrameView");
    reveal_strlit("Shield");
    reveal_strlit("VirtualAudio");
    reveal_strlit("USBTypeC");
    reveal_strlit("Legacy3DVisionVR");
    reveal_strlit("NvWMI");
    reveal_strlit("NGX");
    reveal_strlit("HDAudio");
    reveal_strlit("PhysX");
    reveal_strlit("NotebookOptimus");
    assert(catalog()[0].key == "Telemetry"@);
    assert(catalog()[1].key == "UpdateAndProfileUpdater"@);
    assert(catalog()[2].key == "Installer2Cache"@);
    assert(catalog()[3].key == "GeForceExperienceAndNvidiaApp"@);
    assert(catalog()[4].key == "ShadowPlayShare"@);
    assert(catalog()[5].key == "CaptureSDK"@);
    assert(catalog()[6].key == "AnselCamera"@);
    assert(catalog()[7].key == "FrameView"@);
    assert(catalog()[8].key == "Shield"@);
    assert(catalog()[9].key == "VirtualAudio"@);
    assert(catalog()[10].key == "USBTypeC"@);
    assert(catalog()[11].key == "Legacy3DVisionVR"@);
    assert(catalog()[12].key == "NvWMI"@);
    assert(catalog()[13].key == "NGX"@);
    assert(catalog()[14].key == "HDAudio"@);
    assert(catalog()[15].key == "PhysX"@);
    assert(catalog()[16].key == "NotebookOptimus"@);
    assert forall|i: int, j: int| 0 <= i < j < catalog().len() implies #[trigger] catalog()[i].key
        != #[trigger] catalog()[j].key by {
        if i == 0 && j == 1 {
            assert("Telemetry"@.len() != "UpdateAndProfileUpdater"@.len());
        } else if i == 0 && j == 2 {
            assert("Telemetry"@.len() != "Installer2Cache"@.len());
        } else if i == 0 && j == 3 {
            assert("Telemetry"@.len() != "GeForceExperienceAndNvidiaApp"@.len());
        } else if i == 0 && j == 4 {
            assert("Telemetry"@.len() != "ShadowPlayShare"@.len());
        } else if i == 0 && j == 5 {
            assert("Telemetry"@.len() != "CaptureSDK"@.len());
        } else if i == 0 && j == 6 {
            assert("Telemetry"@.len() != "AnselCamera"@.len());
        } else if i == 0 && j == 7 {
            assert("Telemetry"@[0] != "FrameView"@[0]);
        } else if i == 0 && j == 8 {
            assert("Telemetry"@.len() != "Shield"@.len());
        } else if i == 0 && j == 9 {
            assert("Telemetry"@.len() != "VirtualAudio"@.len());
        } else if i == 0 && j == 10 {
            assert("Telemetry"@.len() != "USBTypeC"@.len());
        } else if i == 0 && j == 11 {
            assert("Telemetry"@.len() != "Legacy3DVisionVR"@.len());
        } else if i == 0 && j == 12 {
            assert("Telemetry"@.len() != "NvWMI"@.len());
        } else if i == 0 && j == 13 {
            assert("Telemetry"@.len() != "NGX"@.len());
        } else if i == 0 && j == 14 {
            assert("Telemetry"@.len() != "HDAudio"@.len());
        } else if i == 0 && j == 15 {
            assert("Telemetry"@.len() != "PhysX"@.len());
        } else if i == 0 && j == 16 {
            assert("Telemetry"@.len() != "NotebookOptimus"@.len());
        } else if i == 1 && j == 2 {
            assert("UpdateAndProfileUpdater"@.len() != "Installer2Cache"@.len());
        } else if i == 1 && j == 3 {
            assert("UpdateAndProfileUpdater"@.len() != "GeForceExperienceAndNvidiaApp"@.len());
        } else if i == 1 && j == 4 {
            assert("UpdateAndProfileUpdater"@.len() != "ShadowPlayShare"@.len());
        } else if i == 1 && j == 5 {
            assert("UpdateAndProfileUpdater"@.len() != "CaptureSDK"@.len());
        } else if i == 1 && j == 6 {
            assert("UpdateAndProfileUpdater"@.len() != "AnselCamera"@.len());
        } else if i == 1 && j == 7 {
            assert("UpdateAndProfileUpdater"@.len() != "FrameView"@.len());
        } else if i == 1 && j == 8 {
            assert("UpdateAndProfileUpdater"@.len() != "Shield"@.len());
        } else if i == 1 && j == 9 {
            assert("UpdateAndProfileUpdater"@.len() != "VirtualAudio"@.len());
        } else if i == 1 && j == 10 {
            assert("UpdateAndProfileUpdater"@.len() != "USBTypeC"@.len());
        } else if i == 1 && j == 11 {
            assert("UpdateAndProfileUpdater"@.len() != "Legacy3DVisionVR"@.len());
        } else if i == 1 && j == 12 {
            assert("UpdateAndProfileUpdater"@.len() != "NvWMI"@.len());
        } else if i == 1 && j == 13 {
            assert("UpdateAndProfileUpdater"@.len() != "NGX"@.len());
        } else if i == 1 && j == 14 {
            assert("UpdateAndProfileUpdater"@.len() != "HDAudio"@.len());
        } else if i == 1 && j == 15 {
            assert("UpdateAndProfileUpdater"@.len() != "PhysX"@.len());
        } else if i == 1 && j == 16 {
            assert("UpdateAndProfileUpdater"@.len() != "NotebookOptimus"@.len());
        } else if i == 2 && j == 3 {
            assert("Installer2Cache"@.len() != "GeForceExperienceAndNvidiaApp"@.len());
        } else if i == 2 && j == 4 {
            assert("Installer2Cache"@[0] != "ShadowPlayShare"@[0]);
        } else if i == 2 && j == 5 {
            assert("Installer2Cache"@.len() != "CaptureSDK"@.len());
        } else if i == 2 && j == 6 {
            assert("Installer2Cache"@.len() != "AnselCamera"@.len());
        } else if i == 2 && j == 7 {
            assert("Installer2Cache"@.len() != "FrameView"@.len());
        } else if i == 2 && j == 8 {
            assert("Installer2Cache"@.len() != "Shield"@.len());
        } else if i == 2 && j == 9 {
            assert("Installer2Cache"@.len() != "VirtualAudio"@.len());
        } else if i == 2 && j == 10 {
            assert("Installer2Cache"@.len() != "USBTypeC"@.len());
        } else if i == 2 && j == 11 {
            assert("Installer2Cache"@.len() != "Legacy3DVisionVR"@.len());
        } else if i == 2 && j == 12 {
            assert("Installer2Cache"@.len() != "NvWMI"@.len());
        } else if i == 2 && j == 13 {
            assert("Installer2Cache"@.len() != "NGX"@.len());
        } else if i == 2 && j == 14 {
            assert("Installer2Cache"@.len() != "HDAudio"@.len());
        } else if i == 2 && j == 15 {
            assert("Installer2Cache"@.len() != "PhysX"@.len());
        } else if i == 2 && j == 16 {
            assert("Installer2Cache"@[0] != "NotebookOptimus"@[0]);
        } else if i == 3 && j == 4 {
            assert("GeForceExperienceAndNvidiaApp"@.len() != "ShadowPlayShare"@.len());
        } else if i == 3 && j == 5 {
            assert("GeForceExperienceAndNvidiaApp"@.len() != "CaptureSDK"@.len());
        } else if i == 3 && j == 6 {
            assert("GeForceExperienceAndNvidiaApp"@.len() != "AnselCamera"@.len());
        } else if i == 3 && j == 7 {
            assert("GeForceExperienceAndNvidiaApp"@.len() != "FrameView"@.len());
        } else if i == 3 && j == 8 {
            assert("GeForceExperienceAndNvidiaApp"@.len() != "Shield"@.len());
        } else if i == 3 && j == 9 {
            assert("GeForceExperienceAndNvidiaApp"@.len() != "VirtualAudio"@.len());
        } else if i == 3 && j == 10 {
            assert("GeForceExperienceAndNvidiaApp"@.len() != "USBTypeC"@.len());
        } else if i == 3 && j == 11 {
            assert("GeForceExperienceAndNvidiaApp"@.len() != "Legacy3DVisionVR"@.len());
        } else if i == 3 && j == 12 {
            assert("GeForceExperienceAndNvidiaApp"@.len() != "NvWMI"@.len());
        } else if i == 3 && j == 13 {
            assert("GeForceExperienceAndNvidiaApp"@.len() != "NGX"@.len());
        } else if i == 3 && j == 14 {
            assert("GeForceExperienceAndNvidiaApp"@.len() != "HDAudio"@.len());
        } else if i == 3 && j == 15 {
            assert("GeForceExperienceAndNvidiaApp"@.len() != "PhysX"@.len());
        } else if i == 3 && j == 16 {
            assert("GeForceExperienceAndNvidiaApp"@.len() != "NotebookOptimus"@.len());
        } else if i == 4 && j == 5 {
            assert("ShadowPlayShare"@.len() != "CaptureSDK"@.len());
        } else if i == 4 && j == 6 {
            assert("ShadowPlayShare"@.len() != "AnselCamera"@.len());
        } else if i == 4 && j == 7 {
            assert("ShadowPlayShare"@.len() != "FrameView"@.len());
        } else if i == 4 && j == 8 {
            assert("ShadowPlayShare"@.len() != "Shield"@.len());
        } else if i == 4 && j == 9 {
            assert("ShadowPlayShare"@.len() != "VirtualAudio"@.len());
        } else if i == 4 && j == 10 {
            assert("ShadowPlayShare"@.len() != "USBTypeC"@.len());
        } else if i == 4 && j == 11 {
            assert("ShadowPlayShare"@.len() != "Legacy3DVisionVR"@.len());
        } else if i == 4 && j == 12 {
            assert("ShadowPlayShare"@.len() != "NvWMI"@.len());
        } else if i == 4 && j == 13 {
            assert("ShadowPlayShare"@.len() != "NGX"@.len());
        } else if i == 4 && j == 14 {
            assert("ShadowPlayShare"@.len() != "HDAudio"@.len());
        } else if i == 4 && j == 15 {
            assert("ShadowPlayShare"@.len() != "PhysX"@.len());
        } else if i == 4 && j == 16 {
            assert("ShadowPlayShare"@[0] != "NotebookOptimus"@[0]);
        } else if i == 5 && j == 6 {
            assert("CaptureSDK"@.len() != "AnselCamera"@.len());
        } else if i == 5 && j == 7 {
            assert("CaptureSDK"@.len() != "FrameView"@.len());
        } else if i == 5 && j == 8 {
            assert("CaptureSDK"@.len() != "Shield"@.len());
        } else if i == 5 && j == 9 {
            assert("CaptureSDK"@.len() != "VirtualAudio"@.len());
        } else if i == 5 && j == 10 {
            assert("CaptureSDK"@.len() != "USBTypeC"@.len());
        } else if i == 5 && j == 11 {
            assert("CaptureSDK"@.len() != "Legacy3DVisionVR"@.len());
        } else if i == 5 && j == 12 {
            assert("CaptureSDK"@.len() != "NvWMI"@.len());
        } else if i == 5 && j == 13 {
            assert("CaptureSDK"@.len() != "NGX"@.len());
        } else if i == 5 && j == 14 {
            assert("CaptureSDK"@.len() != "HDAudio"@.len());
        } else if i == 5 && j == 15 {
            assert("CaptureSDK"@.len() != "PhysX"@.len());
        } else if i == 5 && j == 16 {
            assert("CaptureSDK"@.len() != "NotebookOptimus"@.len());
        } else if i == 6 && j == 7 {
            assert("AnselCamera"@.len() != "FrameView"@.len());
        } else if i == 6 && j == 8 {
            assert("AnselCamera"@.len() != "Shield"@.len());
        } else if i == 6 && j == 9 {
            assert("AnselCamera"@.len() != "VirtualAudio"@.len());
        } else if i == 6 && j == 10 {
            assert("AnselCamera"@.len() != "USBTypeC"@.len());
        } else if i == 6 && j == 11 {
            assert("AnselCamera"@.len() != "Legacy3DVisionVR"@.len());
        } else if i == 6 && j == 12 {
            assert("AnselCamera"@.len() != "NvWMI"@.len());
        } else if i == 6 && j == 13 {
            assert("AnselCamera"@.len() != "NGX"@.len());
        } else if i == 6 && j == 14 {
            assert("AnselCamera"@.len() != "HDAudio"@.len());
        } else if i == 6 && j == 15 {
            assert("AnselCamera"@.len() != "PhysX"@.len());
        } else if i == 6 && j == 16 {
            assert("AnselCamera"@.len() != "NotebookOptimus"@.len());
        } else if i == 7 && j == 8 {
            assert("FrameView"@.len() != "Shield"@.len());
        } else if i == 7 && j == 9 {
            assert("FrameView"@.len() != "VirtualAudio"@.len());
        } else if i == 7 && j == 10 {
            assert("FrameView"@.len() != "USBTypeC"@.len());
        } else if i == 7 && j == 11 {
            assert("FrameView"@.len() != "Legacy3DVisionVR"@.len());
        } else if i == 7 && j == 12 {
            assert("FrameView"@.len() != "NvWMI"@.len());
        } else if i == 7 && j == 13 {
            assert("FrameView"@.len() != "NGX"@.len());
        } else if i == 7 && j == 14 {
            assert("FrameView"@.len() != "HDAudio"@.len());
        } else if i == 7 && j == 15 {
            assert("FrameView"@.len() != "PhysX"@.len());
        } else if i == 7 && j == 16 {
            assert("FrameView"@.len() != "NotebookOptimus"@.len());
        } else if i == 8 && j == 9 {
            assert("Shield"@.len() != "VirtualAudio"@.len());
        } else if i == 8 && j == 10 {
            assert("Shield"@.len() != "USBTypeC"@.len());
        } else if i == 8 && j == 11 {
            assert("Shield"@.len() != "Legacy3DVisionVR"@.len());
        } else if i == 8 && j == 12 {
            assert("Shield"@.len() != "NvWMI"@.len());
        } else if i == 8 && j == 13 {
            assert("Shield"@.len() != "NGX"@.len());
        } else if i == 8 && j == 14 {
            assert("Shield"@.len() != "HDAudio"@.len());
        } else if i == 8 && j == 15 {
            assert("Shield"@.len() != "PhysX"@.len());
        } else if i == 8 && j == 16 {
            assert("Shield"@.len() != "NotebookOptimus"@.len());
        } else if i == 9 && j == 10 {
            assert("VirtualAudio"@.len() != "USBTypeC"@.len());
        } else if i == 9 && j == 11 {
            assert("VirtualAudio"@.len() != "Legacy3DVisionVR"@.len());
        } else if i == 9 && j == 12 {
            assert("VirtualAudio"@.len() != "NvWMI"@.len());
        } else if i == 9 && j == 13 {
            assert("VirtualAudio"@.len() != "NGX"@.len());
        } else if i == 9 && j == 14 {
            assert("VirtualAudio"@.len() != "HDAudio"@.len());
        } else if i == 9 && j == 15 {
            assert("VirtualAudio"@.len() != "PhysX"@.len());
        } else if i == 9 && j == 16 {
            assert("VirtualAudio"@.len() != "NotebookOptimus"@.len());
        } else if i == 10 && j == 11 {
            assert("USBTypeC"@.len() != "Legacy3DVisionVR"@.len());
        } else if i == 10 && j == 12 {
            assert("USBTypeC"@.len() != "NvWMI"@.len());
        } else if i == 10 && j == 13 {
            assert("USBTypeC"@.len() != "NGX"@.len());
        } else if i == 10 && j == 14 {
            assert("USBTypeC"@.len() != "HDAudio"@.len());
        } else if i == 10 && j == 15 {
            assert("USBTypeC"@.len() != "PhysX"@.len());
        } else if i == 10 && j == 16 {
            assert("USBTypeC"@.len() != "NotebookOptimus"@.len());
        } else if i == 11 && j == 12 {
            assert("Legacy3DVisionVR"@.len() != "NvWMI"@.len());
        } else if i == 11 && j == 13 {
            assert("Legacy3DVisionVR"@.len() != "NGX"@.len());
        } else if i == 11 && j == 14 {
            assert("Legacy3DVisionVR"@.len() != "HDAudio"@.len());
        } else if i == 11 && j == 15 {
            assert("Legacy3DVisionVR"@.len() != "PhysX"@.len());
        } else if i == 11 && j == 16 {
            assert("Legacy3DVisionVR"@.len() != "NotebookOptimus"@.len());
        } else if i == 12 && j == 13 {
            assert("NvWMI"@.len() != "NGX"@.len());
        } else if i == 12 && j == 14 {
            assert("NvWMI"@.len() != "HDAudio"@.len());
        } else if i == 12 && j == 15 {
            assert("NvWMI"@[0] != "PhysX"@[0]);
        } else if i == 12 && j == 16 {
            assert("NvWMI"@.len() != "NotebookOptimus"@.len());
        } else if i == 13 && j == 14 {
            assert("NGX"@.len() != "HDAudio"@.len());
        } else if i == 13 && j == 15 {
            assert("NGX"@.len() != "PhysX"@.len());
        } else if i == 13 && j == 16 {
            assert("NGX"@.len() != "NotebookOptimus"@.len());
        } else if i == 14 && j == 15 {
            assert("HDAudio"@.len() != "PhysX"@.len());
        } else if i == 14 && j == 16 {
            assert("HDAudio"@.len() != "NotebookOptimus"@.len());
        } else if i == 15 && j == 16 {
            assert("PhysX"@.len() != "NotebookOptimus"@.len());
        }
    }
}

/// A selection built from entries with distinct keys holds each entry's
/// initial flag.
proof fn lemma_selection_of_lookup(cs: Seq<ComponentView>, o: OptionsView, i: int)
    requires
        0 <= i < cs.len(),
        forall|s: int, t: int| 0 <= s < t < cs.len() ==> #[trigger] cs[s].key != #[trigger] cs[t].key,
    ensures
        selection_of(cs, o).dom().contains(cs[i].key),
        selection_of(cs, o)[cs[i].key] == initial_enabled(cs[i], o),
    decreases cs.len(),
{
    if i < cs.len() - 1 {
        assert forall|s: int, t: int| 0 <= s < t < cs.drop_last().len() implies #[trigger] cs.drop_last()[s].key
            != #[trigger] cs.drop_last()[t].key by {
            assert(cs.drop_last()[s] == cs[s] && cs.drop_last()[t] == cs[t]);
        }
        assert(cs.drop_last()[i] == cs[i]);
        lemma_selection_of_lookup(cs.drop_last(), o, i);
        assert(cs[i].key != cs.last().key);
    }
}

/// By default the optional components (NGX, HDAudio, PhysX,
/// NotebookOptimus, VirtualAudio, NvWMI and CaptureSDK) are deselected and
/// every other component is selected; each `--include-*` flag selects its
/// optional component.
pub proof fn lemma_initial_selection(o: OptionsView)
    ensures
        selection_of(catalog(), o)["Telemetry"@] == true,
        selection_of(catalog(), o)["UpdateAndProfileUpdater"@] == true,
        selection_of(catalog(), o)["Installer2Cache"@] == true,
        selection_of(catalog(), o)["GeForceExperienceAndNvidiaApp"@] == true,
        selection_of(catalog(), o)["ShadowPlayShare"@] == true,
        selection_of(catalog(), o)["CaptureSDK"@] == o.include_capture_sdk,
        selection_of(catalog(), o)["AnselCamera"@] == true,
        selection_of(catalog(), o)["FrameView"@] == true,
        selection_of(catalog(), o)["Shield"@] == true,
        selection_of(catalog(), o)["VirtualAudio"@] == o.include_virtual_audio,
        selection_of(catalog(), o)["USBTypeC"@] == true,
        selection_of(catalog(), o)["Legacy3DVisionVR"@] == true,
        selection_of(catalog(), o)["NvWMI"@] == o.include_nvwmi,
        selection_of(catalog(), o)["NGX"@] == o.include_ngx,
        selection_of(catalog(), o)["HDAudio"@] == o.include_hd_audio,
        selection_of(catalog(), o)["PhysX"@] == o.include_physx,
        selection_of(catalog(), o)["NotebookOptimus"@] == o.include_notebook_optimus,
        forall|i: int| 0 <= i < catalog().len() ==> selection_of(catalog(), o).dom().contains(
            #[trigger] catalog()[i].key,
        ),
{
    lemma_catalog_keys_distinct();
    reveal_strlit("Telemetry");
    reveal_strlit("UpdateAndProfileUpdater");
    reveal_strlit("Installer2Cache");
    reveal_strlit("GeForceExperienceAndNvidiaApp");
    reveal_strlit("ShadowPlayShare");
    reveal_strlit("CaptureSDK");
    reveal_strlit("AnselCamera");
    reveal_strlit("FrameView");
    reveal_strlit("Shield");
    reveal_strlit("VirtualAudio");
    reveal_strlit("USBTypeC");
    reveal_strlit("Legacy3DVisionVR");
    reveal_strlit("NvWMI");
    reveal_strlit("NGX");
    reveal_strlit("HDAudio");
    reveal_strlit("PhysX");
    reveal_strlit("NotebookOptimus");
    assert("Installer2Cache"@[0] != "NotebookOptimus"@[0]);
    assert("ShadowPlayShare"@[0] != "NotebookOptimus"@[0]);
    assert("NvWMI"@[0] != "PhysX"@[0]);
    assert("PhysX"@[0] != "NvWMI"@[0]);
    lemma_selection_of_lookup(catalog(), o, 0);
    lemma_selection_of_lookup(catalog(), o, 1);
    lemma_selection_of_lookup(catalog(), o, 2);
    lemma_selection_of_lookup(catalog(), o, 3);
    lemma_selection_of_lookup(catalog(), o, 4);
    lemma_selection_of_lookup(catalog(), o, 5);
    lemma_selection_of_lookup(catalog(), o, 6);
    lemma_selection_of_lookup(catalog(), o, 7);
    lemma_selection_of_lookup(catalog(), o, 8);
    lemma_selection_of_lookup(catalog(), o, 9);
    lemma_selection_of_lookup(catalog(), o, 10);
    lemma_selection_of_lookup(catalog(), o, 11);
    lemma_selection_of_lookup(catalog(), o, 12);
    lemma_selection_of_lookup(catalog(), o, 13);
    lemma_selection_of_lookup(catalog(), o, 14);
    lemma_selection_of_lookup(catalog(), o, 15);
    lemma_selection_of_lookup(catalog(), o, 16);
    assert forall|i: int| 0 <= i < catalog().len() implies selection_of(catalog(), o).dom().contains(
        #[trigger] catalog()[i].key,
    ) by {
        lemma_selection_of_lookup(catalog(), o, i);
    }
}


/// ASCII text lowercases character by character and keeps its length.
proof fn lemma_ascii_lowercase_shape(s: Seq<char>)
    requires
        all_ascii(s),
    ensures
        lowercase(s).len() == s.len(),
        forall|k: int| 0 <= k < s.len() ==> #[trigger] lowercase(s)[k] == ascii_lower(s[k]),
{
}

/// The catalog keys forward cleanly as switches: they are ASCII without
/// `:` or `=`, and no two of them share a lowercase form.
proof fn lemma_catalog_keys_forward_cleanly()
    ensures
        forall|i: int| 0 <= i < catalog().len() ==> plain_key(#[trigger] catalog()[i].key),
        forall|i: int, j: int|
            0 <= i < j < catalog().len() ==> lowercase(#[trigger] catalog()[i].key) != lowercase(
                #[trigger] catalog()[j].key,
            ),
{
    reveal_strlit("Telemetry");
    reveal_strlit("UpdateAndProfileUpdater");
    reveal_strlit("Installer2Cache");
    reveal_strlit("GeForceExperienceAndNvidiaApp");
    reveal_strlit("ShadowPlayShare");
    reveal_strlit("CaptureSDK");
    reveal_strlit("AnselCamera");
    reveal_strlit("FrameView");
    reveal_strlit("Shield");
    reveal_strlit("VirtualAudio");
    reveal_strlit("USBTypeC");
    reveal_strlit("Legacy3DVisionVR");
    reveal_strlit("NvWMI");
    reveal_strlit("NGX");
    reveal_strlit("HDAudio");
    reveal_strlit("PhysX");
    reveal_strlit("NotebookOptimus");
    assert(catalog()[0].key == "Telemetry"@);
    assert(catalog()[1].key == "UpdateAndProfileUpdater"@);
    assert(catalog()[2].key == "Installer2Cache"@);
    assert(catalog()[3].key == "GeForceExperienceAndNvidiaApp"@);
    assert(catalog()[4].key == "ShadowPlayShare"@);
    assert(catalog()[5].key == "CaptureSDK"@);
    assert(catalog()[6].key == "AnselCamera"@);
    assert(catalog()[7].key == "FrameView"@);
    assert(catalog()[8].key == "Shield"@);
    assert(catalog()[9].key == "VirtualAudio"@);
    assert(catalog()[10].key == "USBTypeC"@);
    assert(catalog()[11].key == "Legacy3DVisionVR"@);
    assert(catalog()[12].key == "NvWMI"@);
    assert(catalog()[13].key == "NGX"@);
    assert(catalog()[14].key == "HDAudio"@);
    assert(catalog()[15].key == "PhysX"@);
    assert(catalog()[16].key == "NotebookOptimus"@);
    assert(plain_key("Telemetry"@));
    lemma_ascii_lowercase_shape("Telemetry"@);
    assert(plain_key("UpdateAndProfileUpdater"@));
    lemma_ascii_lowercase_shape("UpdateAndProfileUpdater"@);
    assert(plain_key("Installer2Cache"@));
    lemma_ascii_lowercase_shape("Installer2Cache"@);
    assert(plain_key("GeForceExperienceAndNvidiaApp"@));
    lemma_ascii_lowercase_shape("GeForceExperienceAndNvidiaApp"@);
    assert(plain_key("ShadowPlayShare"@));
    lemma_ascii_lowercase_shape("ShadowPlayShare"@);
    assert(plain_key("CaptureSDK"@));
    lemma_ascii_lowercase_shape("CaptureSDK"@);
    assert(plain_key("AnselCamera"@));
    lemma_ascii_lowercase_shape("AnselCamera"@);
    assert(plain_key("FrameView"@));
    lemma_ascii_lowercase_shape("FrameView"@);
    assert(plain_key("Shield"@));
    lemma_ascii_lowercase_shape("Shield"@);
    assert(plain_key("VirtualAudio"@));
    lemma_ascii_lowercase_shape("VirtualAudio"@);
    assert(plain_key("USBTypeC"@));
    lemma_ascii_lowercase_shape("USBTypeC"@);
    assert(plain_key("Legacy3DVisionVR"@));
    lemma_ascii_lowercase_shape("Legacy3DVisionVR"@);
    assert(plain_key("NvWMI"@));
    lemma_ascii_lowercase_shape("NvWMI"@);
    assert(plain_key("NGX"@));
    lemma_ascii_lowercase_shape("NGX"@);
    assert(plain_key("HDAudio"@));
    lemma_ascii_lowercase_shape("HDAudio"@);
    assert(plain_key("PhysX"@));
    lemma_ascii_lowercase_shape("PhysX"@);
    assert(plain_key("NotebookOptimus"@));
    lemma_ascii_lowercase_shape("NotebookOptimus"@);
    assert forall|i: int, j: int| 0 <= i < j < catalog().len() implies lowercase(
        #[trigger] catalog()[i].key,
    ) != lowercase(#[trigger] catalog()[j].key) by {
        if i == 0 && j == 1 {
            assert(lowercase("Telemetry"@).len() != lowercase("UpdateAndProfileUpdater"@).len());
        } else if i == 0 && j == 2 {
            assert(lowercase("Telemetry"@).len() != lowercase("Installer2Cache"@).len());
        } else if i == 0 && j == 3 {
            assert(lowercase("Telemetry"@).len() != lowercase("GeForceExperienceAndNvidiaApp"@).len());
        } else if i == 0 && j == 4 {
            assert(lowercase("Telemetry"@).len() != lowercase("ShadowPlayShare"@).len());
        } else if i == 0 && j == 5 {
            assert(lowercase("Telemetry"@).len() != lowercase("CaptureSDK"@).len());
        } else if i == 0 && j == 6 {
            assert(lowercase("Telemetry"@).len() != lowercase("AnselCamera"@).len());
        } else if i == 0 && j == 7 {
            assert(lowercase("Telemetry"@)[0] != lowercase("FrameView"@)[0]);
        } else if i == 0 && j == 8 {
            assert(lowercase("Telemetry"@).len() != lowercase("Shield"@).len());
        } else if i == 0 && j == 9 {
            assert(lowercase("Telemetry"@).len() != lowercase("VirtualAudio"@).len());
        } else if i == 0 && j == 10 {
            assert(lowercase("Telemetry"@).len() != lowercase("USBTypeC"@).len());
        } else if i == 0 && j == 11 {
            assert(lowercase("Telemetry"@).len() != lowercase("Legacy3DVisionVR"@).len());
        } else if i == 0 && j == 12 {
            assert(lowercase("Telemetry"@).len() != lowercase("NvWMI"@).len());
        } else if i == 0 && j == 13 {
            assert(lowercase("Telemetry"@).len() != lowercase("NGX"@).len());
        } else if i == 0 && j == 14 {
            assert(lowercase("Telemetry"@).len() != lowercase("HDAudio"@).len());
        } else if i == 0 && j == 15 {
            assert(lowercase("Telemetry"@).len() != lowercase("PhysX"@).len());
        } else if i == 0 && j == 16 {
            assert(lowercase("Telemetry"@).len() != lowercase("NotebookOptimus"@).len());
        } else if i == 1 && j == 2 {
            assert(lowercase("UpdateAndProfileUpdater"@).len() != lowercase("Installer2Cache"@).len());
        } else if i == 1 && j == 3 {
            assert(lowercase("UpdateAndProfileUpdater"@).len() != lowercase("GeForceExperienceAndNvidiaApp"@).len());
        } else if i == 1 && j == 4 {
            assert(lowercase("UpdateAndProfileUpdater"@).len() != lowercase("ShadowPlayShare"@).len());
        } else if i == 1 && j == 5 {
            assert(lowercase("UpdateAndProfileUpdater"@).len() != lowercase("CaptureSDK"@).len());
        } else if i == 1 && j == 6 {
            assert(lowercase("UpdateAndProfileUpdater"@).len() != lowercase("AnselCamera"@).len());
        } else if i == 1 && j == 7 {
            assert(lowercase("UpdateAndProfileUpdater"@).len() != lowercase("FrameView"@).len());
        } else if i == 1 && j == 8 {
            assert(lowercase("UpdateAndProfileUpdater"@).len() != lowercase("Shield"@).len());
        } else if i == 1 && j == 9 {
            assert(lowercase("UpdateAndProfileUpdater"@).len() != lowercase("VirtualAudio"@).len());
        } else if i == 1 && j == 10 {
            assert(lowercase("UpdateAndProfileUpdater"@).len() != lowercase("USBTypeC"@).len());
        } else if i == 1 && j == 11 {
            assert(lowercase("UpdateAndProfileUpdater"@).len() != lowercase("Legacy3DVisionVR"@).len());
        } else if i == 1 && j == 12 {
            assert(lowercase("UpdateAndProfileUpdater"@).len() != lowercase("NvWMI"@).len());
        } else if i == 1 && j == 13 {
            assert(lowercase("UpdateAndProfileUpdater"@).len() != lowercase("NGX"@).len());
        } else if i == 1 && j == 14 {
            assert(lowercase("UpdateAndProfileUpdater"@).len() != lowercase("HDAudio"@).len());
        } else if i == 1 && j == 15 {
            assert(lowercase("UpdateAndProfileUpdater"@).len() != lowercase("PhysX"@).len());
        } else if i == 1 && j == 16 {
            assert(lowercase("UpdateAndProfileUpdater"@).len() != lowercase("NotebookOptimus"@).len());
        } else if i == 2 && j == 3 {
            assert(lowercase("Installer2Cache"@).len() != lowercase("GeForceExperienceAndNvidiaApp"@).len());
        } else if i == 2 && j == 4 {
            assert(lowercase("Installer2Cache"@)[0] != lowercase("ShadowPlayShare"@)[0]);
        } else if i == 2 && j == 5 {
            assert(lowercase("Installer2Cache"@).len() != lowercase("CaptureSDK"@).len());
        } else if i == 2 && j == 6 {
            assert(lowercase("Installer2Cache"@).len() != lowercase("AnselCamera"@).len());
        } else if i == 2 && j == 7 {
            assert(lowercase("Installer2Cache"@).len() != lowercase("FrameView"@).len());
        } else if i == 2 && j == 8 {
            assert(lowercase("Installer2Cache"@).len() != lowercase("Shield"@).len());
        } else if i == 2 && j == 9 {
            assert(lowercase("Installer2Cache"@).len() != lowercase("VirtualAudio"@).len());
        } else if i == 2 && j == 10 {
            assert(lowercase("Installer2Cache"@).len() != lowercase("USBTypeC"@).len());
        } else if i == 2 && j == 11 {
            assert(lowercase("Installer2Cache"@).len() != lowercase("Legacy3DVisionVR"@).len());
        } else if i == 2 && j == 12 {
            assert(lowercase("Installer2Cache"@).len() != lowercase("NvWMI"@).len());
        } else if i == 2 && j == 13 {
            assert(lowercase("Installer2Cache"@).len() != lowercase("NGX"@).len());
        } else if i == 2 && j == 14 {
            assert(lowercase("Installer2Cache"@).len() != lowercase("HDAudio"@).len());
        } else if i == 2 && j == 15 {
            assert(lowercase("Installer2Cache"@).len() != lowercase("PhysX"@).len());
        } else if i == 2 && j == 16 {
            assert(lowercase("Installer2Cache"@)[0] != lowercase("NotebookOptimus"@)[0]);
        } else if i == 3 && j == 4 {
            assert(lowercase("GeForceExperienceAndNvidiaApp"@).len() != lowercase("ShadowPlayShare"@).len());
        } else if i == 3 && j == 5 {
            assert(lowercase("GeForceExperienceAndNvidiaApp"@).len() != lowercase("CaptureSDK"@).len());
        } else if i == 3 && j == 6 {
            assert(lowercase("GeForceExperienceAndNvidiaApp"@).len() != lowercase("AnselCamera"@).len());
        } else if i == 3 && j == 7 {
            assert(lowercase("GeForceExperienceAndNvidiaApp"@).len() != lowercase("FrameView"@).len());
        } else if i == 3 && j == 8 {
            assert(lowercase("GeForceExperienceAndNvidiaApp"@).len() != lowercase("Shield"@).len());
        } else if i == 3 && j == 9 {
            assert(lowercase("GeForceExperienceAndNvidiaApp"@).len() != lowercase("VirtualAudio"@).len());
        } else if i == 3 && j == 10 {
            assert(lowercase("GeForceExperienceAndNvidiaApp"@).len() != lowercase("USBTypeC"@).len());
        } else if i == 3 && j == 11 {
            assert(lowercase("GeForceExperienceAndNvidiaApp"@).len() != lowercase("Legacy3DVisionVR"@).len());
        } else if i == 3 && j == 12 {
            assert(lowercase("GeForceExperienceAndNvidiaApp"@).len() != lowercase("NvWMI"@).len());
        } else if i == 3 && j == 13 {
            assert(lowercase("GeForceExperienceAndNvidiaApp"@).len() != lowercase("NGX"@).len());
        } else if i == 3 && j == 14 {
            assert(lowercase("GeForceExperienceAndNvidiaApp"@).len() != lowercase("HDAudio"@).len());
        } else if i == 3 && j == 15 {
            assert(lowercase("GeForceExperienceAndNvidiaApp"@).len() != lowercase("PhysX"@).len());
        } else if i == 3 && j == 16 {
            assert(lowercase("GeForceExperienceAndNvidiaApp"@).len() != lowercase("NotebookOptimus"@).len());
        } else if i == 4 && j == 5 {
            assert(lowercase("ShadowPlayShare"@).len() != lowercase("CaptureSDK"@).len());
        } else if i == 4 && j == 6 {
            assert(lowercase("ShadowPlayShare"@).len() != lowercase("AnselCamera"@).len());
        } else if i == 4 && j == 7 {
            assert(lowercase("ShadowPlayShare"@).len() != lowercase("FrameView"@).len());
        } else if i == 4 && j == 8 {
            assert(lowercase("ShadowPlayShare"@).len() != lowercase("Shield"@).len());
        } else if i == 4 && j == 9 {
            assert(lowercase("ShadowPlayShare"@).len() != lowercase("VirtualAudio"@).len());
        } else if i == 4 && j == 10 {
            assert(lowercase("ShadowPlayShare"@).len() != lowercase("USBTypeC"@).len());
        } else if i == 4 && j == 11 {
            assert(lowercase("ShadowPlayShare"@).len() != lowercase("Legacy3DVisionVR"@).len());
        } else if i == 4 && j == 12 {
            assert(lowercase("ShadowPlayShare"@).len() != lowercase("NvWMI"@).len());
        } else if i == 4 && j == 13 {
            assert(lowercase("ShadowPlayShare"@).len() != lowercase("NGX"@).len());
        } else if i == 4 && j == 14 {
            assert(lowercase("ShadowPlayShare"@).len() != lowercase("HDAudio"@).len());
        } else if i == 4 && j == 15 {
            assert(lowercase("ShadowPlayShare"@).len() != lowercase("PhysX"@).len());
        } else if i == 4 && j == 16 {
            assert(lowercase("ShadowPlayShare"@)[0] != lowercase("NotebookOptimus"@)[0]);
        } else if i == 5 && j == 6 {
            assert(lowercase("CaptureSDK"@).len() != lowercase("AnselCamera"@).len());
        } else if i == 5 && j == 7 {
            assert(lowercase("CaptureSDK"@).len() != lowercase("FrameView"@).len());
        } else if i == 5 && j == 8 {
            assert(lowercase("CaptureSDK"@).len() != lowercase("Shield"@).len());
        } else if i == 5 && j == 9 {
            assert(lowercase("CaptureSDK"@).len() != lowercase("VirtualAudio"@).len());
        } else if i == 5 && j == 10 {
            assert(lowercase("CaptureSDK"@).len() != lowercase("USBTypeC"@).len());
        } else if i == 5 && j == 11 {
            assert(lowercase("CaptureSDK"@).len() != lowercase("Legacy3DVisionVR"@).len());
        } else if i == 5 && j == 12 {
            assert(lowercase("CaptureSDK"@).len() != lowercase("NvWMI"@).len());
        } else if i == 5 && j == 13 {
            assert(lowercase("CaptureSDK"@).len() != lowercase("NGX"@).len());
        } else if i == 5 && j == 14 {
            assert(lowercase("CaptureSDK"@).len() != lowercase("HDAudio"@).len());
        } else if i == 5 && j == 15 {
            assert(lowercase("CaptureSDK"@).len() != lowercase("PhysX"@).len());
        } else if i == 5 && j == 16 {
            assert(lowercase("CaptureSDK"@).len() != lowercase("NotebookOptimus"@).len());
        } else if i == 6 && j == 7 {
            assert(lowercase("AnselCamera"@).len() != lowercase("FrameView"@).len());
        } else if i == 6 && j == 8 {
            assert(lowercase("AnselCamera"@).len() != lowercase("Shield"@).len());
        } else if i == 6 && j == 9 {
            assert(lowercase("AnselCamera"@).len() != lowercase("VirtualAudio"@).len());
        } else if i == 6 && j == 10 {
            assert(lowercase("AnselCamera"@).len() != lowercase("USBTypeC"@).len());
        } else if i == 6 && j == 11 {
            assert(lowercase("AnselCamera"@).len() != lowercase("Legacy3DVisionVR"@).len());
        } else if i == 6 && j == 12 {
            assert(lowercase("AnselCamera"@).len() != lowercase("NvWMI"@).len());
        } else if i == 6 && j == 13 {
            assert(lowercase("AnselCamera"@).len() != lowercase("NGX"@).len());
        } else if i == 6 && j == 14 {
            assert(lowercase("AnselCamera"@).len() != lowercase("HDAudio"@).len());
        } else if i == 6 && j == 15 {
            assert(lowercase("AnselCamera"@).len() != lowercase("PhysX"@).len());
        } else if i == 6 && j == 16 {
            assert(lowercase("AnselCamera"@).len() != lowercase("NotebookOptimus"@).len());
        } else if i == 7 && j == 8 {
            assert(lowercase("FrameView"@).len() != lowercase("Shield"@).len());
        } else if i == 7 && j == 9 {
            assert(lowercase("FrameView"@).len() != lowercase("VirtualAudio"@).len());
        } else if i == 7 && j == 10 {
            assert(lowercase("FrameView"@).len() != lowercase("USBTypeC"@).len());
        } else if i == 7 && j == 11 {
            assert(lowercase("FrameView"@).len() != lowercase("Legacy3DVisionVR"@).len());
        } else if i == 7 && j == 12 {
            assert(lowercase("FrameView"@).len() != lowercase("NvWMI"@).len());
        } else if i == 7 && j == 13 {
            assert(lowercase("FrameView"@).len() != lowercase("NGX"@).len());
        } else if i == 7 && j == 14 {
            assert(lowercase("FrameView"@).len() != lowercase("HDAudio"@).len());
        } else if i == 7 && j == 15 {
            assert(lowercase("FrameView"@).len() != lowercase("PhysX"@).len());
        } else if i == 7 && j == 16 {
            assert(lowercase("FrameView"@).len() != lowercase("NotebookOptimus"@).len());
        } else if i == 8 && j == 9 {
            assert(lowercase("Shield"@).len() != lowercase("VirtualAudio"@).len());
        } else if i == 8 && j == 10 {
            assert(lowercase("Shield"@).len() != lowercase("USBTypeC"@).len());
        } else if i == 8 && j == 11 {
            assert(lowercase("Shield"@).len() != lowercase("Legacy3DVisionVR"@).len());
        } else if i == 8 && j == 12 {
            assert(lowercase("Shield"@).len() != lowercase("NvWMI"@).len());
        } else if i == 8 && j == 13 {
            assert(lowercase("Shield"@).len() != lowercase("NGX"@).len());
        } else if i == 8 && j == 14 {
            assert(lowercase("Shield"@).len() != lowercase("HDAudio"@).len());
        } else if i == 8 && j == 15 {
            assert(lowercase("Shield"@).len() != lowercase("PhysX"@).len());
        } else if i == 8 && j == 16 {
            assert(lowercase("Shield"@).len() != lowercase("NotebookOptimus"@).len());
        } else if i == 9 && j == 10 {
            assert(lowercase("VirtualAudio"@).len() != lowercase("USBTypeC"@).len());
        } else if i == 9 && j == 11 {
            assert(lowercase("VirtualAudio"@).len() != lowercase("Legacy3DVisionVR"@).len());
        } else if i == 9 && j == 12 {
            assert(lowercase("VirtualAudio"@).len() != lowercase("NvWMI"@).len());
        } else if i == 9 && j == 13 {
            assert(lowercase("VirtualAudio"@).len() != lowercase("NGX"@).len());
        } else if i == 9 && j == 14 {
            assert(lowercase("VirtualAudio"@).len() != lowercase("HDAudio"@).len());
        } else if i == 9 && j == 15 {
            assert(lowercase("VirtualAudio"@).len() != lowercase("PhysX"@).len());
        } else if i == 9 && j == 16 {
            assert(lowercase("VirtualAudio"@).len() != lowercase("NotebookOptimus"@).len());
        } else if i == 10 && j == 11 {
            assert(lowercase("USBTypeC"@).len() != lowercase("Legacy3DVisionVR"@).len());
        } else if i == 10 && j == 12 {
            assert(lowercase("USBTypeC"@).len() != lowercase("NvWMI"@).len());
        } else if i == 10 && j == 13 {
            assert(lowercase("USBTypeC"@).len() != lowercase("NGX"@).len());
        } else if i == 10 && j == 14 {
            assert(lowercase("USBTypeC"@).len() != lowercase("HDAudio"@).len());
        } else if i == 10 && j == 15 {
            assert(lowercase("USBTypeC"@).len() != lowercase("PhysX"@).len());
        } else if i == 10 && j == 16 {
            assert(lowercase("USBTypeC"@).len() != lowercase("NotebookOptimus"@).len());
        } else if i == 11 && j == 12 {
            assert(lowercase("Legacy3DVisionVR"@).len() != lowercase("NvWMI"@).len());
        } else if i == 11 && j == 13 {
            assert(lowercase("Legacy3DVisionVR"@).len() != lowercase("NGX"@).len());
        } else if i == 11 && j == 14 {
            assert(lowercase("Legacy3DVisionVR"@).len() != lowercase("HDAudio"@).len());
        } else if i == 11 && j == 15 {
            assert(lowercase("Legacy3DVisionVR"@).len() != lowercase("PhysX"@).len());
        } else if i == 11 && j == 16 {
            assert(lowercase("Legacy3DVisionVR"@).len() != lowercase("NotebookOptimus"@).len());
        } else if i == 12 && j == 13 {
            assert(lowercase("NvWMI"@).len() != lowercase("NGX"@).len());
        } else if i == 12 && j == 14 {
            assert(lowercase("NvWMI"@).len() != lowercase("HDAudio"@).len());
        } else if i == 12 && j == 15 {
            assert(lowercase("NvWMI"@)[0] != lowercase("PhysX"@)[0]);
        } else if i == 12 && j == 16 {
            assert(lowercase("NvWMI"@).len() != lowercase("NotebookOptimus"@).len());
        } else if i == 13 && j == 14 {
            assert(lowercase("NGX"@).len() != lowercase("HDAudio"@).len());
        } else if i == 13 && j == 15 {
            assert(lowercase("NGX"@).len() != lowercase("PhysX"@).len());
        } else if i == 13 && j == 16 {
            assert(lowercase("NGX"@).len() != lowercase("NotebookOptimus"@).len());
        } else if i == 14 && j == 15 {
            assert(lowercase("HDAudio"@).len() != lowercase("PhysX"@).len());
        } else if i == 14 && j == 16 {
            assert(lowercase("HDAudio"@).len() != lowercase("NotebookOptimus"@).len());
        } else if i == 15 && j == 16 {
            assert(lowercase("PhysX"@).len() != lowercase("NotebookOptimus"@).len());
        }
    }
}

/// The forwarding law on the component catalog itself: whatever choices a
/// parent holds, and whatever selection it holds over distinct catalog
/// keys, its elevated child reads back those choices and that selection.
pub proof fn lemma_catalog_selection_read_back(
    o: OptionsView,
    keys: Seq<Seq<char>>,
    vals: Seq<bool>,
    start: Seq<bool>,
)
    requires
        TI_WAIT_MIN_SECS <= o.ti_wait_seconds <= TI_WAIT_MAX_SECS,
        keys.len() == vals.len(),
        start.len() == keys.len(),
        forall|j: int|
            0 <= j < keys.len() ==> catalog().map_values(|c: ComponentView| c.key).contains(
                #[trigger] keys[j],
            ),
        forall|s: int, t: int| 0 <= s < t < keys.len() ==> #[trigger] keys[s] != #[trigger] keys[t],
    ensures
        reads_back_choices(o, keys, vals, start),
{
    lemma_catalog_keys_forward_cleanly();
    let ck = catalog().map_values(|c: ComponentView| c.key);
    assert forall|j: int| 0 <= j < keys.len() implies plain_key(#[trigger] keys[j]) by {
        let i = choose|i: int| 0 <= i < ck.len() && ck[i] == keys[j];
        assert(catalog()[i].key == keys[j]);
    }
    assert forall|s: int, t: int| 0 <= s < t < keys.len() implies lowercase(#[trigger] keys[s])
        != lowercase(#[trigger] keys[t]) by {
        let a = choose|i: int| 0 <= i < ck.len() && ck[i] == keys[s];
        let b = choose|i: int| 0 <= i < ck.len() && ck[i] == keys[t];
        assert(catalog()[a].key == keys[s]);
        assert(catalog()[b].key == keys[t]);
        assert(a != b);
        if a < b {
            assert(lowercase(catalog()[a].key) != lowercase(catalog()[b].key));
        } else {
            assert(lowercase(catalog()[b].key) != lowercase(catalog()[a].key));
        }
    }
    lemma_forwarded_choices_read_back(o, keys, vals, start);
}



/// The TrustedInstaller wait is bounded and abort-aware: an abort request or
/// reaching the wait bound always ends it, and an abort ends it as aborted
/// unless the child's own result (finished, or never started) arrives in
/// the same round.
pub proof fn lemma_relaunch_wait_ends(
    abort_requested: bool,
    waited_secs: i64,
    wait_limit_secs: i64,
    state_running: bool,
    state_queued: bool,
    last_result: Option<i64>,
    start_grace_secs: i64,
)
    ensures
        ({
            let d = wait_decision(
                abort_requested,
                waited_secs,
                wait_limit_secs,
                state_running,
                state_queued,
                last_result,
                start_grace_secs,
            );
            &&& (abort_requested || waited_secs >= wait_limit_secs) ==> !(d is KeepWaiting)
            &&& abort_requested ==> (d is Aborted || d is Finished || d is NeverStarted)
            &&& !abort_requested ==> !(d is Aborted)
            &&& d is TimedOut ==> waited_secs >= wait_limit_secs
        }),
{
}




// ---------------------------------------------------------------------------
// The elevated child's selection over the same keys
// ---------------------------------------------------------------------------

/// A strictly sorted sequence has no key twice, and its first key comes
/// before every later one.
proof fn lemma_sorted_distinct(a: Seq<Seq<char>>)
    requires
        strictly_sorted(a),
    ensures
        forall|s: int, t: int| 0 <= s < t < a.len() ==> #[trigger] a[s] != #[trigger] a[t],
{
    assert forall|s: int, t: int| 0 <= s < t < a.len() implies #[trigger] a[s] != #[trigger] a[t] by {
        assert(lex_lt(a[s], a[t]));
        crate::app::lemma_lex_irreflexive(a[s]);
    }
}

/// Two strictly sorted key sequences with the same keys are the same.
proof fn lemma_sorted_same_keys_equal(a: Seq<Seq<char>>, b: Seq<Seq<char>>)
    requires
        strictly_sorted(a),
        strictly_sorted(b),
        forall|k: Seq<char>| a.contains(k) <==> b.contains(k),
    ensures
        a == b,
    decreases a.len(),
{
    if a.len() == 0 {
        if b.len() > 0 {
            assert(b.contains(b[0]));
        }
        assert(a =~= b);
    } else {
        assert(a.contains(a[0]));
        assert(b.len() > 0);
        if a[0] != b[0] {
            assert(b.contains(b[0]));
            let i = choose|i: int| 0 <= i < a.len() && a[i] == b[0];
            let j = choose|j: int| 0 <= j < b.len() && b[j] == a[0];
            assert(i > 0 && j > 0);
            assert(lex_lt(a[0], a[i]));
            assert(lex_lt(b[0], b[j]));
            crate::app::lemma_lex_transitive(a[0], b[0], a[0]);
            crate::app::lemma_lex_irreflexive(a[0]);
        }
        let a1 = a.drop_first();
        let b1 = b.drop_first();
        lemma_sorted_distinct(a);
        lemma_sorted_distinct(b);
        assert forall|k: Seq<char>| a1.contains(k) <==> b1.contains(k) by {
            if a1.contains(k) {
                let i = choose|i: int| 0 <= i < a1.len() && a1[i] == k;
                assert(a[i + 1] == k && a.contains(k));
                assert(k != a[0]);
                let j = choose|j: int| 0 <= j < b.len() && b[j] == k;
                assert(j != 0);
                assert(b1[j - 1] == k);
            }
            if b1.contains(k) {
                let j = choose|j: int| 0 <= j < b1.len() && b1[j] == k;
                assert(b[j + 1] == k && b.contains(k));
                assert(k != b[0]);
                let i = choose|i: int| 0 <= i < a.len() && a[i] == k;
                assert(i != 0);
                assert(a1[i - 1] == k);
            }
        }
        lemma_sorted_same_keys_equal(a1, b1);
        assert(a =~= seq![a[0]] + a1);
        assert(b =~= seq![b[0]] + b1);
    }
}

/// The forwarding law in the form the two processes hold their selections:
/// a parent selection and the child's starting selection, each keyed in
/// increasing order by exactly the catalog's keys, as every selection of
/// the tool is. The child's keys are then the parent's, and after parsing
/// the forwarded switches and applying their component switches to its
/// starting selection the child holds the parent's choices and exactly the
/// parent's selection, with no problem.
pub proof fn lemma_child_selection_read_back(
    o: OptionsView,
    parent_keys: Seq<Seq<char>>,
    parent_vals: Seq<bool>,
    child_keys: Seq<Seq<char>>,
    child_vals: Seq<bool>,
)
    requires
        TI_WAIT_MIN_SECS <= o.ti_wait_seconds <= TI_WAIT_MAX_SECS,
        parent_keys.len() == parent_vals.len(),
        child_keys.len() == child_vals.len(),
        strictly_sorted(parent_keys),
        strictly_sorted(child_keys),
        forall|k: Seq<char>|
            #[trigger] parent_keys.contains(k) <==> catalog().map_values(|c: ComponentView| c.key).contains(k),
        forall|k: Seq<char>|
            #[trigger] child_keys.contains(k) <==> catalog().map_values(|c: ComponentView| c.key).contains(k),
    ensures
        child_keys == parent_keys,
        reads_back_choices(o, parent_keys, parent_vals, child_vals),
{
    lemma_sorted_same_keys_equal(parent_keys, child_keys);
    lemma_sorted_distinct(parent_keys);
    assert forall|j: int| 0 <= j < parent_keys.len() implies catalog().map_values(
        |c: ComponentView| c.key,
    ).contains(#[trigger] parent_keys[j]) by {
        assert(parent_keys.contains(parent_keys[j]));
    }
    lemma_catalog_selection_read_back(o, parent_keys, parent_vals, child_vals);
}

} // verus!
