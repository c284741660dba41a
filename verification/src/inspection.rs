//! One inspection pass over the running NVIDIA containers and their loaded
//! modules, and what the passes of a run record: each container and each
//! module sighting once, however often it is seen.

use vstd::prelude::*;
use crate::actions::{note_container, note_module, same_but_actions_and_sightings, sighting_key};
use crate::logging::LogLine;
use crate::matching::{is_preserved_container_name, module_is_telemetry, preserved_container};
use crate::text::{concat2, concat3, views};
use crate::types::{ActionRecord, ActionView, ProcessEntry, RunState};
use crate::util::{decimal_nat, push_decimal};

verus! {

/// A running process and, for a container, the outcome of reading its
/// loaded modules: their paths, or the text of the error.
pub struct ProcessModules {
    pub proc: ProcessEntry,
    pub modules: Result<Vec<String>, String>,
}

/// A sighting as plain values: pid, executable name, and the module paths
/// or the error text.
pub open spec fn sighting_view(s: ProcessModules) -> (u32, Seq<char>, Result<Seq<Seq<char>>, Seq<char>>) {
    (
        s.proc.pid,
        s.proc.exe_name@,
        match s.modules {
            Ok(v) => Ok(views(v@)),
            Err(e) => Err(e@),
        },
    )
}

/// What the passes so far hold: the container and module keys seen, the
/// action records, and the lines to log (level, message).
pub ghost struct Inspected {
    pub containers: Set<Seq<char>>,
    pub modules: Set<Seq<char>>,
    pub actions: Seq<ActionView>,
    pub lines: Seq<(Seq<char>, Seq<char>)>,
}

/// The record of a running preserved container.
pub open spec fn container_action(pid: u32, exe: Seq<char>) -> ActionView {
    ActionView {
        kind: "ContainerProcess"@,
        status: "Running"@,
        component: "NvContainer"@,
        path: exe,
        detail: "PID="@ + decimal_nat(pid as nat),
    }
}

/// The record of a loaded telemetry or updater module.
pub open spec fn module_action(pid: u32, path: Seq<char>) -> ActionView {
    ActionView {
        kind: "LoadedTelemetryModule"@,
        status: "Loaded"@,
        component: "NvContainer"@,
        path: path,
        detail: "PID="@ + decimal_nat(pid as nat),
    }
}

/// Log message of a module read failure.
pub open spec fn module_failure_message(pid: u32, error: Seq<char>) -> Seq<char> {
    "Module inspection failed for PID="@ + decimal_nat(pid as nat) + ": "@ + error
}

/// One loaded module of container `pid`: a first sighting of a telemetry
/// module is remembered, recorded and warned about; a repeated one is
/// noted after deletion; anything else changes nothing.
pub open spec fn module_step(st: Inspected, pid: u32, path: Seq<char>, post: bool) -> Inspected {
    let k = sighting_key(pid, path);
    if !module_is_telemetry(path) {
        st
    } else if !st.modules.contains(k) {
        Inspected {
            modules: st.modules.insert(k),
            actions: st.actions.push(module_action(pid, path)),
            lines: st.lines.push(
                (
                    "WARN"@,
                    "Container has matching module loaded; deletion may require reboot: PID="@
                        + decimal_nat(pid as nat) + " Module="@ + path,
                ),
            ),
            ..st
        }
    } else if post {
        Inspected {
            lines: st.lines.push(
                (
                    "INFO"@,
                    "Module still loaded after deletion (reboot will finalize): PID="@
                        + decimal_nat(pid as nat) + " Module="@ + path,
                ),
            ),
            ..st
        }
    } else {
        st
    }
}

/// The loaded modules of container `pid`, in order.
pub open spec fn modules_fold(st: Inspected, pid: u32, paths: Seq<Seq<char>>, post: bool) -> Inspected
    decreases paths.len(),
{
    if paths.len() == 0 {
        st
    } else {
        module_step(modules_fold(st, pid, paths.drop_last(), post), pid, paths.last(), post)
    }
}

/// A running preserved container: its first sighting is remembered,
/// recorded and logged.
pub open spec fn container_step(st: Inspected, pid: u32, exe: Seq<char>) -> Inspected {
    let k = sighting_key(pid, exe);
    if !st.containers.contains(k) {
        Inspected {
            containers: st.containers.insert(k),
            actions: st.actions.push(container_action(pid, exe)),
            lines: st.lines.push(
                ("INFO"@, "Container running: PID="@ + decimal_nat(pid as nat) + " Name="@ + exe),
            ),
            ..st
        }
    } else {
        st
    }
}

/// One process: only preserved containers are inspected, the container
/// itself first, then its modules, or the failure to read them.
pub open spec fn process_step(
    st: Inspected,
    s: (u32, Seq<char>, Result<Seq<Seq<char>>, Seq<char>>),
    post: bool,
) -> Inspected {
    if !preserved_container(s.1) {
        st
    } else {
        let st1 = container_step(st, s.0, s.1);
        match s.2 {
            Ok(paths) => modules_fold(st1, s.0, paths, post),
            Err(e) => Inspected {
                lines: st1.lines.push(("WARN"@, module_failure_message(s.0, e))),
                ..st1
            },
        }
    }
}

/// One inspection pass over the sightings, in order.
pub open spec fn inspection(
    st: Inspected,
    ss: Seq<(u32, Seq<char>, Result<Seq<Seq<char>>, Seq<char>>)>,
    post: bool,
) -> Inspected
    decreases ss.len(),
{
    if ss.len() == 0 {
        st
    } else {
        process_step(inspection(st, ss.drop_last(), post), ss.last(), post)
    }
}

// ---------------------------------------------------------------------------
// Records are new and never repeated
// ---------------------------------------------------------------------------

/// The sighting key of a record: its pid (after `PID=`) and its path.
pub open spec fn sighting_of(a: ActionView) -> Seq<char> {
    a.detail.skip(4) + "|"@ + a.path
}

/// `x`, added between `a` and `b`, records a sighting new in `a` and
/// remembered in `b`: a running preserved container, or a loaded
/// telemetry module.
pub open spec fn new_record(a: Inspected, b: Inspected, x: ActionView) -> bool {
    ||| x.kind == "ContainerProcess"@ && preserved_container(x.path) && !a.containers.contains(
        sighting_of(x),
    ) && b.containers.contains(sighting_of(x))
    ||| x.kind == "LoadedTelemetryModule"@ && module_is_telemetry(x.path) && !a.modules.contains(
        sighting_of(x),
    ) && b.modules.contains(sighting_of(x))
}

/// From `a` to `b` the records only grow: the earlier records stay, the
/// remembered keys stay, every added record is a new sighting, and no two
/// added records of one kind share a sighting key.
pub open spec fn grows(a: Inspected, b: Inspected) -> bool {
    &&& a.actions.len() <= b.actions.len()
    &&& forall|i: int| 0 <= i < a.actions.len() ==> b.actions[i] == a.actions[i]
    &&& a.containers.subset_of(b.containers)
    &&& a.modules.subset_of(b.modules)
    &&& forall|i: int| a.actions.len() <= i < b.actions.len() ==> new_record(a, b, #[trigger] b.actions[i])
    &&& forall|i: int, j: int|
        a.actions.len() <= i < j < b.actions.len() && (#[trigger] b.actions[i]).kind == (
        #[trigger] b.actions[j]).kind ==> sighting_of(b.actions[i]) != sighting_of(b.actions[j])
}

proof fn lemma_kinds_differ()
    ensures
        "ContainerProcess"@ != "LoadedTelemetryModule"@,
{
    reveal_strlit("ContainerProcess");
    reveal_strlit("LoadedTelemetryModule");
    assert("ContainerProcess"@.len() != "LoadedTelemetryModule"@.len());
}

proof fn lemma_sighting_of_record(pid: u32, path: Seq<char>)
    ensures
        sighting_of(container_action(pid, path)) == sighting_key(pid, path),
        sighting_of(module_action(pid, path)) == sighting_key(pid, path),
{
    reveal_strlit("PID=");
    assert(("PID="@ + decimal_nat(pid as nat)).skip(4) =~= decimal_nat(pid as nat));
}

/// Nothing recorded or remembered changes.
proof fn lemma_grows_same(a: Inspected, b: Inspected)
    requires
        b.containers == a.containers,
        b.modules == a.modules,
        b.actions == a.actions,
    ensures
        grows(a, b),
{
}

/// Growth composes.
proof fn lemma_grows_trans(a: Inspected, b: Inspected, c: Inspected)
    requires
        grows(a, b),
        grows(b, c),
    ensures
        grows(a, c),
{
    lemma_kinds_differ();
    let na = a.actions.len() as int;
    let nb = b.actions.len() as int;
    let nc = c.actions.len() as int;
    assert forall|i: int| na <= i < nc implies new_record(a, c, #[trigger] c.actions[i]) by {
        if i < nb {
            assert(c.actions[i] == b.actions[i]);
            assert(new_record(a, b, b.actions[i]));
        } else {
            assert(new_record(b, c, c.actions[i]));
        }
    }
    assert forall|i: int, j: int|
        na <= i < j < nc && (#[trigger] c.actions[i]).kind == (#[trigger] c.actions[j]).kind implies sighting_of(
        c.actions[i],
    ) != sighting_of(c.actions[j]) by {
        if j < nb {
            assert(c.actions[i] == b.actions[i] && c.actions[j] == b.actions[j]);
        } else if i >= nb {
        } else {
            assert(c.actions[i] == b.actions[i]);
            assert(new_record(a, b, b.actions[i]));
            assert(new_record(b, c, c.actions[j]));
        }
    }
}

proof fn lemma_container_step_grows(st: Inspected, pid: u32, exe: Seq<char>)
    requires
        preserved_container(exe),
    ensures
        grows(st, container_step(st, pid, exe)),
{
    lemma_sighting_of_record(pid, exe);
    let r = container_step(st, pid, exe);
    if st.containers.contains(sighting_key(pid, exe)) {
        lemma_grows_same(st, r);
    } else {
        assert(r.actions[st.actions.len() as int] == container_action(pid, exe));
    }
}

proof fn lemma_module_step_grows(st: Inspected, pid: u32, path: Seq<char>, post: bool)
    ensures
        grows(st, module_step(st, pid, path, post)),
{
    lemma_sighting_of_record(pid, path);
    let r = module_step(st, pid, path, post);
    if module_is_telemetry(path) && !st.modules.contains(sighting_key(pid, path)) {
        assert(r.actions[st.actions.len() as int] == module_action(pid, path));
    } else {
        lemma_grows_same(st, r);
    }
}

proof fn lemma_modules_fold_grows(st: Inspected, pid: u32, paths: Seq<Seq<char>>, post: bool)
    ensures
        grows(st, modules_fold(st, pid, paths, post)),
    decreases paths.len(),
{
    if paths.len() == 0 {
        lemma_grows_same(st, st);
    } else {
        let m = modules_fold(st, pid, paths.drop_last(), post);
        lemma_modules_fold_grows(st, pid, paths.drop_last(), post);
        lemma_module_step_grows(m, pid, paths.last(), post);
        lemma_grows_trans(st, m, module_step(m, pid, paths.last(), post));
    }
}

proof fn lemma_process_step_grows(
    st: Inspected,
    s: (u32, Seq<char>, Result<Seq<Seq<char>>, Seq<char>>),
    post: bool,
)
    ensures
        grows(st, process_step(st, s, post)),
{
    if !preserved_container(s.1) {
        lemma_grows_same(st, st);
    } else {
        let st1 = container_step(st, s.0, s.1);
        lemma_container_step_grows(st, s.0, s.1);
        match s.2 {
            Ok(paths) => {
                lemma_modules_fold_grows(st1, s.0, paths, post);
                lemma_grows_trans(st, st1, modules_fold(st1, s.0, paths, post));
            },
            Err(e) => {
                let r = Inspected { lines: st1.lines.push(("WARN"@, module_failure_message(s.0, e))), ..st1 };
                lemma_grows_same(st1, r);
                lemma_grows_trans(st, st1, r);
            },
        }
    }
}

/// An inspection pass only adds new records, none of a sighting twice.
pub proof fn lemma_inspection_grows(
    st: Inspected,
    ss: Seq<(u32, Seq<char>, Result<Seq<Seq<char>>, Seq<char>>)>,
    post: bool,
)
    ensures
        grows(st, inspection(st, ss, post)),
    decreases ss.len(),
{
    if ss.len() == 0 {
        lemma_grows_same(st, st);
    } else {
        let m = inspection(st, ss.drop_last(), post);
        lemma_inspection_grows(st, ss.drop_last(), post);
        lemma_process_step_grows(m, ss.last(), post);
        lemma_grows_trans(st, m, process_step(m, ss.last(), post));
    }
}

/// Across the two inspections of a run (before deletion, and after it)
/// every running container and every loaded telemetry module is recorded
/// at most once: the records added by both passes together are all new
/// container or module sightings, and no two records of one kind share a
/// pid and path. The earlier records are kept.
pub proof fn lemma_two_inspections_record_once(
    st: Inspected,
    first: Seq<(u32, Seq<char>, Result<Seq<Seq<char>>, Seq<char>>)>,
    second: Seq<(u32, Seq<char>, Result<Seq<Seq<char>>, Seq<char>>)>,
)
    ensures
        grows(st, inspection(inspection(st, first, false), second, true)),
{
    let r1 = inspection(st, first, false);
    lemma_inspection_grows(st, first, false);
    lemma_inspection_grows(r1, second, true);
    lemma_grows_trans(st, r1, inspection(r1, second, true));
}

// ---------------------------------------------------------------------------
// The pass itself
// ---------------------------------------------------------------------------

/// The records of a run, as plain values.
pub open spec fn actions_view(s: RunState) -> Seq<ActionView> {
    s.actions@.map_values(|a: ActionRecord| a@)
}

/// Log lines as (level, message).
pub open spec fn lines_view(v: Seq<LogLine>) -> Seq<(Seq<char>, Seq<char>)> {
    v.map_values(|l: LogLine| (l.level@, l.message@))
}

/// What the run remembers, as an inspection state with no lines yet.
pub open spec fn inspected_of(s: RunState) -> Inspected {
    Inspected {
        containers: s.reported_containers@,
        modules: s.reported_modules@,
        actions: actions_view(s),
        lines: Seq::empty(),
    }
}

/// All sightings of a pass as plain values.
pub open spec fn sightings_view(v: Seq<ProcessModules>) -> Seq<(u32, Seq<char>, Result<Seq<Seq<char>>, Seq<char>>)> {
    v.map_values(|s: ProcessModules| sighting_view(s))
}

/// Runs one inspection pass over `sightings` (the running processes, with
/// the loaded modules of each preserved container as read), through
/// `note_container` and `note_module`. Returns the lines to log, in order.
/// Every record it adds is a new container or module sighting, and no two
/// of one kind share a pid and path.
pub fn inspect_sightings(state: &mut RunState, sightings: &Vec<ProcessModules>, post_delete_phase: bool) -> (lines: Vec<LogLine>)
    ensures
        ({
            let r = inspection(inspected_of(*old(state)), sightings_view(sightings@), post_delete_phase);
            &&& final(state).reported_containers@ == r.containers
            &&& final(state).reported_modules@ == r.modules
            &&& actions_view(*final(state)) == r.actions
            &&& lines_view(lines@) == r.lines
            &&& grows(inspected_of(*old(state)), inspected_of(*final(state)))
        }),
        same_but_actions_and_sightings(*old(state), *final(state)),
{
    let ghost st0 = inspected_of(*state);
    let ghost sv = sightings_view(sightings@);
    let mut lines: Vec<LogLine> = Vec::new();
    let mut i: usize = 0;
    proof {
        assert(sv.take(0) =~= Seq::<(u32, Seq<char>, Result<Seq<Seq<char>>, Seq<char>>)>::empty());
        assert(lines_view(lines@) =~= Seq::<(Seq<char>, Seq<char>)>::empty());
    }
    while i < sightings.len()
        invariant
            i <= sightings.len(),
            sv == sightings_view(sightings@),
            st0.lines == Seq::<(Seq<char>, Seq<char>)>::empty(),
            ({
                let r = inspection(st0, sv.take(i as int), post_delete_phase);
                &&& state.reported_containers@ == r.containers
                &&& state.reported_modules@ == r.modules
                &&& actions_view(*state) == r.actions
                &&& lines_view(lines@) == r.lines
            }),
            same_but_actions_and_sightings(*old(state), *state),
            st0 == inspected_of(*old(state)),
        decreases sightings.len() - i,
    {
        let s = &sightings[i];
        let ghost before = inspection(st0, sv.take(i as int), post_delete_phase);
        proof {
            assert(sv.take(i + 1).drop_last() =~= sv.take(i as int));
            assert(sv.take(i + 1).last() == sv[i as int]);
            assert(sv[i as int] == sighting_view(*s));
        }
        if is_preserved_container_name(s.proc.exe_name.as_str()) {
            inspect_one(state, s, post_delete_phase, &mut lines, Ghost(before));
        }
        i = i + 1;
    }
    proof {
        assert(sv.take(sightings.len() as int) =~= sv);
        let r = inspection(st0, sv, post_delete_phase);
        lemma_inspection_grows(st0, sv, post_delete_phase);
        assert(inspected_of(*state).actions == r.actions);
        assert(grows(st0, inspected_of(*state))) by {
            assert(inspected_of(*state).containers == r.containers);
            assert(inspected_of(*state).modules == r.modules);
        }
    }
    lines
}

/// The state as it stands, with the lines logged so far.
spec fn state_matches(s: RunState, lines: Seq<LogLine>, m: Inspected) -> bool {
    &&& s.reported_containers@ == m.containers
    &&& s.reported_modules@ == m.modules
    &&& actions_view(s) == m.actions
    &&& lines_view(lines) == m.lines
}

/// One preserved container: `note_container`, then `note_module` for each
/// of its modules, or the read failure.
fn inspect_one(
    state: &mut RunState,
    s: &ProcessModules,
    post: bool,
    lines: &mut Vec<LogLine>,
    Ghost(before): Ghost<Inspected>,
)
    requires
        preserved_container(s.proc.exe_name@),
        state_matches(*old(state), old(lines)@, before),
    ensures
        state_matches(*final(state), final(lines)@, process_step(before, sighting_view(*s), post)),
        same_but_actions_and_sightings(*old(state), *final(state)),
{
    let ghost pid = s.proc.pid;
    let ghost exe = s.proc.exe_name@;
    let ghost acts0 = actions_view(*state);
    let ghost lines0 = lines@;
    proof {
        let k = sighting_key(pid, exe);
        if before.containers.contains(k) {
            assert(before.containers.insert(k) =~= before.containers);
        }
    }
    let msg = note_container(state, &s.proc);
    match msg {
        Some(m) => {
            proof {
                assert(actions_view(*state) =~= acts0.push(container_action(pid, exe)));
            }
            lines.push(LogLine { level: String::from_str("INFO"), message: m });
            proof {
                reveal_strlit("INFO");
                assert(lines_view(lines@) =~= lines_view(lines0).push(
                    ("INFO"@, "Container running: PID="@ + decimal_nat(pid as nat) + " Name="@ + exe),
                ));
            }
        },
        None => {
            proof {
                assert(actions_view(*state) =~= acts0);
            }
        },
    }
    let ghost st1 = container_step(before, pid, exe);
    assert(state_matches(*state, lines@, st1));
    match &s.modules {
        Ok(paths) => {
            let mut k: usize = 0;
            let ghost pv = views(paths@);
            proof {
                assert(pv.take(0) =~= Seq::<Seq<char>>::empty());
            }
            while k < paths.len()
                invariant
                    k <= paths.len(),
                    pv == views(paths@),
                    state_matches(*state, lines@, modules_fold(st1, s.proc.pid, pv.take(k as int), post)),
                    same_but_actions_and_sightings(*old(state), *state),
                decreases paths.len() - k,
            {
                let ghost m0 = modules_fold(st1, s.proc.pid, pv.take(k as int), post);
                let ghost acts1 = actions_view(*state);
                let ghost lines1 = lines@;
                let path = paths[k].as_str();
                proof {
                    let key = sighting_key(s.proc.pid, path@);
                    if m0.modules.contains(key) {
                        assert(m0.modules.insert(key) =~= m0.modules);
                    }
                    assert(pv.take(k + 1).drop_last() =~= pv.take(k as int));
                    assert(pv.take(k + 1).last() == path@);
                    reveal_strlit("WARN");
                    reveal_strlit("INFO");
                }
                let r = note_module(state, s.proc.pid, path, post);
                match r {
                    Some(line) => {
                        proof {
                            if line.level@ == "WARN"@ {
                                assert(actions_view(*state) =~= acts1.push(module_action(s.proc.pid, path@)));
                            } else {
                                assert(actions_view(*state) =~= acts1);
                            }
                        }
                        lines.push(line);
                        proof {
                            assert(lines_view(lines@) =~= lines_view(lines1).push((line.level@, line.message@)));
                        }
                    },
                    None => {
                        proof {
                            assert(actions_view(*state) =~= acts1);
                        }
                    },
                }
                k = k + 1;
            }
            proof {
                assert(pv.take(paths.len() as int) =~= pv);
            }
        },
        Err(e) => {
            let mut msg = String::from_str("Module inspection failed for PID=");
            push_decimal(&mut msg, s.proc.pid as u64);
            let text = concat3(msg.as_str(), ": ", e.as_str());
            let ghost lines1 = lines@;
            lines.push(LogLine { level: String::from_str("WARN"), message: text });
            proof {
                reveal_strlit("WARN");
                assert(lines_view(lines@) =~= lines_view(lines1).push(
                    ("WARN"@, module_failure_message(pid, e@)),
                ));
            }
        },
    }
}

} // verus!
