//! Shared data types: run options, catalog components, discovered
//! candidates, action records and the per-run state, each with the
//! mathematical view its contracts speak of.

use vstd::prelude::*;
use crate::text::{copy_string, views};

verus! {

/// Command-line options of one run.
#[derive(Clone)]
pub struct Options {
    pub execute: bool,
    pub menu: bool,
    /// Bare launch: wizard presets applied.
    pub wizard_defaults: bool,
    /// `--pause`: force a final "Press Enter".
    pub pause_on_exit: bool,
    pub ti_child: bool,
    pub allow_admin_fallback: bool,
    pub attempt_ti_relaunch: bool,
    pub kill_lockers: bool,
    pub preserve_nv_containers: bool,
    pub disable_services: bool,
    pub delete_services: bool,
    pub disable_scheduled_tasks: bool,
    pub delete_scheduled_tasks: bool,
    pub schedule_locked_for_reboot: bool,
    pub take_ownership: bool,
    pub include_ngx: bool,
    pub include_hd_audio: bool,
    pub include_physx: bool,
    pub include_notebook_optimus: bool,
    pub include_virtual_audio: bool,
    pub include_nvwmi: bool,
    pub include_capture_sdk: bool,
    pub no_pause: bool,
    pub no_color: bool,
    pub ti_wait_seconds: i64,
    pub status_file: String,
    pub log_dir_override: String,
    pub log_file_override: String,
    /// Name of the named event through which the unelevated launcher relays
    /// an abort request to this elevated process (internal handoff).
    pub abort_event: String,
    pub show_help: bool,
    pub show_version: bool,
    pub list_components: bool,
    pub unknown_args: Vec<String>,
}

/// Mathematical view of [`Options`]: strings as character sequences.
pub ghost struct OptionsView {
    pub execute: bool,
    pub menu: bool,
    pub wizard_defaults: bool,
    pub pause_on_exit: bool,
    pub ti_child: bool,
    pub allow_admin_fallback: bool,
    pub attempt_ti_relaunch: bool,
    pub kill_lockers: bool,
    pub preserve_nv_containers: bool,
    pub disable_services: bool,
    pub delete_services: bool,
    pub disable_scheduled_tasks: bool,
    pub delete_scheduled_tasks: bool,
    pub schedule_locked_for_reboot: bool,
    pub take_ownership: bool,
    pub include_ngx: bool,
    pub include_hd_audio: bool,
    pub include_physx: bool,
    pub include_notebook_optimus: bool,
    pub include_virtual_audio: bool,
    pub include_nvwmi: bool,
    pub include_capture_sdk: bool,
    pub no_pause: bool,
    pub no_color: bool,
    pub ti_wait_seconds: int,
    pub status_file: Seq<char>,
    pub log_dir_override: Seq<char>,
    pub log_file_override: Seq<char>,
    pub abort_event: Seq<char>,
    pub show_help: bool,
    pub show_version: bool,
    pub list_components: bool,
    pub unknown_args: Seq<Seq<char>>,
}

impl View for Options {
    type V = OptionsView;

    open spec fn view(&self) -> OptionsView {
        OptionsView {
            execute: self.execute,
            menu: self.menu,
            wizard_defaults: self.wizard_defaults,
            pause_on_exit: self.pause_on_exit,
            ti_child: self.ti_child,
            allow_admin_fallback: self.allow_admin_fallback,
            attempt_ti_relaunch: self.attempt_ti_relaunch,
            kill_lockers: self.kill_lockers,
            preserve_nv_containers: self.preserve_nv_containers,
            disable_services: self.disable_services,
            delete_services: self.delete_services,
            disable_scheduled_tasks: self.disable_scheduled_tasks,
            delete_scheduled_tasks: self.delete_scheduled_tasks,
            schedule_locked_for_reboot: self.schedule_locked_for_reboot,
            take_ownership: self.take_ownership,
            include_ngx: self.include_ngx,
            include_hd_audio: self.include_hd_audio,
            include_physx: self.include_physx,
            include_notebook_optimus: self.include_notebook_optimus,
            include_virtual_audio: self.include_virtual_audio,
            include_nvwmi: self.include_nvwmi,
            include_capture_sdk: self.include_capture_sdk,
            no_pause: self.no_pause,
            no_color: self.no_color,
            ti_wait_seconds: self.ti_wait_seconds as int,
            status_file: self.status_file@,
            log_dir_override: self.log_dir_override@,
            log_file_override: self.log_file_override@,
            abort_event: self.abort_event@,
            show_help: self.show_help,
            show_version: self.show_version,
            list_components: self.list_components,
            unknown_args: views(self.unknown_args@),
        }
    }
}

/// Options of a run that passed no switch at all: dry run, TrustedInstaller
/// relaunch allowed, NVIDIA containers preserved, scheduled tasks disabled,
/// a 600-second wait for the elevated child.
pub open spec fn default_options_view() -> OptionsView {
    OptionsView {
        execute: false,
        menu: false,
        wizard_defaults: false,
        pause_on_exit: false,
        ti_child: false,
        allow_admin_fallback: false,
        attempt_ti_relaunch: true,
        kill_lockers: false,
        preserve_nv_containers: true,
        disable_services: false,
        delete_services: false,
        disable_scheduled_tasks: true,
        delete_scheduled_tasks: false,
        schedule_locked_for_reboot: false,
        take_ownership: false,
        include_ngx: false,
        include_hd_audio: false,
        include_physx: false,
        include_notebook_optimus: false,
        include_virtual_audio: false,
        include_nvwmi: false,
        include_capture_sdk: false,
        no_pause: false,
        no_color: false,
        ti_wait_seconds: 600,
        status_file: Seq::empty(),
        log_dir_override: Seq::empty(),
        log_file_override: Seq::empty(),
        abort_event: Seq::empty(),
        show_help: false,
        show_version: false,
        list_components: false,
        unknown_args: Seq::empty(),
    }
}

impl Default for Options {
    fn default() -> (r: Options)
        ensures
            r@ == default_options_view(),
    {
        let r = Options {
            execute: false,
            menu: false,
            wizard_defaults: false,
            pause_on_exit: false,
            ti_child: false,
            allow_admin_fallback: false,
            attempt_ti_relaunch: true,
            kill_lockers: false,
            preserve_nv_containers: true,
            disable_services: false,
            delete_services: false,
            disable_scheduled_tasks: true,
            delete_scheduled_tasks: false,
            schedule_locked_for_reboot: false,
            take_ownership: false,
            include_ngx: false,
            include_hd_audio: false,
            include_physx: false,
            include_notebook_optimus: false,
            include_virtual_audio: false,
            include_nvwmi: false,
            include_capture_sdk: false,
            no_pause: false,
            no_color: false,
            ti_wait_seconds: 600,
            status_file: String::new(),
            log_dir_override: String::new(),
            log_file_override: String::new(),
            abort_event: String::new(),
            show_help: false,
            show_version: false,
            list_components: false,
            unknown_args: Vec::new(),
        };
        assert(views(r.unknown_args@) =~= Seq::<Seq<char>>::empty());
        r
    }
}

/// One bloat component of the catalog.
#[derive(Clone)]
pub struct Component {
    pub key: String,
    pub display_name: String,
    pub default_enabled: bool,
    pub optional: bool,
    pub leaf_globs: Vec<String>,
    pub exact_leaf_names: Vec<String>,
}

/// Mathematical view of [`Component`].
pub ghost struct ComponentView {
    pub key: Seq<char>,
    pub display_name: Seq<char>,
    pub default_enabled: bool,
    pub optional: bool,
    pub leaf_globs: Seq<Seq<char>>,
    pub exact_leaf_names: Seq<Seq<char>>,
}

impl View for Component {
    type V = ComponentView;

    open spec fn view(&self) -> ComponentView {
        ComponentView {
            key: self.key@,
            display_name: self.display_name@,
            default_enabled: self.default_enabled,
            optional: self.optional,
            leaf_globs: views(self.leaf_globs@),
            exact_leaf_names: views(self.exact_leaf_names@),
        }
    }
}

/// A copy of a list of strings.
pub fn copy_strings(v: &Vec<String>) -> (r: Vec<String>)
    ensures
        views(r@) == views(v@),
{
    let mut r: Vec<String> = Vec::new();
    let mut i: usize = 0;
    while i < v.len()
        invariant
            i <= v.len(),
            views(r@) == views(v@).take(i as int),
        decreases v.len() - i,
    {
        let s = copy_string(&v[i]);
        let ghost before = views(r@);
        r.push(s);
        assert(views(r@) =~= before.push(v@[i as int]@));
        assert(views(v@).take(i + 1) =~= views(v@).take(i as int).push(v@[i as int]@));
        i = i + 1;
    }
    assert(views(v@).take(v@.len() as int) =~= views(v@));
    r
}

impl Component {
    /// A copy of this component.
    pub fn copy(&self) -> (r: Component)
        ensures
            r@ == self@,
    {
        Component {
            key: copy_string(&self.key),
            display_name: copy_string(&self.display_name),
            default_enabled: self.default_enabled,
            optional: self.optional,
            leaf_globs: copy_strings(&self.leaf_globs),
            exact_leaf_names: copy_strings(&self.exact_leaf_names),
        }
    }
}

/// A filesystem path discovered for deletion.
#[derive(Clone)]
pub struct Candidate {
    pub path: String,
    pub component_key: String,
    pub component_name: String,
    pub is_directory: bool,
}

/// Mathematical view of [`Candidate`].
pub ghost struct CandidateView {
    pub path: Seq<char>,
    pub component_key: Seq<char>,
    pub component_name: Seq<char>,
    pub is_directory: bool,
}

impl View for Candidate {
    type V = CandidateView;

    open spec fn view(&self) -> CandidateView {
        CandidateView {
            path: self.path@,
            component_key: self.component_key@,
            component_name: self.component_name@,
            is_directory: self.is_directory,
        }
    }
}

impl Candidate {
    /// A copy of this candidate.
    pub fn copy(&self) -> (r: Candidate)
        ensures
            r@ == self@,
    {
        Candidate {
            path: copy_string(&self.path),
            component_key: copy_string(&self.component_key),
            component_name: copy_string(&self.component_name),
            is_directory: self.is_directory,
        }
    }
}

/// One logged action (kind, status, component, path, detail).
#[derive(Clone)]
pub struct ActionRecord {
    pub kind: String,
    pub status: String,
    pub component: String,
    pub path: String,
    pub detail: String,
}

/// Mathematical view of [`ActionRecord`].
pub ghost struct ActionView {
    pub kind: Seq<char>,
    pub status: Seq<char>,
    pub component: Seq<char>,
    pub path: Seq<char>,
    pub detail: Seq<char>,
}

impl View for ActionRecord {
    type V = ActionView;

    open spec fn view(&self) -> ActionView {
        ActionView {
            kind: self.kind@,
            status: self.status@,
            component: self.component@,
            path: self.path@,
            detail: self.detail@,
        }
    }
}


/// Set of keys already reported, so repeated sightings are logged once.
pub struct SightingSet {
    items: Vec<String>,
}

impl View for SightingSet {
    type V = Set<Seq<char>>;

    closed spec fn view(&self) -> Set<Seq<char>> {
        views(self.items@).to_set()
    }
}

impl SightingSet {
    /// An empty set.
    pub fn new() -> (r: SightingSet)
        ensures
            r@ == Set::<Seq<char>>::empty(),
    {
        let r = SightingSet { items: Vec::new() };
        assert(views(r.items@) =~= Seq::<Seq<char>>::empty());
        assert(r@ =~= Set::<Seq<char>>::empty());
        r
    }

    /// Whether `key` was recorded.
    pub fn contains(&self, key: &str) -> (r: bool)
        ensures
            r == self@.contains(key@),
    {
        let mut i: usize = 0;
        while i < self.items.len()
            invariant
                i <= self.items.len(),
                forall|j: int| 0 <= j < i ==> views(self.items@)[j] != key@,
            decreases self.items.len() - i,
        {
            if self.items[i].eq(&String::from_str(key)) {
                assert(views(self.items@)[i as int] == key@);
                return true;
            }
            i = i + 1;
        }
        proof {
            if views(self.items@).to_set().contains(key@) {
                let j = choose|j: int| 0 <= j < views(self.items@).len() && views(self.items@)[j]
                    == key@;
                assert(views(self.items@).contains(key@));
            }
        }
        false
    }

    /// Records `key`; true when it was not recorded before.
    pub fn insert(&mut self, key: &str) -> (r: bool)
        ensures
            r == !old(self)@.contains(key@),
            final(self)@ == old(self)@.insert(key@),
    {
        if self.contains(key) {
            assert(self@.insert(key@) =~= self@);
            return false;
        }
        let ghost before = views(self.items@);
        self.items.push(String::from_str(key));
        assert(views(self.items@) =~= before.push(key@));
        proof {
            before.lemma_push_to_set_commute(key@);
        }
        assert(self@ =~= old(self)@.insert(key@));
        true
    }
}

/// State of one run: identity of the run, recorded actions, discovered
/// candidates, post-run and history tallies, and the sighting sets.
pub struct RunState {
    pub exe_path: String,
    pub exe_dir: String,
    pub run_id: String,
    pub log_path: String,
    pub actions: Vec<ActionRecord>,
    pub candidates: Vec<Candidate>,
    pub aborted: bool,
    /// Filled by the post-run existence check.
    pub post_run_check_done: bool,
    pub paths_remaining_after_run: i64,
    pub paths_pending_reboot: i64,
    /// Filled by the previous-log tally at the start of a cleanup.
    pub history_scan_done: bool,
    pub history_log_files: i64,
    pub history_runs: i64,
    pub history_candidates: i64,
    /// Containers and loaded modules already reported, across both
    /// inspection phases.
    pub reported_containers: SightingSet,
    pub reported_modules: SightingSet,
    /// Lowercased paths whose deletion at reboot was scheduled.
    pub reboot_scheduled_paths: SightingSet,
}

impl Default for RunState {
    fn default() -> (r: RunState)
        ensures
            r.exe_path@ == Seq::<char>::empty(),
            r.exe_dir@ == Seq::<char>::empty(),
            r.run_id@ == Seq::<char>::empty(),
            r.log_path@ == Seq::<char>::empty(),
            r.actions@ == Seq::<ActionRecord>::empty(),
            r.candidates@ == Seq::<Candidate>::empty(),
            !r.aborted,
            !r.post_run_check_done,
            r.paths_remaining_after_run == 0,
            r.paths_pending_reboot == 0,
            !r.history_scan_done,
            r.history_log_files == 0,
            r.history_runs == 0,
            r.history_candidates == 0,
            r.reported_containers@ == Set::<Seq<char>>::empty(),
            r.reported_modules@ == Set::<Seq<char>>::empty(),
            r.reboot_scheduled_paths@ == Set::<Seq<char>>::empty(),
    {
        RunState {
            exe_path: String::new(),
            exe_dir: String::new(),
            run_id: String::new(),
            log_path: String::new(),
            actions: Vec::new(),
            candidates: Vec::new(),
            aborted: false,
            post_run_check_done: false,
            paths_remaining_after_run: 0,
            paths_pending_reboot: 0,
            history_scan_done: false,
            history_log_files: 0,
            history_runs: 0,
            history_candidates: 0,
            reported_containers: SightingSet::new(),
            reported_modules: SightingSet::new(),
            reboot_scheduled_paths: SightingSet::new(),
        }
    }
}

/// One running process: its id and executable name.
pub struct ProcessEntry {
    pub pid: u32,
    pub exe_name: String,
}

/// One Win32 service: its key name and display name.
pub struct ServiceEntry {
    pub name: String,
    pub display: String,
}

/// How a service stop request ended.
pub enum StopOutcome {
    /// Confirmed stopped.
    Stopped,
    /// Already stopped before the request.
    AlreadyStopped,
    /// Still not stopped after the convergence deadline.
    StopPendingTimeout,
    /// The status could not be read (Win32 error); the stop may have worked.
    QueryFailed(u32),
}

/// A failed COM call's HRESULT.
pub struct HrError(pub i32);

/// State of the relaunch task as polled.
#[derive(Clone, Copy, PartialEq, Eq, Debug)]
pub enum TiState {
    Running,
    Queued,
    Other(i32),
}

/// Result of running a child process with captured output.
pub struct CaptureResult {
    pub exit_code: u32,
    pub output: String,
    pub started: bool,
    /// The timeout elapsed and the direct child was terminated.
    pub timed_out: bool,
    /// The abort request fired during the wait.
    pub aborted: bool,
}

/// Exit code and decoded output of an external command.
#[derive(Clone)]
pub struct ProcessResult {
    pub exit_code: u32,
    pub output: String,
    pub started: bool,
}

impl Default for ProcessResult {
    /// Not started: exit code `0xFFFFFFFF`, no output.
    fn default() -> (r: ProcessResult)
        ensures
            r.exit_code == 0xFFFF_FFFFu32,
            r.output@ == Seq::<char>::empty(),
            !r.started,
    {
        ProcessResult { exit_code: 0xFFFF_FFFF, output: String::new(), started: false }
    }
}

} // verus!
