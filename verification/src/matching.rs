//! NVIDIA matching predicates, the safety core of the tool. Fail-closed
//! direction is mandatory here: when in doubt, a path must NOT match for
//! deletion, and a process, service or task must NOT be mutated.

use vstd::prelude::*;
use crate::app::{is_enabled, EnabledMap};
use crate::components::{build_components, catalog, literal_views};
use crate::glob::greedy_match;
use crate::text::{
    ascii_lower_seq, chars_of, contains_seq, contains_str, ends_seq, ends_with_str, eq_chars,
    eq_ignore_ascii_case, lower_chars, lowercase, string_of, to_lower,
};
use crate::tokens::{is_token, next_token, at_boundary};
use crate::types::{Component, ComponentView};
use crate::util::{contains_no_case, wildcard_match_no_case};
use crate::winpath::{leaf_chars, leaf_of, parent_chars, parent_of};

verus! {

/// Lowercased text of a path.
pub fn path_wide_lower(p: &str) -> (r: String)
    ensures
        r@ == lowercase(p@),
{
    to_lower(p)
}

// ---------------------------------------------------------------------------
// NVIDIA context of names
// ---------------------------------------------------------------------------

/// The token `l[a..b]` is `nv` itself or an `nv` token of four or more
/// characters (three-character `nv?` tokens deliberately do not count).
pub open spec fn is_nv_word(l: Seq<char>, a: int, b: int) -> bool {
    &&& b - a == 2 || b - a >= 4
    &&& l[a] == 'n'
    &&& l[a + 1] == 'v'
}

/// `l` holds an `nv` token.
pub open spec fn has_nv_token(l: Seq<char>) -> bool {
    exists|a: int, b: int| #[trigger] is_token(l, a, b) && is_nv_word(l, a, b)
}

/// `s` names something of NVIDIA: its lowercase holds `nvidia`, `geforce`,
/// `frameview`, `shadowplay` or `displaydriverras`, or an `nv` token. A bare
/// `nv` substring inside a word (Inventory, Invoice, Convergence) does not
/// count.
pub open spec fn nvidia_context(s: Seq<char>) -> bool {
    let l = lowercase(s);
    ||| contains_seq(l, "nvidia"@)
    ||| contains_seq(l, "geforce"@)
    ||| contains_seq(l, "frameview"@)
    ||| contains_seq(l, "shadowplay"@)
    ||| contains_seq(l, "displaydriverras"@)
    ||| has_nv_token(l)
}

fn has_nv_token_exec(l: &Vec<char>) -> (r: bool)
    ensures
        r == has_nv_token(l@),
{
    let mut i: usize = 0;
    while i < l.len()
        invariant
            i <= l.len(),
            at_boundary(l@, i as int),
            forall|a: int, b: int| a < i && #[trigger] is_token(l@, a, b) ==> !is_nv_word(l@, a, b),
        decreases l.len() - i,
    {
        let (s, e) = next_token(l, i);
        if s < e && l[s] == 'n' && s + 1 < l.len() && l[s + 1] == 'v' {
            let len = e - s;
            if len == 2 || len >= 4 {
                assert(is_token(l@, s as int, e as int) && is_nv_word(l@, s as int, e as int));
                return true;
            }
        }
        i = e;
    }
    false
}

/// Whether `s` names something of NVIDIA (see `nvidia_context`).
pub fn is_nvidia_context_string(s: &str) -> (r: bool)
    ensures
        r == nvidia_context(s@),
{
    let l = lower_chars(s);
    if contains_str(&l, "nvidia") || contains_str(&l, "geforce") || contains_str(&l, "frameview")
        || contains_str(&l, "shadowplay") || contains_str(&l, "displaydriverras") {
        return true;
    }
    has_nv_token_exec(&l)
}

/// The name or path refers to an NVIDIA display container process.
pub open spec fn preserved_container(s: Seq<char>) -> bool {
    contains_seq(lowercase(s), "nvdisplay.container"@) || contains_seq(
        lowercase(s),
        "nvcontainer.exe"@,
    )
}

/// Whether the name or path refers to an NVIDIA display container process.
pub fn is_preserved_container_name(name_or_path: &str) -> (r: bool)
    ensures
        r == preserved_container(name_or_path@),
{
    let l = lower_chars(name_or_path);
    contains_str(&l, "nvdisplay.container") || contains_str(&l, "nvcontainer.exe")
}

// ---------------------------------------------------------------------------
// Loaded modules
// ---------------------------------------------------------------------------

/// Leaf globs of telemetry and updater modules.
pub open spec fn module_globs() -> Seq<Seq<char>> {
    literal_views(
        seq![
            "*Telemetry*",
            "_DisplayDriverRAS.dll",
            "_NvMsgBusBroadcast.dll",
            "_nvtopps.dll",
            "_NvGSTPlugin.dll",
            "nvprofileupdaterplugin.dll",
            "*ProfileUpdater*",
            "*DriverUpdate*",
        ],
    )
}

/// The module's file leaf matches one of the telemetry/updater globs.
pub open spec fn module_is_telemetry(path: Seq<char>) -> bool {
    exists|i: int|
        0 <= i < module_globs().len() && #[trigger] greedy_match(
            lowercase(leaf_of(path)),
            lowercase(module_globs()[i]),
        )
}

/// Whether a loaded module (by path) is a telemetry or updater module.
pub fn module_is_telemetry_or_updater(path: &str) -> (r: bool)
    ensures
        r == module_is_telemetry(path@),
{
    let globs: [&str; 8] = [
        "*Telemetry*",
        "_DisplayDriverRAS.dll",
        "_NvMsgBusBroadcast.dll",
        "_nvtopps.dll",
        "_NvGSTPlugin.dll",
        "nvprofileupdaterplugin.dll",
        "*ProfileUpdater*",
        "*DriverUpdate*",
    ];
    proof {
        assert(globs@ =~= seq![
            "*Telemetry*",
            "_DisplayDriverRAS.dll",
            "_NvMsgBusBroadcast.dll",
            "_nvtopps.dll",
            "_NvGSTPlugin.dll",
            "nvprofileupdaterplugin.dll",
            "*ProfileUpdater*",
            "*DriverUpdate*",
        ]);
    }
    let p = chars_of(path);
    let leaf = string_of(&leaf_chars(&p));
    let mut i: usize = 0;
    while i < 8
        invariant
            i <= 8,
            leaf@ == leaf_of(path@),
            globs@.map_values(|x: &str| x@) == module_globs(),
            forall|k: int| 0 <= k < i ==> !#[trigger] greedy_match(
                lowercase(leaf_of(path@)),
                lowercase(module_globs()[k]),
            ),
        decreases 8 - i,
    {
        if wildcard_match_no_case(leaf.as_str(), globs[i]) {
            assert(greedy_match(lowercase(leaf_of(path@)), lowercase(module_globs()[i as int])));
            return true;
        }
        i = i + 1;
    }
    false
}

// ---------------------------------------------------------------------------
// DriverStore and exclusion guards
// ---------------------------------------------------------------------------

/// The lowercased leaf carries a DriverStore package architecture marker
/// (`.inf_amd64` or `.inf_arm64`).
pub open spec fn inf_arch_marker(leaf_lower: Seq<char>) -> bool {
    contains_seq(leaf_lower, ".inf_amd64"@) || contains_seq(leaf_lower, ".inf_arm64"@)
}

/// Whether the (already lowercased) leaf carries a DriverStore package
/// architecture marker. x86 packages are deliberately not recognized.
pub fn leaf_has_inf_arch_marker(leaf_lower: &str) -> (r: bool)
    ensures
        r == inf_arch_marker(leaf_lower@),
{
    let l = chars_of(leaf_lower);
    contains_str(&l, ".inf_amd64") || contains_str(&l, ".inf_arm64")
}

fn lower_leaf(p: &Vec<char>) -> (r: Vec<char>)
    ensures
        r@ == lowercase(leaf_of(p@)),
{
    let leaf = string_of(&leaf_chars(p));
    lower_chars(leaf.as_str())
}

/// The path is the `.ini` sidecar of a DriverStore package.
pub open spec fn driver_store_sidecar_ini(p: Seq<char>) -> bool {
    &&& contains_seq(lowercase(p), "\\windows\\system32\\driverstore\\filerepository\\"@)
    &&& inf_arch_marker(lowercase(leaf_of(p)))
    &&& ends_seq(lowercase(leaf_of(p)), ".ini"@)
}

/// Whether the path is the `.ini` sidecar of a DriverStore package.
pub fn is_driver_store_sidecar_ini(p: &str) -> (r: bool)
    ensures
        r == driver_store_sidecar_ini(p@),
{
    let pv = chars_of(p);
    let full = lower_chars(p);
    let leaf = lower_leaf(&pv);
    let leaf_s = string_of(&leaf);
    proof {
        reveal_strlit(".ini");
    }
    contains_str(&full, "\\windows\\system32\\driverstore\\filerepository\\")
        && leaf_has_inf_arch_marker(leaf_s.as_str()) && leaf.len() >= 4 && ends_with_str(
        &leaf,
        ".ini",
    )
}

/// The path is a whole DriverStore package folder.
pub open spec fn driver_store_package_root(p: Seq<char>) -> bool {
    &&& contains_seq(lowercase(parent_of(p)), "\\windows\\system32\\driverstore\\filerepository"@)
    &&& inf_arch_marker(lowercase(leaf_of(p)))
}

/// Whether the path is a whole DriverStore package folder.
pub fn is_driver_store_package_root_name(p: &str) -> (r: bool)
    ensures
        r == driver_store_package_root(p@),
{
    let pv = chars_of(p);
    let parent = string_of(&parent_chars(&pv));
    let parent_lower = lower_chars(parent.as_str());
    let leaf = string_of(&lower_leaf(&pv));
    contains_str(&parent_lower, "\\windows\\system32\\driverstore\\filerepository")
        && leaf_has_inf_arch_marker(leaf.as_str())
}

/// The path belongs to developer tooling (CUDA toolkit, Nsight).
pub open spec fn developer_tool_path(p: Seq<char>) -> bool {
    let full = lowercase(p);
    ||| contains_seq(full, "\\nvidia gpu computing toolkit\\"@)
    ||| contains_seq(full, "\\cuda\\"@)
    ||| contains_seq(full, "\\nsight compute"@)
    ||| contains_seq(full, "\\nsight systems"@)
}

/// Whether the path belongs to developer tooling (CUDA toolkit, Nsight).
pub fn is_developer_tool_path(p: &str) -> (r: bool)
    ensures
        r == developer_tool_path(p@),
{
    let full = lower_chars(p);
    contains_str(&full, "\\nvidia gpu computing toolkit\\") || contains_str(&full, "\\cuda\\")
        || contains_str(&full, "\\nsight compute") || contains_str(&full, "\\nsight systems")
}

/// The path is an NGX directory or lies below one.
pub open spec fn under_ngx(p: Seq<char>) -> bool {
    let full = lowercase(p);
    ||| contains_seq(full, "\\programdata\\nvidia\\ngx\\"@)
    ||| contains_seq(full, "\\nvidia corporation\\ngx\\"@)
    ||| ends_seq(full, "\\programdata\\nvidia\\ngx"@)
    ||| ends_seq(full, "\\nvidia corporation\\ngx"@)
}

/// The path is NGX content while the NGX component is not selected.
pub open spec fn ngx_path_without_ngx_selection(p: Seq<char>, enabled: Map<Seq<char>, bool>) -> bool {
    under_ngx(p) && !is_enabled(enabled, "NGX"@)
}

/// Whether the path is NGX content while the NGX component is not selected.
pub fn is_ngx_path_without_ngx_selection(p: &str, enabled: &EnabledMap) -> (r: bool)
    ensures
        r == ngx_path_without_ngx_selection(p@, enabled@),
{
    let full = lower_chars(p);
    let under = contains_str(&full, "\\programdata\\nvidia\\ngx\\") || contains_str(
        &full,
        "\\nvidia corporation\\ngx\\",
    ) || ends_with_str(&full, "\\programdata\\nvidia\\ngx") || ends_with_str(
        &full,
        "\\nvidia corporation\\ngx",
    );
    if !under {
        return false;
    }
    match enabled.get("NGX") {
        Some(v) => !v,
        None => true,
    }
}

/// Lowercased leaves of the core display driver, never deleted.
pub open spec fn core_display_leaves() -> Seq<Seq<char>> {
    literal_views(
        seq![
            "nvwgf2umx.dll",
            "nvwgf2um.dll",
            "nvd3dumx.dll",
            "nvd3dum.dll",
            "nvldumdx.dll",
            "nvapi.dll",
            "nvapi64.dll",
            "nvlddmkm.sys",
            "nvdispig.inf",
            "nv_dispi.inf",
        ],
    )
}

/// The path's lowercased leaf is a core display driver file.
pub open spec fn core_display_driver_leaf(p: Seq<char>) -> bool {
    core_display_leaves().contains(lowercase(leaf_of(p)))
}

/// Whether the path's leaf is a core display driver file.
pub fn is_core_display_driver_leaf(p: &str) -> (r: bool)
    ensures
        r == core_display_driver_leaf(p@),
{
    let leaves: [&str; 10] = [
        "nvwgf2umx.dll",
        "nvwgf2um.dll",
        "nvd3dumx.dll",
        "nvd3dum.dll",
        "nvldumdx.dll",
        "nvapi.dll",
        "nvapi64.dll",
        "nvlddmkm.sys",
        "nvdispig.inf",
        "nv_dispi.inf",
    ];
    proof {
        assert(leaves@ =~= seq![
            "nvwgf2umx.dll",
            "nvwgf2um.dll",
            "nvd3dumx.dll",
            "nvd3dum.dll",
            "nvldumdx.dll",
            "nvapi.dll",
            "nvapi64.dll",
            "nvlddmkm.sys",
            "nvdispig.inf",
            "nv_dispi.inf",
        ]);
    }
    let pv = chars_of(p);
    let leaf = lower_leaf(&pv);
    let mut i: usize = 0;
    while i < 10
        invariant
            i <= 10,
            leaf@ == lowercase(leaf_of(p@)),
            leaves@.map_values(|x: &str| x@) == core_display_leaves(),
            forall|k: int| 0 <= k < i ==> core_display_leaves()[k] != leaf@,
        decreases 10 - i,
    {
        if crate::text::eq_str(&leaf, leaves[i]) {
            assert(core_display_leaves()[i as int] == leaf@);
            return true;
        }
        i = i + 1;
    }
    false
}

/// The path must never become a deletion candidate.
pub open spec fn excluded_candidate(p: Seq<char>, enabled: Map<Seq<char>, bool>) -> bool {
    ||| developer_tool_path(p)
    ||| driver_store_package_root(p)
    ||| driver_store_sidecar_ini(p)
    ||| ngx_path_without_ngx_selection(p, enabled)
    ||| core_display_driver_leaf(p)
}

/// Whether the path must never become a deletion candidate.
pub fn is_excluded_candidate_path(p: &str, enabled: &EnabledMap) -> (r: bool)
    ensures
        r == excluded_candidate(p@, enabled@),
{
    is_developer_tool_path(p) || is_driver_store_package_root_name(p)
        || is_driver_store_sidecar_ini(p) || is_ngx_path_without_ngx_selection(p, enabled)
        || is_core_display_driver_leaf(p)
}

/// Whether traversal must not descend below the path.
pub fn should_prune_traversal(p: &str, enabled: &EnabledMap) -> (r: bool)
    ensures
        r == (developer_tool_path(p@) || ngx_path_without_ngx_selection(p@, enabled@)),
{
    is_developer_tool_path(p) || is_ngx_path_without_ngx_selection(p, enabled)
}

// ---------------------------------------------------------------------------
// Component matching of paths
// ---------------------------------------------------------------------------

/// The Installer2 cache is only claimed below an `NVIDIA Corporation` folder.
pub open spec fn installer2_ok(key: Seq<char>, full: Seq<char>) -> bool {
    key != "Installer2Cache"@ || contains_seq(lowercase(full), lowercase("NVIDIA Corporation"@))
}

/// The leaf equals one of the component's exact leaf names, ASCII case
/// ignored.
pub open spec fn exact_hit(c: ComponentView, leaf: Seq<char>) -> bool {
    exists|i: int|
        0 <= i < c.exact_leaf_names.len() && ascii_lower_seq(#[trigger] c.exact_leaf_names[i])
            == ascii_lower_seq(leaf)
}

/// The leaf matches one of the component's leaf globs.
pub open spec fn glob_hit(c: ComponentView, leaf: Seq<char>) -> bool {
    exists|i: int|
        0 <= i < c.leaf_globs.len() && greedy_match(
            lowercase(leaf),
            lowercase(#[trigger] c.leaf_globs[i]),
        )
}

/// The component claims a path with this leaf and full text.
pub open spec fn component_hit(c: ComponentView, leaf: Seq<char>, full: Seq<char>) -> bool {
    (exact_hit(c, leaf) && installer2_ok(c.key, full)) || glob_hit(c, leaf)
}

/// Index of the first selected component from `k` on that claims the path,
/// or -1.
pub open spec fn first_hit(
    cat: Seq<ComponentView>,
    m: Map<Seq<char>, bool>,
    leaf: Seq<char>,
    full: Seq<char>,
    k: int,
) -> int
    decreases cat.len() - k,
{
    if k < 0 || k >= cat.len() {
        -1
    } else if is_enabled(m, cat[k].key) && component_hit(cat[k], leaf, full) {
        k
    } else {
        first_hit(cat, m, leaf, full, k + 1)
    }
}

/// Catalog index of the component that claims the path, or -1: excluded
/// paths are never claimed; otherwise the first selected component whose
/// exact leaf names or leaf globs hit.
pub open spec fn matched_component_index(p: Seq<char>, m: Map<Seq<char>, bool>) -> int {
    if excluded_candidate(p, m) {
        -1
    } else {
        first_hit(catalog(), m, leaf_of(p), p, 0)
    }
}

pub proof fn lemma_first_hit_bounds(
    cat: Seq<ComponentView>,
    m: Map<Seq<char>, bool>,
    leaf: Seq<char>,
    full: Seq<char>,
    k: int,
)
    requires
        0 <= k,
    ensures
        first_hit(cat, m, leaf, full, k) == -1 || (k <= first_hit(cat, m, leaf, full, k) < cat.len()
            && is_enabled(m, cat[first_hit(cat, m, leaf, full, k)].key)),
    decreases cat.len() - k,
{
    if k < cat.len() && !(is_enabled(m, cat[k].key) && component_hit(cat[k], leaf, full)) {
        lemma_first_hit_bounds(cat, m, leaf, full, k + 1);
    }
}

fn exact_hit_exec(c: &Component, leaf: &Vec<char>) -> (r: bool)
    ensures
        r == exact_hit(c@, leaf@),
{
    let mut i: usize = 0;
    while i < c.exact_leaf_names.len()
        invariant
            i <= c.exact_leaf_names@.len(),
            forall|k: int|
                0 <= k < i ==> ascii_lower_seq(#[trigger] c@.exact_leaf_names[k]) != ascii_lower_seq(
                    leaf@,
                ),
        decreases c.exact_leaf_names.len() - i,
    {
        let e = chars_of(c.exact_leaf_names[i].as_str());
        if eq_ignore_ascii_case(&e, leaf) {
            assert(ascii_lower_seq(c@.exact_leaf_names[i as int]) == ascii_lower_seq(leaf@));
            return true;
        }
        i = i + 1;
    }
    false
}

fn glob_hit_exec(c: &Component, leaf: &String) -> (r: bool)
    ensures
        r == glob_hit(c@, leaf@),
{
    let mut i: usize = 0;
    while i < c.leaf_globs.len()
        invariant
            i <= c.leaf_globs@.len(),
            forall|k: int|
                0 <= k < i ==> !greedy_match(
                    lowercase(leaf@),
                    lowercase(#[trigger] c@.leaf_globs[k]),
                ),
        decreases c.leaf_globs.len() - i,
    {
        if wildcard_match_no_case(leaf.as_str(), c.leaf_globs[i].as_str()) {
            assert(greedy_match(lowercase(leaf@), lowercase(c@.leaf_globs[i as int])));
            return true;
        }
        i = i + 1;
    }
    false
}

/// The selected catalog component that claims the path, if any. Excluded
/// paths (developer tools, DriverStore package roots and sidecars, NGX
/// without NGX selected, core display driver files) are never claimed, and a
/// deselected component never claims anything.
pub fn match_component_for_path(p: &str, enabled: &EnabledMap) -> (r: Option<Component>)
    ensures
        match r {
            Some(c) => {
                let i = matched_component_index(p@, enabled@);
                &&& 0 <= i < catalog().len()
                &&& c@ == catalog()[i]
            },
            None => matched_component_index(p@, enabled@) < 0,
        },
        r is Some ==> !excluded_candidate(p@, enabled@) && is_enabled(enabled@, r->0@.key),
{
    if is_excluded_candidate_path(p, enabled) {
        return None;
    }
    let pv = chars_of(p);
    let leaf_v = leaf_chars(&pv);
    let leaf = string_of(&leaf_v);
    let comps = build_components();
    let ghost cat = catalog();
    let mut k: usize = 0;
    while k < comps.len()
        invariant
            k <= comps@.len(),
            crate::components::component_views(comps@) == cat,
            cat == catalog(),
            leaf_v@ == leaf_of(p@),
            leaf@ == leaf_of(p@),
            !excluded_candidate(p@, enabled@),
            first_hit(cat, enabled@, leaf_of(p@), p@, 0) == first_hit(
                cat,
                enabled@,
                leaf_of(p@),
                p@,
                k as int,
            ),
        decreases comps.len() - k,
    {
        let c = &comps[k];
        assert(c@ == cat[k as int]);
        let on = match enabled.get(c.key.as_str()) {
            Some(v) => v,
            None => false,
        };
        if on {
            if exact_hit_exec(c, &leaf_v) && (!crate::text::eq_str(
                &chars_of(c.key.as_str()),
                "Installer2Cache",
            ) || contains_no_case(p, "NVIDIA Corporation")) {
                proof {
                    lemma_first_hit_bounds(cat, enabled@, leaf_of(p@), p@, 0);
                }
                return Some(c.copy());
            }
            if glob_hit_exec(c, &leaf) {
                proof {
                    lemma_first_hit_bounds(cat, enabled@, leaf_of(p@), p@, 0);
                }
                return Some(c.copy());
            }
        }
        k = k + 1;
    }
    None
}

// ---------------------------------------------------------------------------
// Action-target classification
// ---------------------------------------------------------------------------

/// One decision type shared by every mutation entry point (files,
/// processes, services, scheduled tasks): a deselected component prevents
/// all of its mutations, and unmatched targets are never mutated.
pub enum ActionDecision {
    /// No component claims this target; never mutate.
    NotMatched,
    /// A component owns this target but is deselected; never mutate.
    ComponentDisabled(Component),
    /// A component owns this target and is selected.
    Allowed(Component),
}

/// Mathematical view of [`ActionDecision`].
pub ghost enum DecisionView {
    NotMatched,
    ComponentDisabled(ComponentView),
    Allowed(ComponentView),
}

impl View for ActionDecision {
    type V = DecisionView;

    open spec fn view(&self) -> DecisionView {
        match self {
            ActionDecision::NotMatched => DecisionView::NotMatched,
            ActionDecision::ComponentDisabled(c) => DecisionView::ComponentDisabled(c@),
            ActionDecision::Allowed(c) => DecisionView::Allowed(c@),
        }
    }
}

/// Index of the first catalog component from `k` on whose key is `key`, or -1.
pub open spec fn catalog_key_index(cat: Seq<ComponentView>, key: Seq<char>, k: int) -> int
    decreases cat.len() - k,
{
    if k < 0 || k >= cat.len() {
        -1
    } else if cat[k].key == key {
        k
    } else {
        catalog_key_index(cat, key, k + 1)
    }
}

proof fn lemma_catalog_key_index_bounds(cat: Seq<ComponentView>, key: Seq<char>, k: int)
    requires
        0 <= k,
    ensures
        catalog_key_index(cat, key, k) == -1 || (k <= catalog_key_index(cat, key, k) < cat.len()
            && cat[catalog_key_index(cat, key, k)].key == key),
    decreases cat.len() - k,
{
    if k < cat.len() && cat[k].key != key {
        lemma_catalog_key_index_bounds(cat, key, k + 1);
    }
}

/// Decision for a catalog key: unknown keys are not matched; a known key's
/// component is allowed exactly when it is selected.
pub open spec fn resolve_view(key: Seq<char>, m: Map<Seq<char>, bool>) -> DecisionView {
    let i = catalog_key_index(catalog(), key, 0);
    if i < 0 {
        DecisionView::NotMatched
    } else if is_enabled(m, catalog()[i].key) {
        DecisionView::Allowed(catalog()[i])
    } else {
        DecisionView::ComponentDisabled(catalog()[i])
    }
}

impl ActionDecision {
    /// Key of the owning component when this decision permits mutation.
    pub fn allowed_key(&self) -> (r: Option<&str>)
        ensures
            (r is Some) == (self@ is Allowed),
            r is Some ==> r->0@ == self@->Allowed_0.key,
    {
        match self {
            ActionDecision::Allowed(c) => Some(c.key.as_str()),
            _ => None,
        }
    }

    /// Resolves a catalog key against the component selection.
    pub fn resolve(key: &str, enabled: &EnabledMap) -> (r: ActionDecision)
        ensures
            r@ == resolve_view(key@, enabled@),
    {
        let comps = build_components();
        let kv = chars_of(key);
        let ghost cat = catalog();
        let mut k: usize = 0;
        while k < comps.len()
            invariant
                k <= comps@.len(),
                crate::components::component_views(comps@) == cat,
                cat == catalog(),
                kv@ == key@,
                catalog_key_index(cat, key@, 0) == catalog_key_index(cat, key@, k as int),
            decreases comps.len() - k,
        {
            let c = &comps[k];
            assert(c@ == cat[k as int]);
            if eq_chars(&chars_of(c.key.as_str()), &kv) {
                proof {
                    lemma_catalog_key_index_bounds(cat, key@, 0);
                }
                let on = match enabled.get(c.key.as_str()) {
                    Some(v) => v,
                    None => false,
                };
                if on {
                    return ActionDecision::Allowed(c.copy());
                } else {
                    return ActionDecision::ComponentDisabled(c.copy());
                }
            }
            k = k + 1;
        }
        ActionDecision::NotMatched
    }
}

/// Killable process names, lowercased, and their owning components.
pub open spec fn process_names() -> Seq<Seq<char>> {
    literal_views(
        seq![
            "nvtelemetrycontainer.exe",
            "nvidia share.exe",
            "nvsphelper64.exe",
            "nvidia web helper.exe",
            "nvidia app.exe",
            "nvbackend.exe",
            "nvnodejslauncher.exe",
            "nvidia overlay.exe",
            "nvidia broadcast.exe",
            "nvstreamservice.exe",
            "nvstreamnetworkservice.exe",
            "nvstreamuseragent.exe",
            "frameview.exe",
            "presentmon.exe",
        ],
    )
}

/// Owning component keys of `process_names`, position by position.
pub open spec fn process_name_keys() -> Seq<Seq<char>> {
    literal_views(
        seq![
            "Telemetry",
            "ShadowPlayShare",
            "ShadowPlayShare",
            "GeForceExperienceAndNvidiaApp",
            "GeForceExperienceAndNvidiaApp",
            "GeForceExperienceAndNvidiaApp",
            "GeForceExperienceAndNvidiaApp",
            "GeForceExperienceAndNvidiaApp",
            "GeForceExperienceAndNvidiaApp",
            "Shield",
            "Shield",
            "Shield",
            "FrameView",
            "FrameView",
        ],
    )
}

/// Index of the first entry of `s` from `k` on equal to `x`, or -1.
pub open spec fn first_equal(s: Seq<Seq<char>>, x: Seq<char>, k: int) -> int
    decreases s.len() - k,
{
    if k < 0 || k >= s.len() {
        -1
    } else if s[k] == x {
        k
    } else {
        first_equal(s, x, k + 1)
    }
}

/// Index of the first entry of `s` from `k` on contained in `l`, or -1.
pub open spec fn first_contained(s: Seq<Seq<char>>, l: Seq<char>, k: int) -> int
    decreases s.len() - k,
{
    if k < 0 || k >= s.len() {
        -1
    } else if contains_seq(l, s[k]) {
        k
    } else {
        first_contained(s, l, k + 1)
    }
}

/// Owning component key of a process name: the exact (lowercased) table
/// first, then the historical containment rules for `telemetry`,
/// `shadowplay`, `frameview` and `nvstream`.
pub open spec fn process_key(exe: Seq<char>) -> Option<Seq<char>> {
    let l = lowercase(exe);
    let i = first_equal(process_names(), l, 0);
    if 0 <= i < process_names().len() {
        Some(process_name_keys()[i])
    } else if contains_seq(l, lowercase("telemetry"@)) {
        Some("Telemetry"@)
    } else if contains_seq(l, lowercase("shadowplay"@)) {
        Some("ShadowPlayShare"@)
    } else if contains_seq(l, lowercase("frameview"@)) {
        Some("FrameView"@)
    } else if contains_seq(l, lowercase("nvstream"@)) {
        Some("Shield"@)
    } else {
        None
    }
}

fn classify_process_key(exe: &str) -> (r: Option<&'static str>)
    ensures
        match process_key(exe@) {
            Some(k) => r is Some && r->0@ == k,
            None => r is None,
        },
{
    let names: [&str; 14] = [
        "nvtelemetrycontainer.exe",
        "nvidia share.exe",
        "nvsphelper64.exe",
        "nvidia web helper.exe",
        "nvidia app.exe",
        "nvbackend.exe",
        "nvnodejslauncher.exe",
        "nvidia overlay.exe",
        "nvidia broadcast.exe",
        "nvstreamservice.exe",
        "nvstreamnetworkservice.exe",
        "nvstreamuseragent.exe",
        "frameview.exe",
        "presentmon.exe",
    ];
    let keys: [&'static str; 14] = [
        "Telemetry",
        "ShadowPlayShare",
        "ShadowPlayShare",
        "GeForceExperienceAndNvidiaApp",
        "GeForceExperienceAndNvidiaApp",
        "GeForceExperienceAndNvidiaApp",
        "GeForceExperienceAndNvidiaApp",
        "GeForceExperienceAndNvidiaApp",
        "GeForceExperienceAndNvidiaApp",
        "Shield",
        "Shield",
        "Shield",
        "FrameView",
        "FrameView",
    ];
    proof {
        assert(names@.map_values(|x: &str| x@) =~= process_names());
        assert(keys@.map_values(|x: &str| x@) =~= process_name_keys());
    }
    let l = lower_chars(exe);
    let mut i: usize = 0;
    while i < 14
        invariant
            i <= 14,
            l@ == lowercase(exe@),
            names@.map_values(|x: &str| x@) == process_names(),
            keys@.map_values(|x: &str| x@) == process_name_keys(),
            first_equal(process_names(), l@, 0) == first_equal(process_names(), l@, i as int),
        decreases 14 - i,
    {
        if crate::text::eq_str(&l, names[i]) {
            assert(process_names()[i as int] == l@);
            return Some(keys[i]);
        }
        i = i + 1;
    }
    if contains_no_case(exe, "telemetry") {
        return Some("Telemetry");
    }
    if contains_no_case(exe, "shadowplay") {
        return Some("ShadowPlayShare");
    }
    if contains_no_case(exe, "frameview") {
        return Some("FrameView");
    }
    if contains_no_case(exe, "nvstream") {
        return Some("Shield");
    }
    None
}

/// Decision for killing a process: preserved NVIDIA containers are never
/// matched while preservation is on; otherwise the owning component of the
/// process name, resolved against the selection.
pub open spec fn process_decision(exe: Seq<char>, m: Map<Seq<char>, bool>, preserve: bool) -> DecisionView {
    if preserve && preserved_container(exe) {
        DecisionView::NotMatched
    } else {
        match process_key(exe) {
            Some(k) => resolve_view(k, m),
            None => DecisionView::NotMatched,
        }
    }
}

/// Component ownership for one killable process. Container preservation is
/// applied here so no other layer can bypass it.
pub fn process_action_decision(exe: &str, enabled: &EnabledMap, preserve_containers: bool) -> (r:
    ActionDecision)
    ensures
        r@ == process_decision(exe@, enabled@, preserve_containers),
{
    if preserve_containers && is_preserved_container_name(exe) {
        return ActionDecision::NotMatched;
    }
    match classify_process_key(exe) {
        Some(key) => ActionDecision::resolve(key, enabled),
        None => ActionDecision::NotMatched,
    }
}

/// Terms mapping service/task names onto components; the first hit wins.
pub open spec fn name_terms() -> Seq<Seq<char>> {
    literal_views(
        seq![
            "telemetry",
            "displaydriverras",
            "profileupdater",
            "profile updater",
            "update",
            "frameview",
            "presentmon",
            "shadowplay",
            "share",
            "nvstream",
            "ansel",
            "nvvad",
            "nvwmi",
            "nvidia app",
            "geforce experience",
            "broadcast",
            "geforce",
        ],
    )
}

/// Owning component keys of `name_terms`, position by position.
pub open spec fn name_term_keys() -> Seq<Seq<char>> {
    literal_views(
        seq![
            "Telemetry",
            "Telemetry",
            "UpdateAndProfileUpdater",
            "UpdateAndProfileUpdater",
            "UpdateAndProfileUpdater",
            "FrameView",
            "FrameView",
            "ShadowPlayShare",
            "ShadowPlayShare",
            "Shield",
            "AnselCamera",
            "VirtualAudio",
            "NvWMI",
            "GeForceExperienceAndNvidiaApp",
            "GeForceExperienceAndNvidiaApp",
            "GeForceExperienceAndNvidiaApp",
            "GeForceExperienceAndNvidiaApp",
        ],
    )
}

/// Owning component key of a service or task name: the key of the first
/// term contained in its lowercase.
pub open spec fn named_target_key(combined: Seq<char>) -> Option<Seq<char>> {
    let i = first_contained(name_terms(), lowercase(combined), 0);
    if 0 <= i < name_terms().len() {
        Some(name_term_keys()[i])
    } else {
        None
    }
}

fn classify_named_target(combined: &str) -> (r: Option<&'static str>)
    ensures
        match named_target_key(combined@) {
            Some(k) => r is Some && r->0@ == k,
            None => r is None,
        },
{
    let terms: [&str; 17] = [
        "telemetry",
        "displaydriverras",
        "profileupdater",
        "profile updater",
        "update",
        "frameview",
        "presentmon",
        "shadowplay",
        "share",
        "nvstream",
        "ansel",
        "nvvad",
        "nvwmi",
        "nvidia app",
        "geforce experience",
        "broadcast",
        "geforce",
    ];
    let keys: [&'static str; 17] = [
        "Telemetry",
        "Telemetry",
        "UpdateAndProfileUpdater",
        "UpdateAndProfileUpdater",
        "UpdateAndProfileUpdater",
        "FrameView",
        "FrameView",
        "ShadowPlayShare",
        "ShadowPlayShare",
        "Shield",
        "AnselCamera",
        "VirtualAudio",
        "NvWMI",
        "GeForceExperienceAndNvidiaApp",
        "GeForceExperienceAndNvidiaApp",
        "GeForceExperienceAndNvidiaApp",
        "GeForceExperienceAndNvidiaApp",
    ];
    proof {
        assert(terms@.map_values(|x: &str| x@) =~= name_terms());
        assert(keys@.map_values(|x: &str| x@) =~= name_term_keys());
    }
    let l = lower_chars(combined);
    let mut i: usize = 0;
    while i < 17
        invariant
            i <= 17,
            l@ == lowercase(combined@),
            terms@.map_values(|x: &str| x@) == name_terms(),
            keys@.map_values(|x: &str| x@) == name_term_keys(),
            first_contained(name_terms(), l@, 0) == first_contained(name_terms(), l@, i as int),
        decreases 17 - i,
    {
        if contains_str(&l, terms[i]) {
            assert(contains_seq(l@, name_terms()[i as int]));
            return Some(keys[i]);
        }
        i = i + 1;
    }
    None
}

/// Decision for a service: preserved containers are not matched while
/// preservation is on, a name without NVIDIA context is not matched, and a
/// classified name resolves against the selection.
pub open spec fn service_decision(
    service_name: Seq<char>,
    display_name: Seq<char>,
    m: Map<Seq<char>, bool>,
    preserve: bool,
) -> DecisionView {
    let combined = service_name + seq![' '] + display_name;
    if preserve && preserved_container(combined) {
        DecisionView::NotMatched
    } else if !nvidia_context(combined) {
        DecisionView::NotMatched
    } else {
        match named_target_key(combined) {
            Some(k) => resolve_view(k, m),
            None => DecisionView::NotMatched,
        }
    }
}

/// Component ownership for one Windows service.
pub fn service_action_decision(
    service_name: &str,
    display_name: &str,
    enabled: &EnabledMap,
    preserve_containers: bool,
) -> (r: ActionDecision)
    ensures
        r@ == service_decision(service_name@, display_name@, enabled@, preserve_containers),
{
    let combined = crate::text::concat3(service_name, " ", display_name);
    proof {
        reveal_strlit(" ");
    }
    assert(combined@ =~= service_name@ + seq![' '] + display_name@);
    if preserve_containers && is_preserved_container_name(combined.as_str()) {
        return ActionDecision::NotMatched;
    }
    if !is_nvidia_context_string(combined.as_str()) {
        return ActionDecision::NotMatched;
    }
    match classify_named_target(combined.as_str()) {
        Some(key) => ActionDecision::resolve(key, enabled),
        None => ActionDecision::NotMatched,
    }
}

/// Decision for a scheduled task (by absolute task path): no NVIDIA
/// context means not matched; a classified name resolves against the
/// selection.
pub open spec fn task_decision(task_name: Seq<char>, m: Map<Seq<char>, bool>) -> DecisionView {
    if !nvidia_context(task_name) {
        DecisionView::NotMatched
    } else {
        match named_target_key(task_name) {
            Some(k) => resolve_view(k, m),
            None => DecisionView::NotMatched,
        }
    }
}

/// Component ownership for one scheduled task.
pub fn task_action_decision(task_name: &str, enabled: &EnabledMap) -> (r: ActionDecision)
    ensures
        r@ == task_decision(task_name@, enabled@),
{
    if !is_nvidia_context_string(task_name) {
        return ActionDecision::NotMatched;
    }
    match classify_named_target(task_name) {
        Some(key) => ActionDecision::resolve(key, enabled),
        None => ActionDecision::NotMatched,
    }
}

} // verus!
