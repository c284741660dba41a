//! Deletion decisions: which directories must never be removed
//! recursively, extended-length path forms, how a candidate is dispatched,
//! and the ownership commands.

use vstd::prelude::*;
use crate::fsutil::PathKind;
use crate::matching::{inf_arch_marker, leaf_has_inf_arch_marker};
use crate::text::{
    ascii_lower_seq, chars_of, concat2, contains_seq, contains_str, eq_ignore_ascii_case, lower_chars,
    lowercase, starts_seq, starts_with_str, string_of,
};
use crate::winpath::{leaf_chars, leaf_of, parent_chars, parent_of};

verus! {

// ---------------------------------------------------------------------------
// Unsafe recursive targets
// ---------------------------------------------------------------------------

/// DriverStore payload folders that may be removed recursively.
pub open spec fn allowed_driver_store_dirs() -> Seq<Seq<char>> {
    seq!["nvcamera"@, "nvwmi"@, "ansel"@, "display.update"@, "update.core"@]
}

/// The leaf names an allow-listed DriverStore folder, ignoring ASCII case.
pub open spec fn allow_listed_leaf(leaf: Seq<char>) -> bool {
    exists|i: int|
        0 <= i < allowed_driver_store_dirs().len() && ascii_lower_seq(
            #[trigger] allowed_driver_store_dirs()[i],
        ) == ascii_lower_seq(leaf)
}

/// A directory must not be removed recursively when it is a whole
/// DriverStore package root (its parent is the FileRepository and its leaf
/// carries an architecture marker), or when it lies inside the
/// FileRepository and is not an allow-listed bloat folder. Files never are.
pub open spec fn unsafe_recursive(
    is_dir: bool,
    full_lower: Seq<char>,
    parent_lower: Seq<char>,
    leaf_lower: Seq<char>,
) -> bool {
    is_dir && ((contains_seq(parent_lower, "\\windows\\system32\\driverstore\\filerepository"@)
        && inf_arch_marker(leaf_lower)) || (contains_seq(
        full_lower,
        "\\windows\\system32\\driverstore\\filerepository\\"@,
    ) && !allow_listed_leaf(leaf_lower)))
}

fn allow_listed_exec(leaf: &str) -> (r: bool)
    ensures
        r == allow_listed_leaf(leaf@),
{
    let l = chars_of(leaf);
    let names: [&str; 5] = ["nvcamera", "nvwmi", "ansel", "display.update", "update.core"];
    assert(names@.map_values(|s: &str| s@) =~= allowed_driver_store_dirs());
    let mut i: usize = 0;
    while i < 5
        invariant
            i <= 5,
            l@ == leaf@,
            names@.map_values(|s: &str| s@) == allowed_driver_store_dirs(),
            forall|j: int|
                0 <= j < i ==> ascii_lower_seq(#[trigger] allowed_driver_store_dirs()[j])
                    != ascii_lower_seq(leaf@),
        decreases 5 - i,
    {
        let d = chars_of(names[i]);
        assert(d@ == allowed_driver_store_dirs()[i as int]);
        if eq_ignore_ascii_case(&d, &l) {
            return true;
        }
        i = i + 1;
    }
    false
}

/// Whether a directory must never be removed recursively (fail closed:
/// whole DriverStore package roots and non-allow-listed driver payload
/// folders). `full_lower` and `parent_lower` are lowercased; the leaf is
/// compared to the allow-list ignoring ASCII case.
pub fn unsafe_recursive_directory_decision(
    is_dir: bool,
    full_lower: &str,
    parent_lower: &str,
    leaf_lower: &str,
) -> (r: bool)
    ensures
        r == unsafe_recursive(is_dir, full_lower@, parent_lower@, leaf_lower@),
{
    if !is_dir {
        return false;
    }
    let parent = chars_of(parent_lower);
    let package_root = contains_str(&parent, "\\windows\\system32\\driverstore\\filerepository")
        && leaf_has_inf_arch_marker(leaf_lower);
    if package_root {
        return true;
    }
    let full = chars_of(full_lower);
    if contains_str(&full, "\\windows\\system32\\driverstore\\filerepository\\") {
        if !allow_listed_exec(leaf_lower) {
            return true;
        }
    }
    false
}

/// Whether the path, of the probed kind, must never be removed
/// recursively. An unreadable probe (`None`) and a reparse point count as
/// directories: fail closed.
pub open spec fn unsafe_recursive_target(p: Seq<char>, kind: Option<PathKind>) -> bool {
    let treat_as_directory = !(kind == Some(PathKind::Missing) || kind == Some(PathKind::File));
    unsafe_recursive(
        treat_as_directory,
        lowercase(p),
        lowercase(parent_of(p)),
        lowercase(leaf_of(p)),
    )
}

/// Whether the candidate path, of the probed kind (`None` when the probe
/// failed), must never be removed recursively.
pub fn unsafe_recursive_directory_target(p: &str, kind: Option<PathKind>) -> (r: bool)
    ensures
        r == unsafe_recursive_target(p@, kind),
{
    let treat_as_directory = match kind {
        Some(PathKind::Missing) | Some(PathKind::File) => false,
        _ => true,
    };
    let pc = chars_of(p);
    let full = crate::text::to_lower(p);
    let parent = string_of(&parent_chars(&pc));
    let leaf = string_of(&leaf_chars(&pc));
    let parent_lower = crate::text::to_lower(parent.as_str());
    let leaf_lower = crate::text::to_lower(leaf.as_str());
    unsafe_recursive_directory_decision(
        treat_as_directory,
        full.as_str(),
        parent_lower.as_str(),
        leaf_lower.as_str(),
    )
}

// ---------------------------------------------------------------------------
// Extended-length paths
// ---------------------------------------------------------------------------

/// The `\\?\` form of a drive-letter path, which lifts the classic path
/// length limit; paths already in that form, UNC and relative paths are
/// left as they are. A drive-letter path has an ASCII first character and
/// `:` second (the second byte of the UTF-8 text).
pub open spec fn extended_length(p: Seq<char>) -> Seq<char> {
    if starts_seq(p, "\\\\?\\"@) {
        p
    } else if p.len() >= 2 && (p[0] as u32) < 128 && p[1] == ':' {
        "\\\\?\\"@ + p
    } else {
        p
    }
}

/// The extended-length form of a path.
pub fn extended_length_path(p: &str) -> (r: String)
    ensures
        r@ == extended_length(p@),
{
    let c = chars_of(p);
    if starts_with_str(&c, "\\\\?\\") {
        return String::from_str(p);
    }
    if c.len() >= 2 && (c[0] as u32) < 128 && c[1] == ':' {
        return concat2("\\\\?\\", p);
    }
    String::from_str(p)
}

// ---------------------------------------------------------------------------
// Dispatch of one candidate
// ---------------------------------------------------------------------------

/// What to do with one candidate before any removal is tried.
#[derive(Debug, PartialEq, Eq, Structural)]
pub enum DeleteStep {
    /// An abort was requested: record it and stop.
    Abort,
    /// The path is confirmed gone: record a skip.
    SkipMissing,
    /// The path must not be removed recursively: record a skip.
    SkipUnsafe,
    /// Dry run: record what would be deleted.
    DryRun,
    /// Remove it.
    Delete,
}

/// The step for a candidate, checked in this order: abort, confirmed
/// absence, unsafe recursive target, dry run. Safety checks always come
/// before any change.
pub open spec fn delete_step_spec(
    abort_requested: bool,
    confirmed_missing: bool,
    unsafe_target: bool,
    execute: bool,
) -> DeleteStep {
    if abort_requested {
        DeleteStep::Abort
    } else if confirmed_missing {
        DeleteStep::SkipMissing
    } else if unsafe_target {
        DeleteStep::SkipUnsafe
    } else if !execute {
        DeleteStep::DryRun
    } else {
        DeleteStep::Delete
    }
}

/// Decides the step for a candidate.
pub fn delete_step(
    abort_requested: bool,
    confirmed_missing: bool,
    unsafe_target: bool,
    execute: bool,
) -> (r: DeleteStep)
    ensures
        r == delete_step_spec(abort_requested, confirmed_missing, unsafe_target, execute),
{
    if abort_requested {
        DeleteStep::Abort
    } else if confirmed_missing {
        DeleteStep::SkipMissing
    } else if unsafe_target {
        DeleteStep::SkipUnsafe
    } else if !execute {
        DeleteStep::DryRun
    } else {
        DeleteStep::Delete
    }
}

/// Whether removal goes the directory way: real directories and reparse
/// entries (removed as entries, never descended into) do; files and missing
/// paths do not; an unverifiable probe falls back to the discovery hint.
pub open spec fn removes_as_directory(kind: Option<PathKind>, is_directory_hint: bool) -> bool {
    match kind {
        Some(PathKind::Directory) => true,
        Some(PathKind::Reparse) => true,
        Some(PathKind::Missing) => false,
        Some(PathKind::File) => false,
        None => is_directory_hint,
    }
}

/// Decides how a candidate is removed.
pub fn treat_as_directory(kind: Option<PathKind>, is_directory_hint: bool) -> (r: bool)
    ensures
        r == removes_as_directory(kind, is_directory_hint),
{
    match kind {
        Some(PathKind::Directory) => true,
        Some(PathKind::Reparse) => true,
        Some(PathKind::Missing) => false,
        Some(PathKind::File) => false,
        None => is_directory_hint,
    }
}

pub const ERROR_ACCESS_DENIED: u32 = 5;
pub const ERROR_FILE_READ_ONLY: u32 = 6009;

/// A failed file deletion is retried (attributes cleared, extended-length
/// form) after access-denied or read-only errors only.
pub fn file_delete_retry_wanted(err: u32) -> (r: bool)
    ensures
        r == (err == ERROR_ACCESS_DENIED || err == ERROR_FILE_READ_ONLY),
{
    err == ERROR_ACCESS_DENIED || err == ERROR_FILE_READ_ONLY
}

/// Detail of a dry-run deletion record.
pub fn dry_run_detail(is_directory: bool) -> (r: &'static str)
    ensures
        r@ == (if is_directory {
            "directory"@
        } else {
            "file"@
        }),
{
    if is_directory {
        "directory"
    } else {
        "file"
    }
}

// ---------------------------------------------------------------------------
// Ownership commands
// ---------------------------------------------------------------------------

/// Letters `takeown /D` accepts for "yes" on different locales.
pub open spec fn yes_letters() -> Seq<Seq<char>> {
    seq!["Y"@, "J"@, "O"@, "S"@]
}

/// Order in which the yes-letters are tried: starting from the one that
/// worked last time (clamped to the last letter), wrapping around.
pub open spec fn letter_order(start: nat) -> Seq<nat> {
    let r = if start < 3 {
        start
    } else {
        3
    };
    Seq::new(4, |i: int| ((r + i) % 4) as nat)
}

/// The order in which the yes-letters are tried.
pub fn takeown_letter_order(start: usize) -> (r: Vec<usize>)
    ensures
        r@.len() == 4,
        forall|i: int| 0 <= i < 4 ==> r@[i] as nat == #[trigger] letter_order(start as nat)[i],
{
    let rot: usize = if start < 3 {
        start
    } else {
        3
    };
    let mut r: Vec<usize> = Vec::new();
    let mut i: usize = 0;
    while i < 4
        invariant
            i <= 4,
            rot <= 3,
            rot == (if start < 3 {
                start
            } else {
                3
            }),
            r@.len() == i,
            forall|j: int| 0 <= j < i ==> r@[j] as nat == #[trigger] letter_order(start as nat)[j],
        decreases 4 - i,
    {
        r.push((rot + i) % 4);
        i = i + 1;
    }
    r
}

/// The yes-letter at index `i`.
pub fn yes_letter(i: usize) -> (r: &'static str)
    requires
        i < 4,
    ensures
        r@ == yes_letters()[i as int],
{
    if i == 0 {
        "Y"
    } else if i == 1 {
        "J"
    } else if i == 2 {
        "O"
    } else {
        "S"
    }
}

/// `takeown /F <target> /A /R /D <letter>`, before quoting.
pub fn takeown_args(takeown_exe: &str, target: &str, letter: &str) -> (r: Vec<String>)
    ensures
        crate::text::views(r@) == seq![
            takeown_exe@,
            "/F"@,
            target@,
            "/A"@,
            "/R"@,
            "/D"@,
            letter@,
        ],
{
    let r = vec![
        String::from_str(takeown_exe),
        String::from_str("/F"),
        String::from_str(target),
        String::from_str("/A"),
        String::from_str("/R"),
        String::from_str("/D"),
        String::from_str(letter),
    ];
    assert(crate::text::views(r@) =~= seq![
        takeown_exe@,
        "/F"@,
        target@,
        "/A"@,
        "/R"@,
        "/D"@,
        letter@,
    ]);
    r
}

/// `icacls <target> /grant *S-1-5-32-544:F /T /C`, before quoting: full
/// control for the Administrators group by its well-known SID, so localized
/// group names cannot fail.
pub fn icacls_args(icacls_exe: &str, target: &str) -> (r: Vec<String>)
    ensures
        crate::text::views(r@) == seq![
            icacls_exe@,
            target@,
            "/grant"@,
            "*S-1-5-32-544:F"@,
            "/T"@,
            "/C"@,
        ],
{
    let r = vec![
        String::from_str(icacls_exe),
        String::from_str(target),
        String::from_str("/grant"),
        String::from_str("*S-1-5-32-544:F"),
        String::from_str("/T"),
        String::from_str("/C"),
    ];
    assert(crate::text::views(r@) =~= seq![
        icacls_exe@,
        target@,
        "/grant"@,
        "*S-1-5-32-544:F"@,
        "/T"@,
        "/C"@,
    ]);
    r
}

} // verus!
