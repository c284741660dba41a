//! Identity test, System32 tool paths, and the run's log-file layout.

use vstd::prelude::*;
use crate::text::{chars_of, concat2, concat3, contains_seq, contains_str, eq_str, lower_chars, lowercase, string_of};
use crate::winpath::{is_sep, parent_chars, parent_of};

verus! {

/// The well-known service SID of TrustedInstaller, as the account text
/// reads when no account name could be resolved.
pub const TRUSTED_INSTALLER_SID: &'static str = "S-1-5-80-956008885-3418522649-1831038044-1853292631-2271478464";

/// The token account is TrustedInstaller: exactly `NT SERVICE\TrustedInstaller`
/// in any letter case, or exactly its service SID. No other name that merely
/// holds `trustedinstaller` counts.
pub open spec fn trusted_installer_account(account: Seq<char>) -> bool {
    lowercase(account) == "nt service\\trustedinstaller"@ || account == TRUSTED_INSTALLER_SID@
}

/// Whether the token account (`DOMAIN\name`, or the SID string when the
/// name cannot be resolved) is TrustedInstaller.
pub fn is_trusted_installer(account: &str) -> (r: bool)
    ensures
        r == trusted_installer_account(account@),
{
    let l = lower_chars(account);
    eq_str(&l, "nt service\\trustedinstaller") || eq_str(&chars_of(account), TRUSTED_INSTALLER_SID)
}

/// `dir` joined with the file name `name` as a Windows path: a separator is
/// added unless `dir` is empty or already ends with one.
pub open spec fn join_file(dir: Seq<char>, name: Seq<char>) -> Seq<char> {
    if dir.len() == 0 || is_sep(dir.last()) {
        dir + name
    } else {
        dir + "\\"@ + name
    }
}

pub(crate) fn join_file_exec(dir: &str, name: &str) -> (r: String)
    ensures
        r@ == join_file(dir@, name@),
{
    let d = chars_of(dir);
    if d.len() == 0 || d[d.len() - 1] == '\\' || d[d.len() - 1] == '/' {
        concat2(dir, name)
    } else {
        concat3(dir, "\\", name)
    }
}

/// A system tool's path inside the real System32 directory (`system_dir`,
/// as the system reports it), or `None` when that directory is unknown, so
/// the caller skips the tool. A tool is never run by bare name: process
/// creation would pick up a planted binary from the working directory first.
pub fn system_dir_file(system_dir: Option<&str>, file_name: &str) -> (r: Option<String>)
    ensures
        match system_dir {
            Some(d) => r matches Some(p) && p@ == join_file(d@, file_name@),
            None => r is None,
        },
{
    match system_dir {
        Some(d) => Some(join_file_exec(d, file_name)),
        None => None,
    }
}

/// The folder holding the executable: the parent of its path, keeping the
/// separator after a drive (`C:\`), as a path's parent is taken.
pub open spec fn exe_dir_of(exe_path: Seq<char>) -> Seq<char> {
    let d = parent_of(exe_path);
    if d.len() == 2 && d[1] == ':' && exe_path.len() >= 3 {
        exe_path.subrange(0, 3)
    } else {
        d
    }
}

/// Directory of the run log: the `--log-dir` override when given, else the
/// executable's directory.
pub open spec fn run_dir(exe_path: Seq<char>, log_dir_override: Seq<char>) -> Seq<char> {
    if log_dir_override.len() == 0 {
        exe_dir_of(exe_path)
    } else {
        log_dir_override
    }
}

/// The run log: the `--log-file` override when given, else
/// `debloat-<run id>.log` in the run directory.
pub open spec fn run_log_path(
    exe_path: Seq<char>,
    log_dir_override: Seq<char>,
    log_file_override: Seq<char>,
    run_id: Seq<char>,
) -> Seq<char> {
    if log_file_override.len() > 0 {
        log_file_override
    } else {
        join_file(run_dir(exe_path, log_dir_override), "debloat-"@ + run_id + ".log"@)
    }
}

/// Run directory and log path of a run, as [`run_dir`] and [`run_log_path`].
pub fn run_log_layout(
    exe_path: &str,
    log_dir_override: &str,
    log_file_override: &str,
    run_id: &str,
) -> (r: (String, String))
    ensures
        r.0@ == run_dir(exe_path@, log_dir_override@),
        r.1@ == run_log_path(exe_path@, log_dir_override@, log_file_override@, run_id@),
{
    let dir = if log_dir_override.is_empty() {
        let p = chars_of(exe_path);
        let d = parent_chars(&p);
        if d.len() == 2 && d[1] == ':' && p.len() >= 3 {
            crate::text::string_of_range(&p, 0, 3)
        } else {
            string_of(&d)
        }
    } else {
        String::from_str(log_dir_override)
    };
    let log = if !log_file_override.is_empty() {
        String::from_str(log_file_override)
    } else {
        let name = concat3("debloat-", run_id, ".log");
        join_file_exec(dir.as_str(), name.as_str())
    };
    (dir, log)
}

} // verus!
