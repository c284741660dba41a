//! The run report: action tallies, the post-run existence check, and the
//! JSON report block.

use vstd::prelude::*;
use crate::app::{strictly_sorted, EnabledMap};
use crate::text::{chars_of, concat2, concat3, copy_string, eq_chars, eq_str, views};
use crate::app::{is_enabled, GPD_VERSION};
use crate::components::{build_components, catalog, component_views};
use crate::types::{ActionRecord, ActionView, Component, ComponentView, Options, OptionsView, RunState};
use crate::util::{decimal, decimal_nat, i64_to_decimal, json_escape, json_escape_seq, push_decimal};

verus! {

// ---------------------------------------------------------------------------
// Tallies
// ---------------------------------------------------------------------------

/// The status (`by_status`) or the kind of each action, in order.
pub open spec fn action_fields(actions: Seq<ActionView>, by_status: bool) -> Seq<Seq<char>> {
    actions.map_values(
        |a: ActionView|
            if by_status {
                a.status
            } else {
                a.kind
            },
    )
}

/// Number of occurrences of `k` in `fields`.
pub open spec fn occurrences(fields: Seq<Seq<char>>, k: Seq<char>) -> nat
    decreases fields.len(),
{
    if fields.len() == 0 {
        0
    } else {
        occurrences(fields.drop_last(), k) + (if fields.last() == k {
            1nat
        } else {
            0nat
        })
    }
}

/// `keys` lists every distinct field once, in increasing order, and
/// `counts` how often each occurs.
pub open spec fn is_tally(keys: Seq<Seq<char>>, counts: Seq<u64>, fields: Seq<Seq<char>>) -> bool {
    &&& strictly_sorted(keys)
    &&& keys.to_set() == fields.to_set()
    &&& counts.len() == keys.len()
    &&& forall|j: int| 0 <= j < keys.len() ==> #[trigger] counts[j] == occurrences(fields, keys[j])
}

/// Counts per distinct value, in increasing key order.
pub struct Tally {
    pub keys: Vec<String>,
    pub counts: Vec<u64>,
}

fn field_of(a: &ActionRecord, by_status: bool) -> (r: &String)
    ensures
        r@ == (if by_status {
            a@.status
        } else {
            a@.kind
        }),
{
    if by_status {
        &a.status
    } else {
        &a.kind
    }
}

proof fn lemma_occurrences_push(fields: Seq<Seq<char>>, f: Seq<char>, k: Seq<char>)
    ensures
        occurrences(fields.push(f), k) == occurrences(fields, k) + (if f == k {
            1nat
        } else {
            0nat
        }),
{
    assert(fields.push(f).drop_last() =~= fields);
}

/// Number of `fields` equal to `k`.
fn count_equal(actions: &Vec<ActionRecord>, by_status: bool, k: &Vec<char>) -> (r: u64)
    requires
        actions@.len() < u64::MAX,
    ensures
        r == occurrences(action_fields(actions@.map_values(|a: ActionRecord| a@), by_status), k@),
{
    let ghost fields = action_fields(actions@.map_values(|a: ActionRecord| a@), by_status);
    let mut n: u64 = 0;
    let mut i: usize = 0;
    while i < actions.len()
        invariant
            i <= actions.len(),
            actions@.len() < u64::MAX,
            fields == action_fields(actions@.map_values(|a: ActionRecord| a@), by_status),
            n <= i,
            n == occurrences(fields.take(i as int), k@),
        decreases actions.len() - i,
    {
        let f = chars_of(field_of(&actions[i], by_status).as_str());
        proof {
            assert(fields.take(i + 1) =~= fields.take(i as int).push(fields[i as int]));
            lemma_occurrences_push(fields.take(i as int), fields[i as int], k@);
        }
        if eq_chars(&f, k) {
            n = n + 1;
        }
        i = i + 1;
    }
    assert(fields.take(actions.len() as int) =~= fields);
    n
}

/// Tally of the actions' statuses (`by_status`) or kinds, keys in
/// increasing order (the order of `String`).
pub fn tally_actions(actions: &Vec<ActionRecord>, by_status: bool) -> (t: Tally)
    requires
        actions@.len() < u64::MAX,
    ensures
        is_tally(
            views(t.keys@),
            t.counts@,
            action_fields(actions@.map_values(|a: ActionRecord| a@), by_status),
        ),
{
    let ghost fields = action_fields(actions@.map_values(|a: ActionRecord| a@), by_status);
    let mut m = EnabledMap::new();
    let mut i: usize = 0;
    while i < actions.len()
        invariant
            i <= actions.len(),
            fields == action_fields(actions@.map_values(|a: ActionRecord| a@), by_status),
            m@.dom() == fields.take(i as int).to_set(),
        decreases actions.len() - i,
    {
        let f = field_of(&actions[i], by_status);
        m.insert(f.as_str(), true);
        proof {
            assert(fields.take(i + 1) =~= fields.take(i as int).push(fields[i as int]));
            fields.take(i as int).lemma_push_to_set_commute(fields[i as int]);
            assert(m@.dom() =~= fields.take(i + 1).to_set());
        }
        i = i + 1;
    }
    assert(fields.take(actions.len() as int) =~= fields);
    let n = m.len();
    let mut keys: Vec<String> = Vec::new();
    let mut counts: Vec<u64> = Vec::new();
    let mut j: usize = 0;
    while j < n
        invariant
            j <= n,
            n == m.keys().len(),
            strictly_sorted(m.keys()),
            actions@.len() < u64::MAX,
            fields == action_fields(actions@.map_values(|a: ActionRecord| a@), by_status),
            views(keys@) == m.keys().take(j as int),
            counts@.len() == j,
            forall|t: int| 0 <= t < j ==> #[trigger] counts@[t] == occurrences(fields, m.keys()[t]),
        decreases n - j,
    {
        let k = m.key_at(j);
        let kc = chars_of(k.as_str());
        let c = count_equal(actions, by_status, &kc);
        let ghost before = views(keys@);
        keys.push(copy_string(k));
        assert(views(keys@) =~= before.push(k@));
        assert(m.keys().take(j + 1) =~= m.keys().take(j as int).push(m.keys()[j as int]));
        counts.push(c);
        j = j + 1;
    }
    assert(m.keys().take(n as int) =~= m.keys());
    proof {
        assert forall|k: Seq<char>| m.keys().to_set().contains(k) == fields.to_set().contains(k) by {
            assert(m@.dom().contains(k) == m.keys().contains(k));
        }
        assert(m.keys().to_set() =~= fields.to_set());
    }
    Tally { keys, counts }
}


// ---------------------------------------------------------------------------
// Post-run existence check
// ---------------------------------------------------------------------------

/// Latest deletion outcome recorded for `path` among the first `n` actions:
/// a `DeletePath` record's status and detail; `SCHEDULED_REBOOT` with the
/// detail of a successful (`INFO`) `ScheduleDelete` record; a failed
/// `ScheduleDelete` record's own status and detail, so only a verified
/// reboot scheduling counts as pending.
pub open spec fn latest_outcome(actions: Seq<ActionView>, path: Seq<char>, n: int) -> Option<
    (Seq<char>, Seq<char>),
>
    decreases n,
{
    if n <= 0 || n > actions.len() {
        None
    } else {
        let a = actions[n - 1];
        if a.path == path && a.kind == "DeletePath"@ {
            Some((a.status, a.detail))
        } else if a.path == path && a.kind == "ScheduleDelete"@ {
            if a.status == "INFO"@ {
                Some(("SCHEDULED_REBOOT"@, a.detail))
            } else {
                Some((a.status, a.detail))
            }
        } else {
            latest_outcome(actions, path, n - 1)
        }
    }
}

/// Status of an outcome (empty when nothing was recorded).
pub open spec fn outcome_status(o: Option<(Seq<char>, Seq<char>)>) -> Seq<char> {
    match o {
        Some(x) => x.0,
        None => Seq::empty(),
    }
}

/// Detail of an outcome (empty when nothing was recorded).
pub open spec fn outcome_detail(o: Option<(Seq<char>, Seq<char>)>) -> Seq<char> {
    match o {
        Some(x) => x.1,
        None => Seq::empty(),
    }
}

/// The path still exists because nothing was attempted in a dry run.
pub open spec fn not_attempted(o: Option<(Seq<char>, Seq<char>)>, execute: bool) -> bool {
    !execute || outcome_status(o) == "DRYRUN"@
}

/// The path still exists because its deletion waits for a reboot.
pub open spec fn pending_reboot(o: Option<(Seq<char>, Seq<char>)>, execute: bool) -> bool {
    !not_attempted(o, execute) && outcome_status(o) == "SCHEDULED_REBOOT"@
}

/// Why a path still exists, from its latest outcome.
pub open spec fn remaining_reason(o: Option<(Seq<char>, Seq<char>)>, execute: bool) -> Seq<char> {
    let status = outcome_status(o);
    if not_attempted(o, execute) {
        "dry-run: not attempted"@
    } else if status == "SCHEDULED_REBOOT"@ {
        "scheduled for deletion at next reboot"@
    } else if status == "SKIP"@ {
        "skipped: "@ + outcome_detail(o)
    } else if status == "WARN"@ {
        "deletion failed: "@ + outcome_detail(o)
    } else if status.len() == 0 {
        "no action recorded"@
    } else {
        "still present"@
    }
}

/// Line of a path that still exists.
pub open spec fn still_exists_line(reason: Seq<char>, path: Seq<char>) -> Seq<char> {
    "STILL EXISTS ["@ + reason + "] "@ + path + "\n"@
}

/// Lines for the first `n` candidates (`paths`, with `exists` telling which
/// are still present).
pub open spec fn check_lines(
    actions: Seq<ActionView>,
    paths: Seq<Seq<char>>,
    exists: Seq<bool>,
    execute: bool,
    n: nat,
) -> Seq<char>
    decreases n,
{
    if n == 0 {
        Seq::empty()
    } else {
        let j = n - 1;
        let o = latest_outcome(actions, paths[j], actions.len() as int);
        check_lines(actions, paths, exists, execute, (n - 1) as nat) + (if exists[j] {
            still_exists_line(remaining_reason(o, execute), paths[j])
        } else {
            Seq::empty()
        })
    }
}

/// Number of the first `n` candidates that still exist and satisfy `pick`
/// (0: any, 1: pending reboot, 2: not attempted).
pub open spec fn check_count(
    actions: Seq<ActionView>,
    paths: Seq<Seq<char>>,
    exists: Seq<bool>,
    execute: bool,
    pick: int,
    n: nat,
) -> nat
    decreases n,
{
    if n == 0 {
        0
    } else {
        let j = n - 1;
        let o = latest_outcome(actions, paths[j], actions.len() as int);
        let hit = exists[j] && (pick == 0 || (pick == 1 && pending_reboot(o, execute)) || (pick == 2
            && not_attempted(o, execute)));
        check_count(actions, paths, exists, execute, pick, (n - 1) as nat) + (if hit {
            1nat
        } else {
            0nat
        })
    }
}

/// Closing line of the check section.
pub open spec fn check_summary(total: nat, remaining: nat, pending: nat, dry: nat) -> Seq<char> {
    if total == 0 {
        "No NVIDIA bloat candidates were discovered in this run.\n"@
    } else if remaining == 0 {
        "Result: all "@ + decimal_nat(total) + " discovered paths are gone (0 remaining).\n"@
    } else {
        "Summary: "@ + decimal_nat(remaining) + " of "@ + decimal_nat(total)
            + " discovered paths still exist"@ + (if pending > 0 {
            " ("@ + decimal_nat(pending) + " pending reboot deletion)"@
        } else {
            Seq::empty()
        }) + (if dry > 0 {
            " ("@ + decimal_nat(dry) + " not attempted in dry-run)"@
        } else {
            Seq::empty()
        }) + "."@
    }
}

/// Log message closing the check.
pub open spec fn check_log_message(total: nat, remaining: nat) -> Seq<char> {
    if total == 0 {
        "Post-run check: no NVIDIA bloat candidates discovered; nothing to verify (0 paths remain)."@
    } else {
        "Post-run check: "@ + decimal_nat((total - remaining) as nat) + "/"@ + decimal_nat(total)
            + " candidate paths removed"@ + (if remaining > 0 {
            "; "@ + decimal_nat(remaining) + " still exist (details above)"@
        } else {
            Seq::empty()
        })
    }
}

/// Outcome of the post-run existence check.
pub struct PostRunCheck {
    /// Section appended to the run log.
    pub section: String,
    pub remaining: u64,
    pub pending_reboot: u64,
    pub dry_run: u64,
    /// `INFO` when every path is gone (or there were none), `WARN` otherwise.
    pub log_level: String,
    pub log_message: String,
}

fn u64_text(n: u64) -> (r: String)
    ensures
        r@ == decimal_nat(n as nat),
{
    let mut s = String::new();
    push_decimal(&mut s, n);
    assert(s@ =~= decimal_nat(n as nat));
    s
}

/// Latest outcome of `path`, scanning the actions from the end.
fn latest_outcome_exec(actions: &Vec<ActionRecord>, path: &Vec<char>) -> (r: Option<(String, String)>)
    ensures
        match latest_outcome(
            actions@.map_values(|a: ActionRecord| a@),
            path@,
            actions@.len() as int,
        ) {
            Some(o) => r matches Some((s, d)) && s@ == o.0 && d@ == o.1,
            None => r is None,
        },
{
    let ghost av = actions@.map_values(|a: ActionRecord| a@);
    let mut n: usize = actions.len();
    while n > 0
        invariant
            n <= actions.len(),
            av == actions@.map_values(|a: ActionRecord| a@),
            latest_outcome(av, path@, actions@.len() as int) == latest_outcome(av, path@, n as int),
        decreases n,
    {
        let a = &actions[n - 1];
        assert(av[n - 1] == a@);
        let ap = chars_of(a.path.as_str());
        let ak = chars_of(a.kind.as_str());
        if eq_chars(&ap, path) && eq_str(&ak, "DeletePath") {
            return Some((copy_string(&a.status), copy_string(&a.detail)));
        }
        if eq_chars(&ap, path) && eq_str(&ak, "ScheduleDelete") {
            if eq_str(&chars_of(a.status.as_str()), "INFO") {
                return Some((String::from_str("SCHEDULED_REBOOT"), copy_string(&a.detail)));
            }
            return Some((copy_string(&a.status), copy_string(&a.detail)));
        }
        n = n - 1;
    }
    None
}

fn reason_exec(o: &Option<(String, String)>, execute: bool) -> (r: (String, bool, bool))
    ensures
        r.0@ == remaining_reason(
            match o {
                Some(x) => Some((x.0@, x.1@)),
                None => None,
            },
            execute,
        ),
        r.1 == pending_reboot(
            match o {
                Some(x) => Some((x.0@, x.1@)),
                None => None,
            },
            execute,
        ),
        r.2 == not_attempted(
            match o {
                Some(x) => Some((x.0@, x.1@)),
                None => None,
            },
            execute,
        ),
{
    let (status, detail) = match o {
        Some(x) => (chars_of(x.0.as_str()), x.1.as_str()),
        None => (Vec::new(), ""),
    };
    proof {
        reveal_strlit("");
    }
    if !execute || eq_str(&status, "DRYRUN") {
        (String::from_str("dry-run: not attempted"), false, true)
    } else if eq_str(&status, "SCHEDULED_REBOOT") {
        (String::from_str("scheduled for deletion at next reboot"), true, false)
    } else if eq_str(&status, "SKIP") {
        (concat2("skipped: ", detail), false, false)
    } else if eq_str(&status, "WARN") {
        (concat2("deletion failed: ", detail), false, false)
    } else if status.len() == 0 {
        (String::from_str("no action recorded"), false, false)
    } else {
        (String::from_str("still present"), false, false)
    }
}

/// Re-checks every discovered candidate after processing: `exists[i]` tells
/// whether candidate `paths[i]` is still present. Each remaining path gets a
/// `STILL EXISTS [reason] path` line, the reason taken from its latest
/// recorded deletion outcome; the section closes with a summary.
pub fn post_run_check(
    actions: &Vec<ActionRecord>,
    paths: &Vec<String>,
    exists: &Vec<bool>,
    execute: bool,
) -> (r: PostRunCheck)
    requires
        exists@.len() == paths@.len(),
        paths@.len() < u64::MAX,
    ensures
        ({
            let av = actions@.map_values(|a: ActionRecord| a@);
            let pv = views(paths@);
            let n = paths@.len();
            let remaining = check_count(av, pv, exists@, execute, 0, n);
            let pending = check_count(av, pv, exists@, execute, 1, n);
            let dry = check_count(av, pv, exists@, execute, 2, n);
            &&& r.remaining == remaining
            &&& r.pending_reboot == pending
            &&& r.dry_run == dry
            &&& r.section@ == "\n==== Post-run existence check ====\n"@ + check_lines(
                av,
                pv,
                exists@,
                execute,
                n,
            ) + check_summary(n, remaining, pending, dry)
            &&& r.log_level@ == (if n > 0 && remaining > 0 {
                "WARN"@
            } else {
                "INFO"@
            })
            &&& r.log_message@ == check_log_message(n, remaining)
        }),
{
    let ghost av = actions@.map_values(|a: ActionRecord| a@);
    let ghost pv = views(paths@);
    let mut lines = String::new();
    let mut remaining: u64 = 0;
    let mut pending: u64 = 0;
    let mut dry: u64 = 0;
    let mut i: usize = 0;
    while i < paths.len()
        invariant
            i <= paths.len(),
            exists@.len() == paths@.len(),
            paths@.len() < u64::MAX,
            av == actions@.map_values(|a: ActionRecord| a@),
            pv == views(paths@),
            lines@ == check_lines(av, pv, exists@, execute, i as nat),
            remaining == check_count(av, pv, exists@, execute, 0, i as nat),
            pending == check_count(av, pv, exists@, execute, 1, i as nat),
            dry == check_count(av, pv, exists@, execute, 2, i as nat),
            remaining <= i,
            pending <= i,
            dry <= i,
        decreases paths.len() - i,
    {
        assert(pv[i as int] == paths@[i as int]@);
        if exists[i] {
            let pc = chars_of(paths[i].as_str());
            let o = latest_outcome_exec(actions, &pc);
            let (reason, is_pending, is_dry) = reason_exec(&o, execute);
            let head = concat3("STILL EXISTS [", reason.as_str(), "] ");
            let line = concat3(head.as_str(), paths[i].as_str(), "\n");
            lines = concat2(lines.as_str(), line.as_str());
            remaining = remaining + 1;
            if is_pending {
                pending = pending + 1;
            }
            if is_dry {
                dry = dry + 1;
            }
        } else {
            assert(check_lines(av, pv, exists@, execute, (i + 1) as nat) =~= lines@);
        }
        i = i + 1;
    }
    let n = paths.len() as u64;
    let summary = if paths.len() == 0 {
        String::from_str("No NVIDIA bloat candidates were discovered in this run.\n")
    } else if remaining == 0 {
        concat3("Result: all ", u64_text(n).as_str(), " discovered paths are gone (0 remaining).\n")
    } else {
        let a = concat3("Summary: ", u64_text(remaining).as_str(), " of ");
        let b = concat3(a.as_str(), u64_text(n).as_str(), " discovered paths still exist");
        let c = if pending > 0 {
            concat3(
                b.as_str(),
                concat2(" (", u64_text(pending).as_str()).as_str(),
                " pending reboot deletion)",
            )
        } else {
            b
        };
        let d = if dry > 0 {
            concat3(
                c.as_str(),
                concat2(" (", u64_text(dry).as_str()).as_str(),
                " not attempted in dry-run)",
            )
        } else {
            c
        };
        concat2(d.as_str(), ".")
    };
    let section = concat3("\n==== Post-run existence check ====\n", lines.as_str(), summary.as_str());
    let log_message = if paths.len() == 0 {
        String::from_str(
            "Post-run check: no NVIDIA bloat candidates discovered; nothing to verify (0 paths remain).",
        )
    } else {
        let a = concat3("Post-run check: ", u64_text(n - remaining).as_str(), "/");
        let b = concat3(a.as_str(), u64_text(n).as_str(), " candidate paths removed");
        if remaining > 0 {
            concat3(
                b.as_str(),
                concat2("; ", u64_text(remaining).as_str()).as_str(),
                " still exist (details above)",
            )
        } else {
            b
        }
    };
    let log_level = if paths.len() > 0 && remaining > 0 {
        String::from_str("WARN")
    } else {
        String::from_str("INFO")
    };
    proof {
        reveal_strlit("");
    }
    PostRunCheck { section, remaining, pending_reboot: pending, dry_run: dry, log_level, log_message }
}


// ---------------------------------------------------------------------------
// JSON report
// ---------------------------------------------------------------------------

/// `true` or `false`.
pub open spec fn bool_text(b: bool) -> Seq<char> {
    if b {
        "true"@
    } else {
        "false"@
    }
}

fn bool_str(b: bool) -> (r: &'static str)
    ensures
        r@ == bool_text(b),
{
    if b {
        "true"
    } else {
        "false"
    }
}

/// `"key": value` members joined with `", "`, for the first `n` entries.
pub open spec fn json_members(keys: Seq<Seq<char>>, vals: Seq<Seq<char>>, n: nat) -> Seq<char>
    decreases n,
{
    if n == 0 {
        Seq::empty()
    } else {
        json_members(keys, vals, (n - 1) as nat) + (if n > 1 {
            ", "@
        } else {
            Seq::empty()
        }) + "\""@ + json_escape_seq(keys[n - 1]) + "\": "@ + vals[n - 1]
    }
}

/// Appends the members for `keys` and rendered `vals`.
fn push_members(out: &mut String, keys: &Vec<String>, vals: &Vec<String>)
    requires
        keys@.len() == vals@.len(),
    ensures
        final(out)@ == old(out)@ + json_members(views(keys@), views(vals@), keys@.len() as nat),
{
    let ghost start = out@;
    let mut i: usize = 0;
    while i < keys.len()
        invariant
            i <= keys.len(),
            keys@.len() == vals@.len(),
            out@ == start + json_members(views(keys@), views(vals@), i as nat),
        decreases keys.len() - i,
    {
        let sep = if i > 0 {
            ", "
        } else {
            ""
        };
        proof {
            reveal_strlit("");
        }
        let k = json_escape(keys[i].as_str());
        let a = concat3(sep, "\"", k.as_str());
        let b = concat3(a.as_str(), "\": ", vals[i].as_str());
        let ghost before = out@;
        *out = concat2(out.as_str(), b.as_str());
        assert(views(keys@)[i as int] == keys@[i as int]@);
        assert(views(vals@)[i as int] == vals@[i as int]@);
        assert(out@ =~= start + json_members(views(keys@), views(vals@), (i + 1) as nat));
        i = i + 1;
    }
}

/// Rendered counts of a tally.
pub open spec fn count_texts(counts: Seq<u64>) -> Seq<Seq<char>> {
    counts.map_values(|c: u64| decimal_nat(c as nat))
}

fn count_strings(counts: &Vec<u64>) -> (r: Vec<String>)
    ensures
        views(r@) == count_texts(counts@),
{
    let mut r: Vec<String> = Vec::new();
    let mut i: usize = 0;
    while i < counts.len()
        invariant
            i <= counts.len(),
            views(r@) == count_texts(counts@).take(i as int),
        decreases counts.len() - i,
    {
        let ghost before = views(r@);
        let t = u64_text(counts[i]);
        r.push(t);
        assert(views(r@) =~= before.push(t@));
        assert(views(r@) =~= count_texts(counts@).take(i + 1));
        i = i + 1;
    }
    assert(count_texts(counts@).take(counts@.len() as int) =~= count_texts(counts@));
    r
}

/// The members of a tally as JSON (`"key": count, ...`).
pub fn tally_json(t: &Tally) -> (r: String)
    requires
        t.keys@.len() == t.counts@.len(),
    ensures
        r@ == json_members(views(t.keys@), count_texts(t.counts@), t.keys@.len() as nat),
{
    let vals = count_strings(&t.counts);
    assert(vals@.len() == views(vals@).len());
    let mut out = String::new();
    push_members(&mut out, &t.keys, &vals);
    assert(out@ =~= json_members(views(t.keys@), count_texts(t.counts@), t.keys@.len() as nat));
    out
}

/// `key=count` pairs joined with `", "`, for the first `n` entries.
pub open spec fn summary_pairs(keys: Seq<Seq<char>>, counts: Seq<u64>, n: nat) -> Seq<char>
    decreases n,
{
    if n == 0 {
        Seq::empty()
    } else {
        summary_pairs(keys, counts, (n - 1) as nat) + (if n > 1 {
            ", "@
        } else {
            Seq::empty()
        }) + keys[n - 1] + "="@ + decimal_nat(counts[n - 1] as nat)
    }
}

/// The log line summarizing a status tally.
pub fn status_summary_line(t: &Tally) -> (r: String)
    requires
        t.keys@.len() == t.counts@.len(),
    ensures
        r@ == "Action summary by status: "@ + summary_pairs(
            views(t.keys@),
            t.counts@,
            t.keys@.len() as nat,
        ),
{
    let mut out = String::from_str("Action summary by status: ");
    let ghost start = out@;
    let mut i: usize = 0;
    while i < t.keys.len()
        invariant
            i <= t.keys.len(),
            t.keys@.len() == t.counts@.len(),
            out@ == start + summary_pairs(views(t.keys@), t.counts@, i as nat),
        decreases t.keys.len() - i,
    {
        let sep = if i > 0 {
            ", "
        } else {
            ""
        };
        proof {
            reveal_strlit("");
        }
        let a = concat3(sep, t.keys[i].as_str(), "=");
        let b = concat2(a.as_str(), u64_text(t.counts[i]).as_str());
        out = concat2(out.as_str(), b.as_str());
        assert(views(t.keys@)[i as int] == t.keys@[i as int]@);
        assert(out@ =~= start + summary_pairs(views(t.keys@), t.counts@, (i + 1) as nat));
        i = i + 1;
    }
    out
}

/// One action as a JSON object line of the report (`last` omits the comma).
pub open spec fn action_json(a: ActionView, last: bool) -> Seq<char> {
    "    {\"type\": \""@ + json_escape_seq(a.kind) + "\", \"status\": \""@ + json_escape_seq(
        a.status,
    ) + "\", \"component\": \""@ + json_escape_seq(a.component) + "\", \"path\": \""@
        + json_escape_seq(a.path) + "\", \"detail\": \""@ + json_escape_seq(a.detail) + "\"}"@ + (
    if last {
        Seq::empty()
    } else {
        ","@
    }) + "\n"@
}

/// The JSON lines of the first `n` of `actions`.
pub open spec fn actions_json(actions: Seq<ActionView>, n: nat) -> Seq<char>
    decreases n,
{
    if n == 0 {
        Seq::empty()
    } else {
        actions_json(actions, (n - 1) as nat) + action_json(actions[n - 1], n == actions.len())
    }
}

fn action_json_exec(a: &ActionRecord, last: bool) -> (r: String)
    ensures
        r@ == action_json(a@, last),
{
    let p1 = concat3("    {\"type\": \"", json_escape(a.kind.as_str()).as_str(), "\", \"status\": \"");
    let p2 = concat3(p1.as_str(), json_escape(a.status.as_str()).as_str(), "\", \"component\": \"");
    let p3 = concat3(p2.as_str(), json_escape(a.component.as_str()).as_str(), "\", \"path\": \"");
    let p4 = concat3(p3.as_str(), json_escape(a.path.as_str()).as_str(), "\", \"detail\": \"");
    let p5 = concat3(p4.as_str(), json_escape(a.detail.as_str()).as_str(), "\"}");
    let tail = if last {
        "\n"
    } else {
        ",\n"
    };
    proof {
        reveal_strlit("\n");
        reveal_strlit(",\n");
        reveal_strlit(",");
    }
    let r = concat2(p5.as_str(), tail);
    assert(r@ =~= action_json(a@, last));
    r
}

fn actions_json_exec(actions: &Vec<ActionRecord>) -> (r: String)
    ensures
        r@ == actions_json(actions@.map_values(|a: ActionRecord| a@), actions@.len() as nat),
{
    let ghost av = actions@.map_values(|a: ActionRecord| a@);
    let mut out = String::new();
    let mut i: usize = 0;
    while i < actions.len()
        invariant
            i <= actions.len(),
            av == actions@.map_values(|a: ActionRecord| a@),
            out@ == actions_json(av, i as nat),
        decreases actions.len() - i,
    {
        assert(av[i as int] == actions@[i as int]@);
        let line = action_json_exec(&actions[i], i + 1 == actions.len());
        out = concat2(out.as_str(), line.as_str());
        i = i + 1;
    }
    out
}

/// Component states in catalog order, as rendered JSON values.
pub open spec fn component_state_texts(m: Map<Seq<char>, bool>) -> Seq<Seq<char>> {
    catalog().map_values(|c: ComponentView| bool_text(is_enabled(m, c.key)))
}

/// The `"components"` members: every catalog component, in catalog order,
/// with its selection (an absent key counts as not selected).
pub fn components_json(enabled: &EnabledMap) -> (r: String)
    ensures
        r@ == json_members(
            catalog().map_values(|c: ComponentView| c.key),
            component_state_texts(enabled@),
            catalog().len(),
        ),
{
    let comps = build_components();
    let mut keys: Vec<String> = Vec::new();
    let mut vals: Vec<String> = Vec::new();
    let ghost cs = component_views(comps@);
    let mut i: usize = 0;
    while i < comps.len()
        invariant
            i <= comps.len(),
            cs == component_views(comps@),
            cs == catalog(),
            views(keys@) == cs.map_values(|c: ComponentView| c.key).take(i as int),
            views(vals@) == component_state_texts(enabled@).take(i as int),
        decreases comps.len() - i,
    {
        let c = &comps[i];
        assert(cs[i as int] == c@);
        let on = match enabled.get(c.key.as_str()) {
            Some(v) => v,
            None => false,
        };
        let ghost kb = views(keys@);
        let ghost vb = views(vals@);
        keys.push(copy_string(&c.key));
        vals.push(String::from_str(bool_str(on)));
        assert(views(keys@) =~= kb.push(c@.key));
        assert(views(vals@) =~= vb.push(bool_text(is_enabled(enabled@, c@.key))));
        assert(views(keys@) =~= cs.map_values(|c: ComponentView| c.key).take(i + 1));
        assert(views(vals@) =~= component_state_texts(enabled@).take(i + 1));
        i = i + 1;
    }
    assert(cs.map_values(|c: ComponentView| c.key).take(comps.len() as int) =~= cs.map_values(
        |c: ComponentView| c.key,
    ));
    assert(component_state_texts(enabled@).take(comps.len() as int) =~= component_state_texts(
        enabled@,
    ));
    let mut out = String::new();
    push_members(&mut out, &keys, &vals);
    assert(out@ =~= json_members(
        cs.map_values(|c: ComponentView| c.key),
        component_state_texts(enabled@),
        catalog().len(),
    ));
    out
}


/// Opening lines of the report: identity of the run and the mode.
pub open spec fn report_head(
    run_id: Seq<char>,
    exe_path: Seq<char>,
    identity: Seq<char>,
    is_admin: bool,
    is_trusted_installer: bool,
    execute: bool,
    log_path: Seq<char>,
    aborted: bool,
    candidate_count: nat,
) -> Seq<char> {
    "\n==== Run report (JSON) ====\n"@ + "{\n"@ + "  \"runId\": \""@ + json_escape_seq(run_id)
        + "\",\n"@ + "  \"exePath\": \""@ + json_escape_seq(exe_path) + "\",\n"@
        + "  \"identity\": \""@ + json_escape_seq(identity) + "\",\n"@ + "  \"isAdmin\": "@
        + bool_text(is_admin) + ",\n"@ + "  \"isTrustedInstaller\": "@ + bool_text(
        is_trusted_installer,
    ) + ",\n"@ + "  \"execute\": "@ + bool_text(execute) + ",\n"@ + "  \"version\": \""@
        + GPD_VERSION@ + "\",\n"@ + "  \"logPath\": \""@ + json_escape_seq(log_path) + "\",\n"@
        + "  \"aborted\": "@ + bool_text(aborted) + ",\n"@ + "  \"candidateCount\": "@
        + decimal_nat(candidate_count) + ",\n"@
}

fn report_head_exec(run: &RunState, identity: &str, is_admin: bool, is_trusted_installer: bool, execute: bool) -> (r: String)
    ensures
        r@ == report_head(
            run.run_id@,
            run.exe_path@,
            identity@,
            is_admin,
            is_trusted_installer,
            execute,
            run.log_path@,
            run.aborted,
            run.candidates@.len(),
        ),
{
    let a = concat3("\n==== Run report (JSON) ====\n", "{\n", "  \"runId\": \"");
    let a = concat3(a.as_str(), json_escape(run.run_id.as_str()).as_str(), "\",\n");
    let a = concat3(a.as_str(), "  \"exePath\": \"", json_escape(run.exe_path.as_str()).as_str());
    let a = concat3(a.as_str(), "\",\n", "  \"identity\": \"");
    let a = concat3(a.as_str(), json_escape(identity).as_str(), "\",\n");
    let a = concat3(a.as_str(), "  \"isAdmin\": ", bool_str(is_admin));
    let a = concat3(a.as_str(), ",\n", "  \"isTrustedInstaller\": ");
    let a = concat3(a.as_str(), bool_str(is_trusted_installer), ",\n");
    let a = concat3(a.as_str(), "  \"execute\": ", bool_str(execute));
    let a = concat3(a.as_str(), ",\n", "  \"version\": \"");
    let a = concat3(a.as_str(), GPD_VERSION, "\",\n");
    let a = concat3(a.as_str(), "  \"logPath\": \"", json_escape(run.log_path.as_str()).as_str());
    let a = concat3(a.as_str(), "\",\n", "  \"aborted\": ");
    let a = concat3(a.as_str(), bool_str(run.aborted), ",\n");
    let n = u64_text(run.candidates.len() as u64);
    let a = concat3(a.as_str(), "  \"candidateCount\": ", n.as_str());
    let a = concat2(a.as_str(), ",\n");
    assert(a@ =~= report_head(
        run.run_id@,
        run.exe_path@,
        identity@,
        is_admin,
        is_trusted_installer,
        execute,
        run.log_path@,
        run.aborted,
        run.candidates@.len(),
    ));
    a
}

/// Post-run counts, present once the existence check ran.
pub open spec fn report_post_run(done: bool, remaining: i64, pending: i64) -> Seq<char> {
    if done {
        "  \"candidatePathsRemainingAfterRun\": "@ + decimal(remaining as int) + ",\n"@
            + "  \"candidatePathsPendingRebootDelete\": "@ + decimal(pending as int) + ",\n"@
    } else {
        Seq::empty()
    }
}

/// Previous-run history, present once the tally ran.
pub open spec fn report_history(done: bool, files: i64, runs: i64, candidates: i64) -> Seq<char> {
    if done {
        "  \"previousLogs\": {\"files\": "@ + decimal(files as int) + ", \"runs\": "@ + decimal(
            runs as int,
        ) + ", \"candidatesDiscoveredTotal\": "@ + decimal(candidates as int) + "},\n"@
    } else {
        Seq::empty()
    }
}

fn report_tallies_exec(run: &RunState) -> (r: String)
    ensures
        r@ == report_post_run(
            run.post_run_check_done,
            run.paths_remaining_after_run,
            run.paths_pending_reboot,
        ) + report_history(
            run.history_scan_done,
            run.history_log_files,
            run.history_runs,
            run.history_candidates,
        ),
{
    let post = if run.post_run_check_done {
        let a = concat3(
            "  \"candidatePathsRemainingAfterRun\": ",
            i64_to_decimal(run.paths_remaining_after_run).as_str(),
            ",\n",
        );
        let b = concat3(
            "  \"candidatePathsPendingRebootDelete\": ",
            i64_to_decimal(run.paths_pending_reboot).as_str(),
            ",\n",
        );
        concat2(a.as_str(), b.as_str())
    } else {
        String::new()
    };
    let hist = if run.history_scan_done {
        let a = concat3(
            "  \"previousLogs\": {\"files\": ",
            i64_to_decimal(run.history_log_files).as_str(),
            ", \"runs\": ",
        );
        let b = concat3(
            a.as_str(),
            i64_to_decimal(run.history_runs).as_str(),
            ", \"candidatesDiscoveredTotal\": ",
        );
        concat3(b.as_str(), i64_to_decimal(run.history_candidates).as_str(), "},\n")
    } else {
        String::new()
    };
    concat2(post.as_str(), hist.as_str())
}

/// The `"options"` line of the report.
pub open spec fn report_options(o: OptionsView) -> Seq<char> {
    "  \"options\": {\"killLockers\": "@ + bool_text(o.kill_lockers) + ", \"disableServices\": "@
        + bool_text(o.disable_services) + ", \"deleteServices\": "@ + bool_text(o.delete_services)
        + ", \"disableScheduledTasks\": "@ + bool_text(o.disable_scheduled_tasks)
        + ", \"deleteScheduledTasks\": "@ + bool_text(o.delete_scheduled_tasks)
        + ", \"scheduleLockedForReboot\": "@ + bool_text(o.schedule_locked_for_reboot)
        + ", \"takeOwnership\": "@ + bool_text(o.take_ownership) + ", \"preserveNvContainers\": "@
        + bool_text(o.preserve_nv_containers) + ", \"allowAdminFallback\": "@ + bool_text(
        o.allow_admin_fallback,
    ) + ", \"tiChild\": "@ + bool_text(o.ti_child) + "},\n"@
}

fn report_options_exec(opts: &Options) -> (r: String)
    ensures
        r@ == report_options(opts@),
{
    let a = concat3("  \"options\": {\"killLockers\": ", bool_str(opts.kill_lockers), ", \"disableServices\": ");
    let a = concat3(a.as_str(), bool_str(opts.disable_services), ", \"deleteServices\": ");
    let a = concat3(a.as_str(), bool_str(opts.delete_services), ", \"disableScheduledTasks\": ");
    let a = concat3(a.as_str(), bool_str(opts.disable_scheduled_tasks), ", \"deleteScheduledTasks\": ");
    let a = concat3(a.as_str(), bool_str(opts.delete_scheduled_tasks), ", \"scheduleLockedForReboot\": ");
    let a = concat3(a.as_str(), bool_str(opts.schedule_locked_for_reboot), ", \"takeOwnership\": ");
    let a = concat3(a.as_str(), bool_str(opts.take_ownership), ", \"preserveNvContainers\": ");
    let a = concat3(a.as_str(), bool_str(opts.preserve_nv_containers), ", \"allowAdminFallback\": ");
    let a = concat3(a.as_str(), bool_str(opts.allow_admin_fallback), ", \"tiChild\": ");
    let a = concat3(a.as_str(), bool_str(opts.ti_child), "},\n");
    assert(a@ =~= report_options(opts@));
    a
}

/// The whole JSON report block appended to the run log.
pub open spec fn report_block(
    head: Seq<char>,
    tallies: Seq<char>,
    components: Seq<char>,
    options: Seq<char>,
    by_status: Seq<char>,
    by_type: Seq<char>,
    actions: Seq<char>,
) -> Seq<char> {
    head + tallies + "  \"components\": {"@ + components + "},\n"@ + options
        + "  \"summaryByStatus\": {"@ + by_status + "},\n"@ + "  \"summaryByType\": {"@ + by_type
        + "},\n"@ + "  \"actions\": [\n"@ + actions + "  ]\n"@ + "}\n"@
}

/// The JSON report text of a run for the status tally `sk`/`sc` and the
/// kind tally `tk`/`tc` (keys and counts).
pub open spec fn report_text(
    run: RunState,
    opts: OptionsView,
    execute: bool,
    enabled: Map<Seq<char>, bool>,
    identity: Seq<char>,
    is_admin: bool,
    is_trusted_installer: bool,
    sk: Seq<Seq<char>>,
    sc: Seq<u64>,
    tk: Seq<Seq<char>>,
    tc: Seq<u64>,
) -> Seq<char> {
    report_block(
        report_head(
            run.run_id@,
            run.exe_path@,
            identity,
            is_admin,
            is_trusted_installer,
            execute,
            run.log_path@,
            run.aborted,
            run.candidates@.len(),
        ),
        report_post_run(run.post_run_check_done, run.paths_remaining_after_run, run.paths_pending_reboot)
            + report_history(
            run.history_scan_done,
            run.history_log_files,
            run.history_runs,
            run.history_candidates,
        ),
        json_members(
            catalog().map_values(|c: ComponentView| c.key),
            component_state_texts(enabled),
            catalog().len(),
        ),
        report_options(opts),
        json_members(sk, count_texts(sc), sk.len()),
        json_members(tk, count_texts(tc), tk.len()),
        actions_json(run.actions@.map_values(|a: ActionRecord| a@), run.actions@.len() as nat),
    )
}

/// A run's report with the tallies it was built from.
pub struct RunReport {
    pub by_status: Tally,
    pub by_type: Tally,
    /// The JSON report block.
    pub text: String,
    /// The status summary line.
    pub summary: String,
}

/// The report of a run, with the status and kind tallies taken from the
/// run's own actions; `None` only when there are too many actions to count.
pub fn run_report(
    run: &RunState,
    opts: &Options,
    enabled: &EnabledMap,
    identity: &str,
    is_admin: bool,
    is_trusted_installer: bool,
) -> (r: Option<RunReport>)
    ensures
        (r is Some) == (run.actions@.len() < u64::MAX),
        r matches Some(rep) ==> ({
            let av = run.actions@.map_values(|a: ActionRecord| a@);
            let sk = views(rep.by_status.keys@);
            let tk = views(rep.by_type.keys@);
            &&& is_tally(sk, rep.by_status.counts@, action_fields(av, true))
            &&& is_tally(tk, rep.by_type.counts@, action_fields(av, false))
            &&& rep.text@ == report_text(
                *run,
                opts@,
                opts.execute,
                enabled@,
                identity@,
                is_admin,
                is_trusted_installer,
                sk,
                rep.by_status.counts@,
                tk,
                rep.by_type.counts@,
            )
            &&& rep.summary@ == "Action summary by status: "@ + summary_pairs(
                sk,
                rep.by_status.counts@,
                sk.len(),
            )
        }),
{
    if run.actions.len() as u64 == u64::MAX {
        return None;
    }
    let by_status = tally_actions(&run.actions, true);
    let by_type = tally_actions(&run.actions, false);
    let text = write_report(run, opts, enabled, identity, is_admin, is_trusted_installer, &by_status, &by_type);
    let summary = status_summary_line(&by_status);
    Some(RunReport { by_status, by_type, text, summary })
}

/// The JSON report of a run: identity, mode and counts, the component
/// selection in catalog order, the options, the status and kind tallies
/// (as [`tally_actions`] computes them) and every action in order. Strings
/// are JSON-escaped.
pub fn write_report(
    run: &RunState,
    opts: &Options,
    enabled: &EnabledMap,
    identity: &str,
    is_admin: bool,
    is_trusted_installer: bool,
    by_status: &Tally,
    by_type: &Tally,
) -> (r: String)
    requires
        by_status.keys@.len() == by_status.counts@.len(),
        by_type.keys@.len() == by_type.counts@.len(),
    ensures
        r@ == report_block(
            report_head(
                run.run_id@,
                run.exe_path@,
                identity@,
                is_admin,
                is_trusted_installer,
                opts.execute,
                run.log_path@,
                run.aborted,
                run.candidates@.len(),
            ),
            report_post_run(
                run.post_run_check_done,
                run.paths_remaining_after_run,
                run.paths_pending_reboot,
            ) + report_history(
                run.history_scan_done,
                run.history_log_files,
                run.history_runs,
                run.history_candidates,
            ),
            json_members(
                catalog().map_values(|c: ComponentView| c.key),
                component_state_texts(enabled@),
                catalog().len(),
            ),
            report_options(opts@),
            json_members(
                views(by_status.keys@),
                count_texts(by_status.counts@),
                by_status.keys@.len() as nat,
            ),
            json_members(views(by_type.keys@), count_texts(by_type.counts@), by_type.keys@.len() as nat),
            actions_json(run.actions@.map_values(|a: ActionRecord| a@), run.actions@.len() as nat),
        ),
{
    let head = report_head_exec(run, identity, is_admin, is_trusted_installer, opts.execute);
    let tallies = report_tallies_exec(run);
    let comps = components_json(enabled);
    let options = report_options_exec(opts);
    let st = tally_json(by_status);
    let ty = tally_json(by_type);
    let acts = actions_json_exec(&run.actions);
    let a = concat3(head.as_str(), tallies.as_str(), "  \"components\": {");
    let a = concat3(a.as_str(), comps.as_str(), "},\n");
    let a = concat3(a.as_str(), options.as_str(), "  \"summaryByStatus\": {");
    let a = concat3(a.as_str(), st.as_str(), "},\n");
    let a = concat3(a.as_str(), "  \"summaryByType\": {", ty.as_str());
    let a = concat3(a.as_str(), "},\n", "  \"actions\": [\n");
    let a = concat3(a.as_str(), acts.as_str(), "  ]\n");
    let a = concat2(a.as_str(), "}\n");
    assert(a@ =~= report_block(head@, tallies@, comps@, options@, st@, ty@, acts@));
    a
}


// ---------------------------------------------------------------------------
// Cleanup run: header, gate and closing lines
// ---------------------------------------------------------------------------

/// `True` or `False`, as the header prints flags.
pub open spec fn title_bool(b: bool) -> Seq<char> {
    if b {
        "True"@
    } else {
        "False"@
    }
}

fn title_bool_str(b: bool) -> (r: &'static str)
    ensures
        r@ == title_bool(b),
{
    if b {
        "True"
    } else {
        "False"
    }
}

/// `key=on|off` pairs of the first `n` catalog components, joined with `", "`.
pub open spec fn component_pairs(m: Map<Seq<char>, bool>, n: nat) -> Seq<char>
    decreases n,
{
    if n == 0 {
        Seq::empty()
    } else {
        let c = catalog()[n - 1];
        component_pairs(m, (n - 1) as nat) + (if n > 1 {
            ", "@
        } else {
            Seq::empty()
        }) + c.key + "="@ + (if is_enabled(m, c.key) {
            "on"@
        } else {
            "off"@
        })
    }
}

/// The `Components: ...` header line: every catalog component with its
/// selection, in catalog order.
pub fn components_summary_line(enabled: &EnabledMap) -> (r: String)
    ensures
        r@ == "Components: "@ + component_pairs(enabled@, catalog().len()),
{
    let comps = build_components();
    let ghost cs = component_views(comps@);
    let mut out = String::from_str("Components: ");
    let ghost start = out@;
    let mut i: usize = 0;
    while i < comps.len()
        invariant
            i <= comps.len(),
            cs == component_views(comps@),
            cs == catalog(),
            out@ == start + component_pairs(enabled@, i as nat),
        decreases comps.len() - i,
    {
        let c = &comps[i];
        assert(cs[i as int] == c@);
        let on = match enabled.get(c.key.as_str()) {
            Some(v) => v,
            None => false,
        };
        let sep = if i > 0 {
            ", "
        } else {
            ""
        };
        proof {
            reveal_strlit("");
        }
        let a = concat3(sep, c.key.as_str(), "=");
        let b = concat2(
            a.as_str(),
            if on {
                "on"
            } else {
                "off"
            },
        );
        out = concat2(out.as_str(), b.as_str());
        assert(out@ =~= start + component_pairs(enabled@, (i + 1) as nat));
        i = i + 1;
    }
    out
}

/// Header lines of a cleanup run, all logged at `INFO`.
pub open spec fn run_header(
    run_id: Seq<char>,
    exe_path: Seq<char>,
    log_path: Seq<char>,
    identity: Seq<char>,
    is_admin: bool,
    is_trusted_installer: bool,
    o: OptionsView,
    components_line: Seq<char>,
) -> Seq<Seq<char>> {
    seq![
        "==== NVIDIA post-install debloat run header ===="@,
        "RunId: "@ + run_id,
        "Exe: "@ + exe_path,
        "Log: "@ + log_path,
        "Identity: "@ + identity,
        "IsAdmin: "@ + title_bool(is_admin),
        "IsTrustedInstaller: "@ + title_bool(is_trusted_installer),
        "Execution mode: "@ + (if o.execute {
            "EXECUTE"@
        } else {
            "DRY RUN"@
        }),
    ] + (if !o.execute {
        seq![
            "Dry run does not request TrustedInstaller; it only scans and logs as the current user/admin."@,
        ]
    } else {
        Seq::empty()
    }) + (if o.execute && !o.ti_child && !o.allow_admin_fallback && !is_trusted_installer {
        seq![
            "Execute mode will attempt TrustedInstaller scheduled-task relaunch before destructive actions."@,
        ]
    } else {
        Seq::empty()
    }) + seq![
        "Preserve NVIDIA Container processes/services: "@ + title_bool(o.preserve_nv_containers),
        components_line,
    ]
}

/// The header lines of a cleanup run.
pub fn run_header_lines(
    run: &RunState,
    opts: &Options,
    enabled: &EnabledMap,
    identity: &str,
    is_admin: bool,
    is_trusted_installer: bool,
) -> (r: Vec<String>)
    ensures
        views(r@) == run_header(
            run.run_id@,
            run.exe_path@,
            run.log_path@,
            identity@,
            is_admin,
            is_trusted_installer,
            opts@,
            "Components: "@ + component_pairs(enabled@, catalog().len()),
        ),
{
    let mut v: Vec<String> = Vec::new();
    v.push(String::from_str("==== NVIDIA post-install debloat run header ===="));
    v.push(concat2("RunId: ", run.run_id.as_str()));
    v.push(concat2("Exe: ", run.exe_path.as_str()));
    v.push(concat2("Log: ", run.log_path.as_str()));
    v.push(concat2("Identity: ", identity));
    v.push(concat2("IsAdmin: ", title_bool_str(is_admin)));
    v.push(concat2("IsTrustedInstaller: ", title_bool_str(is_trusted_installer)));
    v.push(
        concat2(
            "Execution mode: ",
            if opts.execute {
                "EXECUTE"
            } else {
                "DRY RUN"
            },
        ),
    );
    let ghost first = views(v@);
    if !opts.execute {
        v.push(
            String::from_str(
                "Dry run does not request TrustedInstaller; it only scans and logs as the current user/admin.",
            ),
        );
    }
    let ghost second = views(v@);
    if opts.execute && !opts.ti_child && !opts.allow_admin_fallback && !is_trusted_installer {
        v.push(
            String::from_str(
                "Execute mode will attempt TrustedInstaller scheduled-task relaunch before destructive actions.",
            ),
        );
    }
    let ghost third = views(v@);
    v.push(
        concat2(
            "Preserve NVIDIA Container processes/services: ",
            title_bool_str(opts.preserve_nv_containers),
        ),
    );
    v.push(components_summary_line(enabled));
    assert(views(v@) =~= run_header(
        run.run_id@,
        run.exe_path@,
        run.log_path@,
        identity@,
        is_admin,
        is_trusted_installer,
        opts@,
        "Components: "@ + component_pairs(enabled@, catalog().len()),
    ));
    v
}

/// A destructive run may proceed only with a writable audit log, and only
/// as the TrustedInstaller child, as TrustedInstaller itself, or with the
/// administrator fallback allowed.
pub open spec fn cleanup_allowed(o: OptionsView, is_trusted_installer: bool, log_writable: bool) -> bool {
    !o.execute || (log_writable && (o.ti_child || is_trusted_installer || o.allow_admin_fallback))
}

/// Refusal text of the cleanup gate: the audit-log probe's failure `probe`
/// when the log is not writable, otherwise the TrustedInstaller requirement.
pub open spec fn cleanup_refusal(log_problem: Option<Seq<char>>) -> Seq<char> {
    match log_problem {
        Some(p) => "Destructive execution requires a writable audit log: "@ + p,
        None => "Destructive execution requires TrustedInstaller. Relaunch did not occur or did not enter TI context."@,
    }
}

/// Checked before any cleanup step. `log_problem` is the failure of the
/// probe that opens the run log for appending (`None` when it is
/// writable). An executing run needs a writable audit log, and then the
/// TrustedInstaller child, TrustedInstaller itself, or the administrator
/// fallback; a dry run always proceeds.
pub fn cleanup_gate(opts: &Options, is_trusted_installer: bool, log_problem: Option<&str>) -> (r:
    Result<(), String>)
    ensures
        r is Ok <==> cleanup_allowed(opts@, is_trusted_installer, log_problem is None),
        r is Err ==> r->Err_0@ == cleanup_refusal(
            match log_problem {
                Some(p) => Some(p@),
                None => None,
            },
        ),
{
    if !opts.execute {
        return Ok(());
    }
    match log_problem {
        Some(p) => {
            return Err(concat2("Destructive execution requires a writable audit log: ", p));
        },
        None => {},
    }
    if !opts.ti_child && !is_trusted_installer && !opts.allow_admin_fallback {
        return Err(
            String::from_str(
                "Destructive execution requires TrustedInstaller. Relaunch did not occur or did not enter TI context.",
            ),
        );
    }
    Ok(())
}

/// The stages of a cleanup run that passed its gate.
#[derive(Debug, PartialEq, Eq, Structural)]
pub enum CleanupStage {
    /// Stop, disable or delete matched services.
    Services,
    /// Stop explicitly listed locker processes.
    Lockers,
    /// Disable or delete matched scheduled tasks.
    ScheduledTasks,
    /// Tally the logs of earlier runs.
    PreviousLogs,
    /// Inspect running containers and their modules before deletion.
    InspectBeforeDeletion,
    /// Discover candidate paths.
    Discovery,
    /// Write the candidates to the log.
    CandidatesToLog,
    /// Delete the candidates, stopping on an abort.
    Deletion,
    /// Inspect running containers and their modules again.
    InspectAfterDeletion,
    /// Check which candidates still exist.
    ExistenceCheck,
    /// The closing lines around the JSON report.
    Closing,
}

/// The order of the cleanup stages: processes and services are stopped
/// and tasks disabled before anything is deleted, containers are
/// inspected before and after deletion, and the existence check and the
/// report come last.
pub open spec fn cleanup_order() -> Seq<CleanupStage> {
    seq![
        CleanupStage::Services,
        CleanupStage::Lockers,
        CleanupStage::ScheduledTasks,
        CleanupStage::PreviousLogs,
        CleanupStage::InspectBeforeDeletion,
        CleanupStage::Discovery,
        CleanupStage::CandidatesToLog,
        CleanupStage::Deletion,
        CleanupStage::InspectAfterDeletion,
        CleanupStage::ExistenceCheck,
        CleanupStage::Closing,
    ]
}

/// The cleanup stages, in the order they run.
pub fn cleanup_stages() -> (r: Vec<CleanupStage>)
    ensures
        r@ == cleanup_order(),
{
    let r = vec![
        CleanupStage::Services,
        CleanupStage::Lockers,
        CleanupStage::ScheduledTasks,
        CleanupStage::PreviousLogs,
        CleanupStage::InspectBeforeDeletion,
        CleanupStage::Discovery,
        CleanupStage::CandidatesToLog,
        CleanupStage::Deletion,
        CleanupStage::InspectAfterDeletion,
        CleanupStage::ExistenceCheck,
        CleanupStage::Closing,
    ];
    assert(r@ =~= cleanup_order());
    r
}

/// Warning for a TrustedInstaller child that runs under another identity.
pub fn ti_child_identity_warning(opts: &Options, is_trusted_installer: bool, identity: &str) -> (r:
    Option<String>)
    ensures
        (r is Some) == (opts.ti_child && !is_trusted_installer),
        r is Some ==> r->0@ == "TI child running as "@ + identity@
            + " instead of TrustedInstaller. SYSTEM-level privileges should suffice for file operations."@,
{
    if opts.ti_child && !is_trusted_installer {
        Some(
            concat3(
                "TI child running as ",
                identity,
                " instead of TrustedInstaller. SYSTEM-level privileges should suffice for file operations.",
            ),
        )
    } else {
        None
    }
}

/// Closing lines of a cleanup run, as (level, message) pairs.
pub open spec fn run_closing(aborted: bool, log_path: Seq<char>, o: OptionsView) -> Seq<
    (Seq<char>, Seq<char>),
> {
    (if aborted {
        seq![("WARN"@, "Run aborted by user request; partial results recorded."@)]
    } else {
        Seq::empty()
    }) + seq![("INFO"@, "Done. Log: "@ + log_path)] + (if !o.execute {
        seq![("WARN"@, "Dry run only. Re-run with --execute to make changes."@)]
    } else {
        Seq::empty()
    }) + (if o.schedule_locked_for_reboot {
        seq![("WARN"@, "Some locked-file deletions may require reboot. Review report/log."@)]
    } else {
        Seq::empty()
    })
}

/// The closing lines of a cleanup run (the report sits between the first
/// and the second).
pub fn run_closing_lines(run: &RunState, opts: &Options) -> (r: Vec<(String, String)>)
    ensures
        r@.map_values(|p: (String, String)| (p.0@, p.1@)) == run_closing(
            run.aborted,
            run.log_path@,
            opts@,
        ),
{
    let mut v: Vec<(String, String)> = Vec::new();
    if run.aborted {
        v.push(
            (
                String::from_str("WARN"),
                String::from_str("Run aborted by user request; partial results recorded."),
            ),
        );
    }
    let ghost a = v@.map_values(|p: (String, String)| (p.0@, p.1@));
    v.push((String::from_str("INFO"), concat2("Done. Log: ", run.log_path.as_str())));
    let ghost b = v@.map_values(|p: (String, String)| (p.0@, p.1@));
    if !opts.execute {
        v.push(
            (
                String::from_str("WARN"),
                String::from_str("Dry run only. Re-run with --execute to make changes."),
            ),
        );
    }
    if opts.schedule_locked_for_reboot {
        v.push(
            (
                String::from_str("WARN"),
                String::from_str("Some locked-file deletions may require reboot. Review report/log."),
            ),
        );
    }
    assert(v@.map_values(|p: (String, String)| (p.0@, p.1@)) =~= run_closing(
        run.aborted,
        run.log_path@,
        opts@,
    ));
    v
}

} // verus!
