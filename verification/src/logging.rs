//! Log lines, console colors per level, and action records.

use vstd::prelude::*;
use crate::text::{chars_of, concat2, concat3, eq_str, push_char, string_of_range};
use crate::util::{decimal, i64_to_decimal, trim, trim_seq};
use crate::types::{ActionRecord, ActionView, RunState};

verus! {

pub const FOREGROUND_BLUE: u16 = 0x0001;
pub const FOREGROUND_GREEN: u16 = 0x0002;
pub const FOREGROUND_RED: u16 = 0x0004;
pub const FOREGROUND_INTENSITY: u16 = 0x0008;

pub const COLOR_WHITE: u16 = 0x0007;
pub const COLOR_RED: u16 = 0x000C;
pub const COLOR_YELLOW: u16 = 0x000E;
pub const COLOR_CYAN: u16 = 0x000B;

/// Named mutex serializing large multi-line appends to the shared run log
/// across all processes of a run.
pub const K_LOG_MUTEX_NAME: &'static str = "Global\\GreenPostInstallDebloatNative_LogMutex";

/// The console colors are the documented foreground bit combinations.
pub proof fn lemma_colors_are_foreground_bits()
    ensures
        COLOR_WHITE == FOREGROUND_RED | FOREGROUND_GREEN | FOREGROUND_BLUE,
        COLOR_RED == FOREGROUND_RED | FOREGROUND_INTENSITY,
        COLOR_YELLOW == FOREGROUND_RED | FOREGROUND_GREEN | FOREGROUND_INTENSITY,
        COLOR_CYAN == FOREGROUND_BLUE | FOREGROUND_GREEN | FOREGROUND_INTENSITY,
{
    assert(0x0004u16 | 0x0002u16 | 0x0001u16 == 0x0007u16) by (bit_vector);
    assert(0x0004u16 | 0x0008u16 == 0x000Cu16) by (bit_vector);
    assert(0x0004u16 | 0x0002u16 | 0x0008u16 == 0x000Eu16) by (bit_vector);
    assert(0x0001u16 | 0x0002u16 | 0x0008u16 == 0x000Bu16) by (bit_vector);
}

/// A line to log: its level and message.
pub struct LogLine {
    pub level: String,
    pub message: String,
}

/// Console color of a log level: red for errors, yellow for warnings, cyan
/// for dry-run lines, white otherwise.
pub open spec fn level_color(level: Seq<char>) -> u16 {
    if level == "ERROR"@ || level == "FATAL"@ {
        COLOR_RED
    } else if level == "WARN"@ {
        COLOR_YELLOW
    } else if level == "DRYRUN"@ {
        COLOR_CYAN
    } else {
        COLOR_WHITE
    }
}

/// The console color of a log level.
pub fn color_for_level(level: &str) -> (r: u16)
    ensures
        r == level_color(level@),
{
    let l = chars_of(level);
    if eq_str(&l, "ERROR") || eq_str(&l, "FATAL") {
        COLOR_RED
    } else if eq_str(&l, "WARN") {
        COLOR_YELLOW
    } else if eq_str(&l, "DRYRUN") {
        COLOR_CYAN
    } else {
        COLOR_WHITE
    }
}

/// One log line: `[<stamp>] [<level>] <message>` and a newline.
pub open spec fn log_line_spec(stamp: Seq<char>, level: Seq<char>, message: Seq<char>) -> Seq<char> {
    "["@ + stamp + "] ["@ + level + "] "@ + message + "\n"@
}

/// Formats one log line.
pub fn log_line_text(stamp: &str, level: &str, message: &str) -> (r: String)
    ensures
        r@ == log_line_spec(stamp@, level@, message@),
{
    let a = concat2("[", stamp);
    let b = concat2(a.as_str(), "] [");
    let c = concat2(b.as_str(), level);
    let d = concat2(c.as_str(), "] ");
    let e = concat2(d.as_str(), message);
    concat2(e.as_str(), "\n")
}

/// Message of a logged action: `<kind> [<component>] <path>`, then
/// ` :: <detail>` when the detail is nonempty.
pub open spec fn action_message_spec(
    kind: Seq<char>,
    component: Seq<char>,
    path: Seq<char>,
    detail: Seq<char>,
) -> Seq<char> {
    let head = kind + " ["@ + component + "] "@ + path;
    if detail.len() == 0 {
        head
    } else {
        head + " :: "@ + detail
    }
}

/// Formats the message of a logged action.
pub fn action_message(kind: &str, component: &str, path: &str, detail: &str) -> (r: String)
    ensures
        r@ == action_message_spec(kind@, component@, path@, detail@),
{
    let a = concat2(kind, " [");
    let b = concat2(a.as_str(), component);
    let c = concat2(b.as_str(), "] ");
    let head = concat2(c.as_str(), path);
    if detail.is_empty() {
        head
    } else {
        let h2 = concat2(head.as_str(), " :: ");
        concat2(h2.as_str(), detail)
    }
}

/// The record of one action.
pub fn action_record(kind: &str, status: &str, component: &str, path: &str, detail: &str) -> (r:
    ActionRecord)
    ensures
        r@ == (ActionView {
            kind: kind@,
            status: status@,
            component: component@,
            path: path@,
            detail: detail@,
        }),
{
    ActionRecord {
        kind: String::from_str(kind),
        status: String::from_str(status),
        component: String::from_str(component),
        path: String::from_str(path),
        detail: String::from_str(detail),
    }
}

/// Records one action in the run state; nothing else changes.
pub fn add_action(
    state: &mut RunState,
    kind: &str,
    status: &str,
    component: &str,
    path: &str,
    detail: &str,
)
    ensures
        final(state).actions@.len() == old(state).actions@.len() + 1,
        forall|i: int|
            0 <= i < old(state).actions@.len() ==> final(state).actions@[i] == old(
                state,
            ).actions@[i],
        final(state).actions@.last()@ == (ActionView {
            kind: kind@,
            status: status@,
            component: component@,
            path: path@,
            detail: detail@,
        }),
        final(state).exe_path == old(state).exe_path,
        final(state).exe_dir == old(state).exe_dir,
        final(state).run_id == old(state).run_id,
        final(state).log_path == old(state).log_path,
        final(state).candidates == old(state).candidates,
        final(state).aborted == old(state).aborted,
        final(state).post_run_check_done == old(state).post_run_check_done,
        final(state).paths_remaining_after_run == old(state).paths_remaining_after_run,
        final(state).paths_pending_reboot == old(state).paths_pending_reboot,
        final(state).history_scan_done == old(state).history_scan_done,
        final(state).history_log_files == old(state).history_log_files,
        final(state).history_runs == old(state).history_runs,
        final(state).history_candidates == old(state).history_candidates,
        final(state).reported_containers == old(state).reported_containers,
        final(state).reported_modules == old(state).reported_modules,
        final(state).reboot_scheduled_paths == old(state).reboot_scheduled_paths,
{
    let rec = action_record(kind, status, component, path, detail);
    state.actions.push(rec);
}


// ---------------------------------------------------------------------------
// Console text
// ---------------------------------------------------------------------------

/// How the character at `i` reaches the console: a bare line feed becomes
/// CR LF; any other character, a line feed after a carriage return
/// included, stays as it is.
pub open spec fn crlf_piece(s: Seq<char>, i: int) -> Seq<char> {
    if s[i] == '\n' && (i == 0 || s[i - 1] != '\r') {
        seq!['\r', '\n']
    } else {
        seq![s[i]]
    }
}

/// Console text of `s`: every bare line feed becomes CR LF, and existing
/// CR LF pairs are kept, not doubled.
pub open spec fn console_crlf(s: Seq<char>) -> Seq<char>
    decreases s.len(),
{
    if s.len() == 0 {
        Seq::empty()
    } else {
        console_crlf(s.drop_last()) + crlf_piece(s, s.len() - 1)
    }
}

/// One more character of input adds its piece at the end.
proof fn lemma_crlf_step(s: Seq<char>, i: int)
    requires
        0 <= i < s.len(),
    ensures
        console_crlf(s.take(i + 1)) == console_crlf(s.take(i)) + crlf_piece(s, i),
{
    let t = s.take(i + 1);
    assert(t.drop_last() =~= s.take(i));
    assert(t[i] == s[i]);
    if i > 0 {
        assert(t[i - 1] == s[i - 1]);
    }
    assert(crlf_piece(t, i) =~= crlf_piece(s, i));
}

/// Text as it is written to an interactive console.
pub fn console_text(text: &str) -> (r: String)
    ensures
        r@ == console_crlf(text@),
{
    let v = chars_of(text);
    let mut out = String::new();
    let mut i: usize = 0;
    while i < v.len()
        invariant
            i <= v.len(),
            v@ == text@,
            out@ == console_crlf(v@.take(i as int)),
        decreases v.len() - i,
    {
        proof {
            lemma_crlf_step(v@, i as int);
        }
        if v[i] == '\n' && (i == 0 || v[i - 1] != '\r') {
            push_char(&mut out, '\r');
        }
        push_char(&mut out, v[i]);
        proof {
            assert(out@ =~= console_crlf(v@.take(i as int)) + crlf_piece(v@, i as int));
        }
        i = i + 1;
    }
    proof {
        assert(v@.take(v.len() as int) =~= v@);
    }
    out
}

/// Every line feed of `t` comes right after a carriage return.
pub open spec fn line_feeds_after_cr(t: Seq<char>) -> bool {
    forall|k: int| 0 <= k < t.len() && #[trigger] t[k] == '\n' ==> k >= 1 && t[k - 1] == '\r'
}

/// Console text ends with the character the input ends with.
proof fn lemma_crlf_last(s: Seq<char>)
    requires
        s.len() > 0,
    ensures
        console_crlf(s).len() > 0,
        console_crlf(s).last() == s.last(),
{
}

/// Console text has every line feed after a carriage return.
proof fn lemma_crlf_shape(s: Seq<char>)
    ensures
        line_feeds_after_cr(console_crlf(s)),
    decreases s.len(),
{
    if s.len() > 0 {
        let init = s.drop_last();
        lemma_crlf_shape(init);
        let a = console_crlf(init);
        let e = crlf_piece(s, s.len() - 1);
        let r = console_crlf(s);
        assert(r == a + e);
        if s.len() > 1 {
            lemma_crlf_last(init);
            assert(init.last() == s[s.len() - 2]);
        }
        assert forall|k: int| 0 <= k < r.len() && #[trigger] r[k] == '\n' implies k >= 1 && r[k - 1]
            == '\r' by {
            if k < a.len() {
                assert(r[k] == a[k]);
                assert(a[k] == '\n');
                assert(r[k - 1] == a[k - 1]);
            } else if k > a.len() {
                assert(r[k - 1] == e[0]);
            } else {
                assert(r[k] == e[0]);
                if a.len() > 0 {
                    assert(r[k - 1] == a.last());
                }
            }
        }
    }
}

/// Text whose line feeds all follow carriage returns reaches the console
/// unchanged.
proof fn lemma_crlf_fixed(t: Seq<char>)
    requires
        line_feeds_after_cr(t),
    ensures
        console_crlf(t) == t,
    decreases t.len(),
{
    if t.len() > 0 {
        let init = t.drop_last();
        assert forall|k: int| 0 <= k < init.len() && #[trigger] init[k] == '\n' implies k >= 1
            && init[k - 1] == '\r' by {
            assert(t[k] == init[k]);
        }
        lemma_crlf_fixed(init);
        assert(t.last() == t[t.len() - 1]);
        assert(crlf_piece(t, t.len() - 1) =~= seq![t.last()]);
        assert(init.push(t.last()) =~= t);
    }
}

/// Writing console text a second time changes nothing: bare line feeds
/// become CR LF once, and existing CR LF pairs are never doubled. Every
/// line feed of console text follows a carriage return.
pub proof fn lemma_console_crlf_idempotent(s: Seq<char>)
    ensures
        line_feeds_after_cr(console_crlf(s)),
        console_crlf(console_crlf(s)) == console_crlf(s),
{
    lemma_crlf_shape(s);
    lemma_crlf_fixed(console_crlf(s));
}

/// A line read from input, without the line breaks at its end.
pub open spec fn without_line_end(s: Seq<char>) -> Seq<char>
    decreases s.len(),
{
    if s.len() > 0 && (s.last() == '\n' || s.last() == '\r') {
        without_line_end(s.drop_last())
    } else {
        s
    }
}

/// Strips the line feeds and carriage returns ending `line`.
pub fn strip_line_end(line: &str) -> (r: String)
    ensures
        r@ == without_line_end(line@),
{
    let v = chars_of(line);
    let mut end: usize = v.len();
    proof {
        assert(v@.take(v.len() as int) =~= v@);
    }
    while end > 0 && (v[end - 1] == '\n' || v[end - 1] == '\r')
        invariant
            end <= v.len(),
            v@ == line@,
            without_line_end(v@.take(end as int)) == without_line_end(line@),
        decreases end,
    {
        proof {
            assert(v@.take(end as int).drop_last() =~= v@.take(end - 1));
        }
        end = end - 1;
    }
    proof {
        if end > 0 {
            assert(v@.take(end as int).last() == v@[end - 1]);
        }
        assert(without_line_end(v@.take(end as int)) == v@.take(end as int));
    }
    string_of_range(&v, 0, end)
}


// ---------------------------------------------------------------------------
// External commands
// ---------------------------------------------------------------------------

/// In a dry run, a command that only inspects or whose effect is harmless
/// to skip (`dry_run_ok`) is not run but logged as `Would run: ...`.
pub open spec fn command_skipped(execute: bool, dry_run_ok: bool) -> bool {
    !execute && dry_run_ok
}

/// The line logged instead of running a command in a dry run, or `None`
/// when the command is to be run.
pub fn dry_run_command_line(execute: bool, dry_run_ok: bool, command_line: &str) -> (r: Option<LogLine>)
    ensures
        (r is Some) == command_skipped(execute, dry_run_ok),
        r matches Some(l) ==> l.level@ == "DRYRUN"@ && l.message@ == "Would run: "@ + command_line@,
{
    if !execute && dry_run_ok {
        Some(LogLine { level: String::from_str("DRYRUN"), message: concat2("Would run: ", command_line) })
    } else {
        None
    }
}

/// The line logged after a command ran: `INFO` on exit code 0, else
/// `WARN`; the message names the command, its exit code and, when there is
/// any, its trimmed output.
pub open spec fn command_result_line(label: Seq<char>, exit_code: i64, output: Seq<char>) -> (Seq<char>, Seq<char>) {
    let t = trim_seq(output);
    (
        if exit_code == 0 {
            "INFO"@
        } else {
            "WARN"@
        },
        label + " exit="@ + decimal(exit_code as int) + if t.len() == 0 {
            Seq::<char>::empty()
        } else {
            " output="@ + t
        },
    )
}

/// The line logged after a command ran (see [`command_result_line`]).
pub fn command_result(label: &str, exit_code: i64, output: &str) -> (r: LogLine)
    ensures
        (r.level@, r.message@) == command_result_line(label@, exit_code, output@),
{
    let t = trim(output);
    let head = concat3(label, " exit=", i64_to_decimal(exit_code).as_str());
    let message = if chars_of(t.as_str()).len() == 0 {
        proof {
            assert(head@ + Seq::<char>::empty() =~= head@);
        }
        head
    } else {
        concat3(head.as_str(), " output=", t.as_str())
    };
    let level = if exit_code == 0 {
        String::from_str("INFO")
    } else {
        String::from_str("WARN")
    };
    LogLine { level, message }
}

/// Whether an abort is in effect: requested here (Ctrl+C or console
/// close), or relayed from the unelevated launcher through its named event.
pub fn abort_in_effect(local_requested: bool, relay_signaled: bool) -> (r: bool)
    ensures
        r == (local_requested || relay_signaled),
{
    local_requested || relay_signaled
}

} // verus!
