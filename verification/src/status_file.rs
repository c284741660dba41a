//! What a reader of the status file gets back: the status text and the exit
//! code that the writer put there, whatever the run id, status, detail and
//! log path hold.

use vstd::prelude::*;
use crate::app::GPD_VERSION;
use crate::handoff::{lemma_decimal_digits, lemma_decimal_value};
use crate::json::{
    decode_from, find_char, find_sub, find_sub_at, int_field_from, json_int_field,
    json_string_field, lemma_decode_escaped, number_run_end, parse_i64, quoted_key, skip_ws,
    string_field_from,
};
use crate::launch::status_json_spec;
use crate::text::{is_digit, occurs_at};
use crate::util::{decimal, decimal_nat, digits_value, json_escape_char, json_escape_seq};

verus! {

// ---------------------------------------------------------------------------
// The file, cut where a reader looks
// ---------------------------------------------------------------------------

/// Everything before the escaped run id.
spec fn head() -> Seq<char> {
    "{\n  \"version\": \""@ + GPD_VERSION@ + "\",\n  \"runId\": \""@
}

/// Between the run id and the exit code.
spec fn exit_part() -> Seq<char> {
    "\",\n  \"exitCode\": "@
}

/// Between the exit code and the escaped status.
spec fn status_part() -> Seq<char> {
    ",\n  \"status\": \""@
}

/// Everything after the escaped status.
spec fn tail(detail: Seq<char>, log_path: Seq<char>) -> Seq<char> {
    "\",\n  \"detail\": \""@ + json_escape_seq(detail) + "\",\n  \"logPath\": \""@
        + json_escape_seq(log_path) + "\"\n}\n"@
}

proof fn lemma_literals(detail: Seq<char>, log_path: Seq<char>)
    ensures
        head() == seq![
            '{', '\n', ' ', ' ', '"', 'v', 'e', 'r', 's', 'i', 'o', 'n', '"', ':', ' ', '"',
            '2', '.', '0', '.', '1', '"', ',', '\n', ' ', ' ', '"', 'r', 'u', 'n', 'I', 'd', '"',
            ':', ' ', '"',
        ],
        exit_part() == seq![
            '"', ',', '\n', ' ', ' ', '"', 'e', 'x', 'i', 't', 'C', 'o', 'd', 'e', '"', ':', ' ',
        ],
        status_part() == seq![
            ',', '\n', ' ', ' ', '"', 's', 't', 'a', 't', 'u', 's', '"', ':', ' ', '"',
        ],
        tail(detail, log_path).len() > 0,
        tail(detail, log_path)[0] == '"',
        quoted_key("status"@) == seq!['"', 's', 't', 'a', 't', 'u', 's', '"'],
        quoted_key("exitCode"@) == seq!['"', 'e', 'x', 'i', 't', 'C', 'o', 'd', 'e', '"'],
{
    reveal_strlit("{\n  \"version\": \"");
    reveal_strlit("2.0.1");
    reveal_strlit("\",\n  \"runId\": \"");
    reveal_strlit("\",\n  \"exitCode\": ");
    reveal_strlit(",\n  \"status\": \"");
    reveal_strlit("\",\n  \"detail\": \"");
    reveal_strlit("status");
    reveal_strlit("exitCode");
    assert(head() =~= seq![
        '{', '\n', ' ', ' ', '"', 'v', 'e', 'r', 's', 'i', 'o', 'n', '"', ':', ' ', '"', '2', '.',
        '0', '.', '1', '"', ',', '\n', ' ', ' ', '"', 'r', 'u', 'n', 'I', 'd', '"', ':', ' ', '"',
    ]);
    assert(exit_part() =~= seq![
        '"', ',', '\n', ' ', ' ', '"', 'e', 'x', 'i', 't', 'C', 'o', 'd', 'e', '"', ':', ' ',
    ]);
    assert(status_part() =~= seq![
        ',', '\n', ' ', ' ', '"', 's', 't', 'a', 't', 'u', 's', '"', ':', ' ', '"',
    ]);
    assert(quoted_key("status"@) =~= seq!['"', 's', 't', 'a', 't', 'u', 's', '"']);
    assert(quoted_key("exitCode"@) =~= seq!['"', 'e', 'x', 'i', 't', 'C', 'o', 'd', 'e', '"']);
    let t = tail(detail, log_path);
    assert(t[0] == "\",\n  \"detail\": \""@[0]);
}

/// A piece inside a concatenation is found at its offset.
proof fn lemma_piece(pre: Seq<char>, piece: Seq<char>, post: Seq<char>)
    ensures
        (pre + piece + post).len() == pre.len() + piece.len() + post.len(),
        forall|k: int| 0 <= k < piece.len() ==> #[trigger] (pre + piece + post)[pre.len() + k] == piece[k],
{
    assert forall|k: int| 0 <= k < piece.len() implies #[trigger] (pre + piece + post)[pre.len() + k]
        == piece[k] by {
        assert((pre + piece)[pre.len() + k] == piece[k]);
    }
}

// ---------------------------------------------------------------------------
// Searching
// ---------------------------------------------------------------------------

/// The search for `c` from `from` stops at the first `c`.
pub(crate) proof fn lemma_find_char_at(h: Seq<char>, from: int, c: char, k: int)
    requires
        0 <= from <= k < h.len(),
        h[k] == c,
        forall|t: int| from <= t < k ==> h[t] != c,
    ensures
        find_char(h, from, c) == k,
    decreases k - from,
{
    if from < k {
        lemma_find_char_at(h, from + 1, c, k);
    }
}

/// The search for `n` from `from` stops at an occurrence no later than any
/// occurrence `t`, with no occurrence before it.
pub(crate) proof fn lemma_find_first(h: Seq<char>, from: int, n: Seq<char>, t: int)
    requires
        n.len() > 0,
        0 <= from <= t,
        occurs_at(h, n, t),
    ensures
        from <= find_sub_at(h, from, n) <= t,
        occurs_at(h, n, find_sub_at(h, from, n)),
    decreases t - from,
{
    if !occurs_at(h, n, from) {
        lemma_find_first(h, from + 1, n, t);
    }
}

/// The run of sign and digit characters from `i` ends at `j`.
proof fn lemma_number_run_end(h: Seq<char>, i: int, j: int)
    requires
        0 <= i <= j <= h.len(),
        forall|t: int| i <= t < j ==> h[t] == '-' || is_digit(h[t]),
        j == h.len() || !(h[j] == '-' || is_digit(h[j])),
    ensures
        number_run_end(h, i) == j,
    decreases j - i,
{
    if i < j {
        lemma_number_run_end(h, i + 1, j);
    }
}


// ---------------------------------------------------------------------------
// What escaped text and numbers hold
// ---------------------------------------------------------------------------

/// In escaped text every quote is escaped: it comes right after a
/// backslash.
proof fn lemma_escaped_quotes(s: Seq<char>)
    ensures
        forall|k: int|
            0 <= k < json_escape_seq(s).len() && #[trigger] json_escape_seq(s)[k] == '"' ==> k >= 1
                && json_escape_seq(s)[k - 1] == '\\',
    decreases s.len(),
{
    if s.len() > 0 {
        let init = s.drop_last();
        let c = s.last();
        lemma_escaped_quotes(init);
        let a = json_escape_seq(init);
        let e = json_escape_char(c);
        assert(json_escape_seq(s) == a + e);
        assert forall|k: int|
            0 <= k < json_escape_seq(s).len() && #[trigger] json_escape_seq(s)[k] == '"' implies k >= 1
                && json_escape_seq(s)[k - 1] == '\\' by {
            if k < a.len() {
                assert(json_escape_seq(s)[k] == a[k]);
                assert(json_escape_seq(s)[k - 1] == a[k - 1]);
            } else {
                let j = k - a.len();
                assert(json_escape_seq(s)[k] == e[j]);
                if (c as u32) < 0x20 && !(c == '\u{8}' || c == '\u{c}' || c == '\n' || c == '\r'
                    || c == '\t') {
                    let hi = crate::util::hex_digit_lower((c as u32) / 16);
                    let lo = crate::util::hex_digit_lower((c as u32) % 16);
                    assert(hi != '"' && lo != '"');
                }
                assert(c == '"' && j == 1);
                assert(json_escape_seq(s)[k - 1] == e[0]);
            }
        }
    }
}

/// A decimal rendering is a run of digits, after a `-` when negative.
proof fn lemma_decimal_chars(v: int)
    ensures
        decimal(v).len() >= 1,
        forall|k: int| 0 <= k < decimal(v).len() ==> #[trigger] decimal(v)[k] == '-' || is_digit(decimal(v)[k]),
        v >= 0 ==> is_digit(decimal(v)[0]),
{
    if v < 0 {
        lemma_decimal_digits((-v) as nat);
        let d = decimal_nat((-v) as nat);
        assert forall|k: int| 0 <= k < decimal(v).len() implies #[trigger] decimal(v)[k] == '-'
            || is_digit(decimal(v)[k]) by {
            if k > 0 {
                assert(decimal(v)[k] == d[k - 1]);
            }
        }
    } else {
        lemma_decimal_digits(v as nat);
    }
}

/// Digit values do not change under a prefix in front.
proof fn lemma_digits_value_shift(pre: Seq<char>, x: Seq<char>, k: int)
    requires
        0 <= k <= x.len(),
    ensures
        digits_value(pre + x, pre.len() as int, pre.len() + k) == digits_value(x, 0, k),
    decreases k,
{
    if k > 0 {
        lemma_digits_value_shift(pre, x, k - 1);
        assert((pre + x)[pre.len() + k - 1] == x[k - 1]);
    }
}

/// Reading a natural number back from its digits gives the number.
pub(crate) proof fn lemma_parse_decimal_nat(n: nat)
    requires
        n <= i64::MAX,
    ensures
        parse_i64(decimal_nat(n)) == Some(n as int),
{
    let s = decimal_nat(n);
    lemma_decimal_digits(n);
    lemma_decimal_value(n);
    assert(is_digit(s[0]));
}

/// Reading a number back from its decimal rendering gives the number.
proof fn lemma_parse_decimal(v: i32)
    ensures
        parse_i64(decimal(v as int)) == Some(v as int),
{
    let s = decimal(v as int);
    if v < 0 {
        let n = (-(v as int)) as nat;
        let d = decimal_nat(n);
        lemma_decimal_digits(n);
        lemma_decimal_value(n);
        assert(s == seq!['-'] + d);
        assert(s[0] == '-');
        assert forall|k: int| 1 <= k < s.len() implies #[trigger] is_digit(s[k]) by {
            assert(s[k] == d[k - 1]);
        }
        lemma_digits_value_shift(seq!['-'], d, d.len() as int);
        assert(digits_value(s, 1, s.len() as int) == n);
    } else {
        lemma_parse_decimal_nat(v as nat);
    }
}


/// The quotes of the fixed parts, and what comes right before each.
proof fn lemma_literal_quotes(detail: Seq<char>, log_path: Seq<char>)
    ensures
        forall|k: int| 1 <= k < 36 && #[trigger] head()[k] == '"' ==> head()[k - 1] != 's' && head()[k - 1] != 'e',
        head()[35] == '"',
        forall|k: int| 0 <= k < 17 && #[trigger] exit_part()[k] == '"' ==> k == 0 || k == 5 || k == 14,
        forall|k: int| 0 <= k < 17 && #[trigger] exit_part()[k] == ':' ==> k == 15,
        forall|k: int| 0 <= k < 15 && #[trigger] status_part()[k] == '"' ==> k == 4 || k == 11 || k == 14,
{
    lemma_literals(detail, log_path);
    let hd = head();
    assert forall|k: int| 1 <= k < 36 && #[trigger] hd[k] == '"' implies hd[k - 1] != 's' && hd[k - 1]
        != 'e' by {
        assert(k == 4 || k == 12 || k == 15 || k == 21 || k == 26 || k == 32 || k == 35);
    }
    let q = exit_part();
    assert forall|k: int| 0 <= k < 17 && #[trigger] q[k] == '"' implies k == 0 || k == 5 || k == 14 by {
    }
    assert forall|k: int| 0 <= k < 17 && #[trigger] q[k] == ':' implies k == 15 by {
    }
    let r = status_part();
    assert forall|k: int| 0 <= k < 15 && #[trigger] r[k] == '"' implies k == 4 || k == 11 || k == 14 by {
    }
}

/// Where each piece of the status file lies: the head, the escaped run id
/// up to `b`, the exit-code part up to `c`, the exit code up to `d`, the
/// status part up to `e`, then the escaped status and a closing quote.
proof fn lemma_layout(
    exit_code: i32,
    status: Seq<char>,
    detail: Seq<char>,
    run_id: Seq<char>,
    log_path: Seq<char>,
)
    ensures
        ({
            let h = status_json_spec(exit_code, status, detail, run_id, log_path);
            let e1 = json_escape_seq(run_id);
            let dd = decimal(exit_code as int);
            let e2 = json_escape_seq(status);
            let b: int = 36 + e1.len() as int;
            let c: int = b + 17;
            let d: int = c + dd.len();
            let e: int = d + 15;
            &&& head().len() == 36
            &&& exit_part().len() == 17
            &&& status_part().len() == 15
            &&& h.len() > e + e2.len()
            &&& forall|i: int| 0 <= i < 36 ==> #[trigger] h[i] == head()[i]
            &&& forall|i: int| 36 <= i < b ==> #[trigger] h[i] == e1[i - 36]
            &&& forall|i: int| b <= i < c ==> #[trigger] h[i] == exit_part()[i - b]
            &&& forall|i: int| c <= i < d ==> #[trigger] h[i] == dd[i - c]
            &&& forall|i: int| d <= i < e ==> #[trigger] h[i] == status_part()[i - d]
            &&& h.subrange(e, e + e2.len()) == e2
            &&& h[e + e2.len()] == '"'
        }),
{
    lemma_literals(detail, log_path);
    let h = status_json_spec(exit_code, status, detail, run_id, log_path);
    let p = head();
    let e1 = json_escape_seq(run_id);
    let q = exit_part();
    let dd = decimal(exit_code as int);
    let r = status_part();
    let e2 = json_escape_seq(status);
    let t = tail(detail, log_path);
    assert(h =~= p + e1 + q + dd + r + e2 + t);
    let b: int = 36 + e1.len() as int;
    let c: int = b + 17;
    let d: int = c + dd.len();
    let e: int = d + 15;
    lemma_piece(Seq::empty(), p, e1 + q + dd + r + e2 + t);
    assert(h =~= Seq::<char>::empty() + p + (e1 + q + dd + r + e2 + t));
    lemma_piece(p, e1, q + dd + r + e2 + t);
    assert(h =~= p + e1 + (q + dd + r + e2 + t));
    lemma_piece(p + e1, q, dd + r + e2 + t);
    assert(h =~= (p + e1) + q + (dd + r + e2 + t));
    lemma_piece(p + e1 + q, dd, r + e2 + t);
    assert(h =~= (p + e1 + q) + dd + (r + e2 + t));
    lemma_piece(p + e1 + q + dd, r, e2 + t);
    assert(h =~= (p + e1 + q + dd) + r + (e2 + t));
    lemma_piece(p + e1 + q + dd + r, e2, t);
    assert(h =~= (p + e1 + q + dd + r) + e2 + t);
    assert forall|i: int| 0 <= i < 36 implies #[trigger] h[i] == p[i] by {
        assert(h[0 + i] == p[i]);
    }
    assert forall|i: int| 36 <= i < b implies #[trigger] h[i] == e1[i - 36] by {
        assert(h[p.len() + (i - 36)] == e1[i - 36]);
    }
    assert forall|i: int| b <= i < c implies #[trigger] h[i] == q[i - b] by {
        assert(h[(p + e1).len() + (i - b)] == q[i - b]);
    }
    assert forall|i: int| c <= i < d implies #[trigger] h[i] == dd[i - c] by {
        assert(h[(p + e1 + q).len() + (i - c)] == dd[i - c]);
    }
    assert forall|i: int| d <= i < e implies #[trigger] h[i] == r[i - d] by {
        assert(h[(p + e1 + q + dd).len() + (i - d)] == r[i - d]);
    }
    assert(h.subrange(e, e + e2.len()) =~= e2) by {
        assert forall|k: int| 0 <= k < e2.len() implies h.subrange(e, e + e2.len())[k] == e2[k] by {
            assert(h[(p + e1 + q + dd + r).len() + k] == e2[k]);
        }
    }
    assert(h[e + e2.len()] == t[0]) by {
        assert(h =~= (p + e1 + q + dd + r + e2) + t + Seq::<char>::empty());
        lemma_piece(p + e1 + q + dd + r + e2, t, Seq::empty());
        assert(h[(p + e1 + q + dd + r + e2).len() as int + 0] == t[0]);
    }
}


// ---------------------------------------------------------------------------
// Reading back
// ---------------------------------------------------------------------------

/// Before its place in the file, `"status"` can occur only ending at the
/// quote that closes the run id (a run id ending in `"status`).
proof fn lemma_early_status(
    exit_code: i32,
    status: Seq<char>,
    detail: Seq<char>,
    run_id: Seq<char>,
    log_path: Seq<char>,
    p: int,
)
    requires
        ({
            let h = status_json_spec(exit_code, status, detail, run_id, log_path);
            let b: int = 36 + json_escape_seq(run_id).len() as int;
            let d: int = b + 17 + decimal(exit_code as int).len();
            &&& 0 <= p < d + 4
            &&& occurs_at(h, quoted_key("status"@), p)
        }),
    ensures
        p + 8 == 36 + json_escape_seq(run_id).len() + 1,
{
    lemma_literals(detail, log_path);
    lemma_literal_quotes(detail, log_path);
    lemma_layout(exit_code, status, detail, run_id, log_path);
    lemma_escaped_quotes(run_id);
    lemma_decimal_chars(exit_code as int);
    let h = status_json_spec(exit_code, status, detail, run_id, log_path);
    let n = quoted_key("status"@);
    let e1 = json_escape_seq(run_id);
    let dd = decimal(exit_code as int);
    let b: int = 36 + e1.len() as int;
    let c: int = b + 17;
    let d: int = c + dd.len();
    let idx = p + 7;
    assert(h[idx] == '"') by {
        assert(h.subrange(p, p + 8)[7] == n[7]);
    }
    assert(h[idx - 1] == 's') by {
        assert(h.subrange(p, p + 8)[6] == n[6]);
    }
    if idx < 36 {
        assert(head()[idx] == '"');
    } else if idx < b {
        assert(e1[idx - 36] == '"');
        if idx > 36 {
            assert(h[idx - 1] == e1[idx - 37]);
        }
    } else if idx == b {
    } else if idx < c {
        assert(exit_part()[idx - b] == '"');
        assert(h[idx - 1] == exit_part()[idx - b - 1]);
    } else if idx < d {
        assert(dd[idx - c] == '"');
    } else {
        assert(status_part()[idx - d] == '"');
        assert(h[idx - 1] == status_part()[idx - d - 1]);
    }
}

/// The reader finds the status where the writer put it.
proof fn lemma_status_at_its_place(
    exit_code: i32,
    status: Seq<char>,
    detail: Seq<char>,
    run_id: Seq<char>,
    log_path: Seq<char>,
)
    ensures
        ({
            let h = status_json_spec(exit_code, status, detail, run_id, log_path);
            let t: int = 36 + json_escape_seq(run_id).len() as int + 17 + decimal(exit_code as int).len() + 4;
            &&& occurs_at(h, quoted_key("status"@), t)
            &&& string_field_from(h, quoted_key("status"@), t) == status
        }),
{
    lemma_literals(detail, log_path);
    lemma_layout(exit_code, status, detail, run_id, log_path);
    let h = status_json_spec(exit_code, status, detail, run_id, log_path);
    let n = quoted_key("status"@);
    let e1 = json_escape_seq(run_id);
    let dd = decimal(exit_code as int);
    let d: int = 36 + e1.len() as int + 17 + dd.len();
    let t: int = d + 4;
    let e: int = d + 15;
    assert(h.subrange(t, t + 8) =~= n) by {
        assert forall|k: int| 0 <= k < 8 implies h.subrange(t, t + 8)[k] == n[k] by {
            assert(h[t + k] == status_part()[4 + k]);
        }
    }
    assert(h[t + 8] == ':');
    lemma_find_char_at(h, t + 8, ':', t + 8);
    assert(h[t + 9] == ' ');
    assert(h[t + 10] == '"');
    assert(skip_ws(h, t + 10) == t + 10);
    assert(skip_ws(h, t + 9) == t + 10);
    lemma_decode_escaped(h, e, status, Seq::empty());
    assert(Seq::<char>::empty() + status =~= status);
}

/// From the colon after the exit code, the next `"status"` is the one in
/// its place.
proof fn lemma_status_after_exit_colon(
    exit_code: i32,
    status: Seq<char>,
    detail: Seq<char>,
    run_id: Seq<char>,
    log_path: Seq<char>,
)
    ensures
        ({
            let h = status_json_spec(exit_code, status, detail, run_id, log_path);
            let b: int = 36 + json_escape_seq(run_id).len() as int;
            let t: int = b + 17 + decimal(exit_code as int).len() + 4;
            find_sub(h, b + 15, quoted_key("status"@)) == t
        }),
{
    lemma_literals(detail, log_path);
    lemma_literal_quotes(detail, log_path);
    lemma_layout(exit_code, status, detail, run_id, log_path);
    lemma_decimal_chars(exit_code as int);
    lemma_status_at_its_place(exit_code, status, detail, run_id, log_path);
    let h = status_json_spec(exit_code, status, detail, run_id, log_path);
    let n = quoted_key("status"@);
    let dd = decimal(exit_code as int);
    let b: int = 36 + json_escape_seq(run_id).len() as int;
    let c: int = b + 17;
    let d: int = c + dd.len();
    let t: int = d + 4;
    lemma_find_first(h, b + 15, n, t);
    let nx = find_sub_at(h, b + 15, n);
    if nx < t {
        assert(h[nx] == '"') by {
            assert(h.subrange(nx, nx + 8)[0] == n[0]);
        }
        if nx < c {
            assert(h[nx] == exit_part()[nx - b]);
        } else if nx < d {
            assert(h[nx] == dd[nx - c]);
        } else {
            assert(h[nx] == status_part()[nx - d]);
        }
    }
}

/// An early `"status"` at the end of the run id sends the reader on to the
/// one in its place: the colon after it belongs to the exit code, which is
/// no quoted value.
proof fn lemma_early_status_passed(
    exit_code: i32,
    status: Seq<char>,
    detail: Seq<char>,
    run_id: Seq<char>,
    log_path: Seq<char>,
)
    ensures
        ({
            let h = status_json_spec(exit_code, status, detail, run_id, log_path);
            let b: int = 36 + json_escape_seq(run_id).len() as int;
            let t: int = b + 17 + decimal(exit_code as int).len() + 4;
            string_field_from(h, quoted_key("status"@), b - 7) == string_field_from(
                h,
                quoted_key("status"@),
                t,
            )
        }),
{
    lemma_literals(detail, log_path);
    lemma_literal_quotes(detail, log_path);
    lemma_layout(exit_code, status, detail, run_id, log_path);
    lemma_decimal_chars(exit_code as int);
    lemma_status_after_exit_colon(exit_code, status, detail, run_id, log_path);
    let h = status_json_spec(exit_code, status, detail, run_id, log_path);
    let n = quoted_key("status"@);
    let dd = decimal(exit_code as int);
    let b: int = 36 + json_escape_seq(run_id).len() as int;
    let c: int = b + 17;
    assert forall|k: int| b + 1 <= k < b + 15 implies h[k] != ':' by {
        assert(h[k] == exit_part()[k - b]);
    }
    assert(h[b + 15] == ':');
    lemma_find_char_at(h, b + 1, ':', b + 15);
    assert(h[b + 16] == ' ');
    assert(h[c] == dd[0]);
    assert(skip_ws(h, c) == c);
    assert(skip_ws(h, b + 16) == c);
}

/// What the status file says its status is: exactly the status written,
/// whatever the run id, status, detail and log path hold.
pub proof fn lemma_status_read_back(
    exit_code: i32,
    status: Seq<char>,
    detail: Seq<char>,
    run_id: Seq<char>,
    log_path: Seq<char>,
)
    ensures
        json_string_field(status_json_spec(exit_code, status, detail, run_id, log_path), "status"@)
            == status,
{
    lemma_literals(detail, log_path);
    lemma_status_at_its_place(exit_code, status, detail, run_id, log_path);
    let h = status_json_spec(exit_code, status, detail, run_id, log_path);
    let n = quoted_key("status"@);
    let b: int = 36 + json_escape_seq(run_id).len() as int;
    let t: int = b + 17 + decimal(exit_code as int).len() + 4;
    lemma_find_first(h, 0, n, t);
    let p0 = find_sub_at(h, 0, n);
    assert(find_sub(h, 0, n) == p0);
    if p0 != t {
        lemma_early_status(exit_code, status, detail, run_id, log_path, p0);
        lemma_early_status_passed(exit_code, status, detail, run_id, log_path);
    }
}


/// Before its place in the file, `"exitCode"` can occur only ending at the
/// quote that closes the run id (a run id ending in `"exitCode`).
proof fn lemma_early_exit_code(
    exit_code: i32,
    status: Seq<char>,
    detail: Seq<char>,
    run_id: Seq<char>,
    log_path: Seq<char>,
    p: int,
)
    requires
        ({
            let h = status_json_spec(exit_code, status, detail, run_id, log_path);
            let b: int = 36 + json_escape_seq(run_id).len() as int;
            &&& 0 <= p < b + 5
            &&& occurs_at(h, quoted_key("exitCode"@), p)
        }),
    ensures
        p + 9 == 36 + json_escape_seq(run_id).len(),
{
    lemma_literals(detail, log_path);
    lemma_literal_quotes(detail, log_path);
    lemma_layout(exit_code, status, detail, run_id, log_path);
    lemma_escaped_quotes(run_id);
    let h = status_json_spec(exit_code, status, detail, run_id, log_path);
    let n = quoted_key("exitCode"@);
    let e1 = json_escape_seq(run_id);
    let b: int = 36 + e1.len() as int;
    let idx = p + 9;
    assert(h[idx] == '"') by {
        assert(h.subrange(p, p + 10)[9] == n[9]);
    }
    assert(h[idx - 1] == 'e') by {
        assert(h.subrange(p, p + 10)[8] == n[8]);
    }
    if idx < 36 {
        assert(head()[idx] == '"');
    } else if idx < b {
        assert(e1[idx - 36] == '"');
        if idx > 36 {
            assert(h[idx - 1] == e1[idx - 37]);
        }
    } else if idx > b {
        assert(exit_part()[idx - b] == '"');
        assert(h[idx - 1] == exit_part()[idx - b - 1]);
    }
}

/// From either occurrence of `"exitCode"` the reader reaches the colon
/// after the key in its place and reads the number written there.
proof fn lemma_exit_code_from(
    exit_code: i32,
    status: Seq<char>,
    detail: Seq<char>,
    run_id: Seq<char>,
    log_path: Seq<char>,
    p: int,
    default: int,
)
    requires
        p + 9 == 36 + json_escape_seq(run_id).len() || p == 36 + json_escape_seq(run_id).len() + 5,
    ensures
        int_field_from(
            status_json_spec(exit_code, status, detail, run_id, log_path),
            quoted_key("exitCode"@),
            p,
            default,
        ) == exit_code,
{
    lemma_literals(detail, log_path);
    lemma_literal_quotes(detail, log_path);
    lemma_layout(exit_code, status, detail, run_id, log_path);
    lemma_decimal_chars(exit_code as int);
    lemma_parse_decimal(exit_code);
    let h = status_json_spec(exit_code, status, detail, run_id, log_path);
    let n = quoted_key("exitCode"@);
    let dd = decimal(exit_code as int);
    let b: int = 36 + json_escape_seq(run_id).len() as int;
    let c: int = b + 17;
    let d: int = c + dd.len();
    assert forall|k: int| b + 1 <= k < b + 15 implies h[k] != ':' by {
        assert(h[k] == exit_part()[k - b]);
    }
    assert(h[b + 15] == ':');
    lemma_find_char_at(h, p + 10, ':', b + 15);
    assert(h[b + 16] == ' ');
    assert(h[c] == dd[0]);
    assert(skip_ws(h, c) == c);
    assert(skip_ws(h, b + 16) == c);
    assert(h[d] == ',');
    lemma_number_run_end(h, c, d);
    assert(h.subrange(c, d) =~= dd);
}

/// What the status file says its exit code is: exactly the code written,
/// whatever the run id, status, detail and log path hold, and whatever
/// fallback the reader passes.
pub proof fn lemma_exit_code_read_back(
    exit_code: i32,
    status: Seq<char>,
    detail: Seq<char>,
    run_id: Seq<char>,
    log_path: Seq<char>,
    default: i64,
)
    ensures
        json_int_field(
            status_json_spec(exit_code, status, detail, run_id, log_path),
            "exitCode"@,
            default,
        ) == exit_code,
{
    lemma_literals(detail, log_path);
    lemma_layout(exit_code, status, detail, run_id, log_path);
    let h = status_json_spec(exit_code, status, detail, run_id, log_path);
    let n = quoted_key("exitCode"@);
    let b: int = 36 + json_escape_seq(run_id).len() as int;
    let t: int = b + 5;
    assert(h.subrange(t, t + 10) =~= n) by {
        assert forall|k: int| 0 <= k < 10 implies h.subrange(t, t + 10)[k] == n[k] by {
            assert(h[t + k] == exit_part()[5 + k]);
        }
    }
    lemma_find_first(h, 0, n, t);
    let p0 = find_sub_at(h, 0, n);
    assert(find_sub(h, 0, n) == p0);
    if p0 != t {
        lemma_early_exit_code(exit_code, status, detail, run_id, log_path, p0);
    }
    lemma_exit_code_from(exit_code, status, detail, run_id, log_path, p0, default as int);
}

} // verus!
