//! String helpers: case-insensitive tests, trimming, Windows argv quoting,
//! command-line joining, wildcard matching, JSON escaping, integer prefix
//! parsing and CSV line splitting.

use vstd::prelude::*;
use crate::glob::{glob_chars, glob_match, greedy_match};
use crate::text::{
    char_is_whitespace, chars_of, contains_chars, contains_seq, ends_seq, ends_with_chars,
    lower_chars, lowercase, push_char, repeat, white_space, is_digit,
};

pub use crate::text::to_lower;

verus! {

// ---------------------------------------------------------------------------
// Case-insensitive tests
// ---------------------------------------------------------------------------

/// Whether the lowercased `needle` occurs in the lowercased `haystack`.
pub fn contains_no_case(haystack: &str, needle: &str) -> (r: bool)
    ensures
        r == contains_seq(lowercase(haystack@), lowercase(needle@)),
{
    let h = lower_chars(haystack);
    let n = lower_chars(needle);
    contains_chars(&h, &n)
}

/// Whether the lowercased `s` ends with the lowercased `suffix`.
pub fn ends_with_no_case(s: &str, suffix: &str) -> (r: bool)
    ensures
        r == ends_seq(lowercase(s@), lowercase(suffix@)),
{
    let sl = lower_chars(s);
    let fl = lower_chars(suffix);
    ends_with_chars(&sl, &fl)
}

/// Case-insensitive greedy wildcard match of `text_in` against `pattern_in`
/// (`*` any run, `?` any one character).
pub fn wildcard_match_no_case(text_in: &str, pattern_in: &str) -> (r: bool)
    ensures
        r == greedy_match(lowercase(text_in@), lowercase(pattern_in@)),
        !lowercase(text_in@).contains('*') ==> r == glob_match(
            lowercase(text_in@),
            lowercase(pattern_in@),
        ),
{
    let text = lower_chars(text_in);
    let pattern = lower_chars(pattern_in);
    glob_chars(&text, &pattern)
}

// ---------------------------------------------------------------------------
// Trimming
// ---------------------------------------------------------------------------

/// The characters `trim` strips: space, tab, carriage return, line feed.
pub open spec fn is_trim_char(c: char) -> bool {
    c == ' ' || c == '\t' || c == '\r' || c == '\n'
}

/// First index at or after `i` that holds no strippable character.
pub open spec fn skip_lead(s: Seq<char>, i: int) -> int
    decreases s.len() - i,
{
    if 0 <= i < s.len() && is_trim_char(s[i]) {
        skip_lead(s, i + 1)
    } else {
        i
    }
}

/// End of `s[lo..j]` once trailing strippable characters are removed.
pub open spec fn skip_trail(s: Seq<char>, lo: int, j: int) -> int
    decreases j - lo,
{
    if lo < j && j <= s.len() && is_trim_char(s[j - 1]) {
        skip_trail(s, lo, j - 1)
    } else {
        j
    }
}

/// `s` without leading and trailing space, tab, CR and LF.
pub open spec fn trim_seq(s: Seq<char>) -> Seq<char> {
    let a = skip_lead(s, 0);
    s.subrange(a, skip_trail(s, a, s.len() as int))
}

proof fn lemma_skip_lead_bounds(s: Seq<char>, i: int)
    requires
        0 <= i <= s.len(),
    ensures
        i <= skip_lead(s, i) <= s.len(),
    decreases s.len() - i,
{
    if i < s.len() && is_trim_char(s[i]) {
        lemma_skip_lead_bounds(s, i + 1);
    }
}

proof fn lemma_skip_trail_bounds(s: Seq<char>, lo: int, j: int)
    requires
        lo <= j <= s.len(),
    ensures
        lo <= skip_trail(s, lo, j) <= j,
    decreases j - lo,
{
    if lo < j && is_trim_char(s[j - 1]) {
        lemma_skip_trail_bounds(s, lo, j - 1);
    }
}

/// Index range of `v` that `trim` keeps.
pub fn trim_bounds(v: &Vec<char>) -> (r: (usize, usize))
    ensures
        r.0 == skip_lead(v@, 0),
        r.1 == skip_trail(v@, r.0 as int, v@.len() as int),
        r.0 <= r.1 <= v.len(),
{
    let mut a: usize = 0;
    while a < v.len() && (v[a] == ' ' || v[a] == '\t' || v[a] == '\r' || v[a] == '\n')
        invariant
            a <= v.len(),
            skip_lead(v@, 0) == skip_lead(v@, a as int),
        decreases v.len() - a,
    {
        a = a + 1;
    }
    let mut b: usize = v.len();
    while b > a && (v[b - 1] == ' ' || v[b - 1] == '\t' || v[b - 1] == '\r' || v[b - 1] == '\n')
        invariant
            a <= b <= v.len(),
            skip_trail(v@, a as int, v@.len() as int) == skip_trail(v@, a as int, b as int),
        decreases b - a,
    {
        b = b - 1;
    }
    (a, b)
}

/// `s` without leading and trailing space, tab, CR and LF.
pub fn trim(s: &str) -> (r: String)
    ensures
        r@ == trim_seq(s@),
{
    let v = chars_of(s);
    let (a, b) = trim_bounds(&v);
    crate::text::string_of_range(&v, a, b)
}

// ---------------------------------------------------------------------------
// Windows argv quoting
// ---------------------------------------------------------------------------

/// Quoted body of `s[i..]` when `bs` backslashes are still pending: a run of
/// backslashes is doubled before a quote (which is itself escaped) and
/// before the closing quote, and kept as is before any other character.
pub open spec fn quote_tail(s: Seq<char>, i: int, bs: nat) -> Seq<char>
    decreases s.len() - i,
{
    if i < 0 || i >= s.len() {
        repeat('\\', 2 * bs)
    } else if s[i] == '\\' {
        quote_tail(s, i + 1, bs + 1)
    } else if s[i] == '"' {
        repeat('\\', 2 * bs + 1) + seq!['"'] + quote_tail(s, i + 1, 0)
    } else {
        repeat('\\', bs) + seq![s[i]] + quote_tail(s, i + 1, 0)
    }
}

/// `s` as one double-quoted Windows command-line argument.
pub open spec fn quote_seq(s: Seq<char>) -> Seq<char> {
    seq!['"'] + quote_tail(s, 0, 0) + seq!['"']
}

/// How a Windows program splits its command line into arguments (the C
/// runtime rules), from position `i`: `bs` backslashes are pending, `cur`
/// is the argument being built, `started` says one is open, `inq` says a
/// quoted section is open. Before a quote, `2n` backslashes give `n`
/// backslashes and the quote toggles quoting; `2n+1` give `n` backslashes
/// and a literal quote. Backslashes before anything else are literal. A
/// space or tab outside quotes ends the open argument.
pub open spec fn argv_from(
    t: Seq<char>,
    i: int,
    args: Seq<Seq<char>>,
    cur: Seq<char>,
    started: bool,
    inq: bool,
    bs: nat,
) -> Seq<Seq<char>>
    decreases t.len() - i,
{
    if i < 0 || i >= t.len() {
        if started || bs > 0 {
            args.push(cur + repeat('\\', bs))
        } else {
            args
        }
    } else if t[i] == '\\' {
        argv_from(t, i + 1, args, cur, started, inq, bs + 1)
    } else if t[i] == '"' {
        if bs % 2 == 0 {
            argv_from(t, i + 1, args, cur + repeat('\\', bs / 2), true, !inq, 0)
        } else {
            argv_from(t, i + 1, args, cur + repeat('\\', bs / 2) + seq!['"'], true, inq, 0)
        }
    } else if (t[i] == ' ' || t[i] == '\t') && !inq {
        if started || bs > 0 {
            argv_from(t, i + 1, args.push(cur + repeat('\\', bs)), Seq::empty(), false, inq, 0)
        } else {
            argv_from(t, i + 1, args, cur, false, inq, 0)
        }
    } else {
        argv_from(t, i + 1, args, cur + repeat('\\', bs) + seq![t[i]], true, inq, 0)
    }
}

/// The arguments a command line splits into.
pub open spec fn argv(t: Seq<char>) -> Seq<Seq<char>> {
    argv_from(t, 0, Seq::empty(), Seq::empty(), false, false, 0)
}

/// A run of `n` backslashes only adds to the pending count.
proof fn lemma_argv_backslashes(
    t: Seq<char>,
    i: int,
    n: nat,
    args: Seq<Seq<char>>,
    cur: Seq<char>,
    started: bool,
    inq: bool,
    bs: nat,
)
    requires
        0 <= i,
        i + n < t.len(),
        forall|k: int| i <= k < i + n ==> t[k] == '\\',
    ensures
        argv_from(t, i, args, cur, started, inq, bs) == argv_from(t, i + n, args, cur, started, inq, bs + n),
    decreases n,
{
    if n > 0 {
        lemma_argv_backslashes(t, i + 1, (n - 1) as nat, args, cur, started, inq, bs + 1);
    }
}

/// Inside the quotes of a quoted argument the splitter reads back the
/// argument's text up to the closing quote, and closes the quotes there.
proof fn lemma_argv_quoted_tail(
    t: Seq<char>,
    j: int,
    s: Seq<char>,
    i: int,
    b: nat,
    args: Seq<Seq<char>>,
    cur: Seq<char>,
)
    requires
        0 <= j,
        b <= i <= s.len(),
        cur + repeat('\\', b) == s.take(i),
        j + quote_tail(s, i, b).len() < t.len(),
        t.subrange(j, j + quote_tail(s, i, b).len()) == quote_tail(s, i, b),
        t[j + quote_tail(s, i, b).len()] == '"',
    ensures
        argv_from(t, j, args, cur, true, true, 0) == argv_from(
            t,
            j + quote_tail(s, i, b).len() + 1,
            args,
            s,
            true,
            false,
            0,
        ),
    decreases s.len() - i,
{
    let q = quote_tail(s, i, b);
    assert forall|k: int| 0 <= k < q.len() implies t[j + k] == q[k] by {
        assert(t.subrange(j, j + q.len())[k] == q[k]);
    }
    if i >= s.len() {
        // 2b backslashes, then the closing quote: b backslashes, quotes close
        let r = repeat('\\', 2 * b);
        assert(q == r);
        assert forall|k: int| j <= k < j + 2 * b implies t[k] == '\\' by {
            assert(t[j + (k - j)] == q[k - j]);
        }
        lemma_argv_backslashes(t, j, 2 * b, args, cur, true, true, 0);
        assert((2 * b) as nat / 2 == b);
        assert(s.take(i) =~= s);
    } else if s[i] == '\\' {
        assert(cur + repeat('\\', b + 1) =~= s.take(i + 1)) by {
            assert(s.take(i + 1) =~= s.take(i).push('\\'));
            assert(repeat('\\', b + 1) =~= repeat('\\', b).push('\\'));
        }
        lemma_argv_quoted_tail(t, j, s, i + 1, b + 1, args, cur);
    } else if s[i] == '"' {
        let r = repeat('\\', 2 * b + 1);
        let rest = quote_tail(s, i + 1, 0);
        assert(q == r + seq!['"'] + rest);
        assert forall|k: int| j <= k < j + 2 * b + 1 implies t[k] == '\\' by {
            assert(t[j + (k - j)] == q[k - j]);
            assert(q[k - j] == r[k - j]);
        }
        lemma_argv_backslashes(t, j, 2 * b + 1, args, cur, true, true, 0);
        let j2 = j + 2 * b + 1;
        assert(t[j2] == q[2 * b as int + 1]);
        assert(((2 * b + 1) as nat) % 2 == 1);
        assert(((2 * b + 1) as nat) / 2 == b);
        let cur2 = cur + repeat('\\', b) + seq!['"'];
        assert(cur2 + repeat('\\', 0) =~= s.take(i + 1)) by {
            assert(s.take(i + 1) =~= s.take(i).push('"'));
        }
        assert(t.subrange(j2 + 1, j2 + 1 + rest.len()) =~= rest) by {
            assert forall|k: int| 0 <= k < rest.len() implies t.subrange(j2 + 1, j2 + 1 + rest.len())[k]
                == rest[k] by {
                assert(t[j2 + 1 + k] == q[2 * b + 2 + k]);
            }
        }
        lemma_argv_quoted_tail(t, j2 + 1, s, i + 1, 0, args, cur2);
    } else {
        let c = s[i];
        let r = repeat('\\', b);
        let rest = quote_tail(s, i + 1, 0);
        assert(q == r + seq![c] + rest);
        assert forall|k: int| j <= k < j + b implies t[k] == '\\' by {
            assert(t[j + (k - j)] == q[k - j]);
            assert(q[k - j] == r[k - j]);
        }
        lemma_argv_backslashes(t, j, b, args, cur, true, true, 0);
        let j2 = j + b;
        assert(t[j2] == q[b as int]);
        let cur2 = cur + repeat('\\', b) + seq![c];
        assert(cur2 + repeat('\\', 0) =~= s.take(i + 1)) by {
            assert(s.take(i + 1) =~= s.take(i).push(c));
        }
        assert(t.subrange(j2 + 1, j2 + 1 + rest.len()) =~= rest) by {
            assert forall|k: int| 0 <= k < rest.len() implies t.subrange(j2 + 1, j2 + 1 + rest.len())[k]
                == rest[k] by {
                assert(t[j2 + 1 + k] == q[b + 1 + k]);
            }
        }
        lemma_argv_quoted_tail(t, j2 + 1, s, i + 1, 0, args, cur2);
    }
}

/// A quoted argument splits back into exactly the original text, whatever
/// it holds: spaces, tabs, quotes and backslashes included.
pub proof fn lemma_quote_arg_round_trip(s: Seq<char>)
    ensures
        argv(quote_seq(s)) == seq![s],
{
    let t = quote_seq(s);
    let q = quote_tail(s, 0, 0);
    assert(t == seq!['"'] + q + seq!['"']);
    assert(t[0] == '"');
    assert(((0nat) % 2) == 0);
    assert(Seq::<char>::empty() + repeat('\\', 0) =~= Seq::<char>::empty());
    assert(t.subrange(1, 1 + q.len() as int) =~= q) by {
        assert forall|k: int| 0 <= k < q.len() implies t.subrange(1, 1 + q.len() as int)[k] == q[k] by {
            assert(t[1 + k] == q[k]);
        }
    }
    assert(t[1 + q.len() as int] == '"');
    assert(Seq::<char>::empty() + repeat('\\', 0) =~= s.take(0));
    lemma_argv_quoted_tail(t, 1, s, 0, 0, Seq::empty(), Seq::empty());
    assert(s + repeat('\\', 0) =~= s);
    assert(Seq::<Seq<char>>::empty().push(s) =~= seq![s]);
}

fn push_repeat(out: &mut String, c: char, n: usize)
    ensures
        final(out)@ == old(out)@ + repeat(c, n as nat),
{
    let mut k: usize = 0;
    while k < n
        invariant
            k <= n,
            out@ == old(out)@ + repeat(c, k as nat),
        decreases n - k,
    {
        push_char(out, c);
        k = k + 1;
        assert(out@ =~= old(out)@ + repeat(c, k as nat));
    }
}

/// `arg` as one double-quoted Windows command-line argument.
pub fn quote_arg(arg: &str) -> (r: String)
    ensures
        r@ == quote_seq(arg@),
{
    let v = chars_of(arg);
    let mut out = String::new();
    push_char(&mut out, '"');
    let mut backslashes: usize = 0;
    let mut i: usize = 0;
    while i < v.len()
        invariant
            i <= v.len(),
            backslashes <= i,
            out@ + quote_tail(v@, i as int, backslashes as nat) == seq!['"'] + quote_tail(
                v@,
                0,
                0,
            ),
        decreases v.len() - i,
    {
        let c = v[i];
        let ghost before = out@;
        let ghost bs = backslashes as nat;
        if c == '\\' {
            backslashes = backslashes + 1;
        } else if c == '"' {
            push_repeat(&mut out, '\\', backslashes);
            push_repeat(&mut out, '\\', backslashes);
            push_char(&mut out, '\\');
            push_char(&mut out, c);
            backslashes = 0;
            assert(repeat('\\', bs) + repeat('\\', bs) + seq!['\\'] =~= repeat('\\', 2 * bs + 1));
            assert(out@ =~= before + repeat('\\', 2 * bs + 1) + seq!['"']);
            assert(out@ + quote_tail(v@, i + 1, 0) =~= before + quote_tail(v@, i as int, bs));
        } else {
            push_repeat(&mut out, '\\', backslashes);
            push_char(&mut out, c);
            backslashes = 0;
            assert(out@ + quote_tail(v@, i + 1, 0) =~= before + quote_tail(v@, i as int, bs));
        }
        i = i + 1;
    }
    let ghost before = out@;
    let ghost bs = backslashes as nat;
    push_repeat(&mut out, '\\', backslashes);
    push_repeat(&mut out, '\\', backslashes);
    push_char(&mut out, '"');
    assert(repeat('\\', bs) + repeat('\\', bs) =~= repeat('\\', 2 * bs));
    assert(out@ =~= quote_seq(v@));
    out
}

} // verus!

verus! {

// ---------------------------------------------------------------------------
// Command-line joining
// ---------------------------------------------------------------------------

/// Characters that force an argument into quotes.
pub open spec fn is_quote_trigger(c: char) -> bool {
    c == ' ' || c == '\t' || c == '"' || c == '&' || c == '|' || c == '<' || c == '>' || c == '^'
}

/// An argument needs quoting when it is empty or holds a quote trigger.
pub open spec fn needs_quotes(a: Seq<char>) -> bool {
    a.len() == 0 || exists|i: int| 0 <= i < a.len() && #[trigger] is_quote_trigger(a[i])
}

/// One argument as it appears on the joined command line.
pub open spec fn render_arg(a: Seq<char>) -> Seq<char> {
    if needs_quotes(a) {
        quote_seq(a)
    } else {
        a
    }
}

/// Arguments rendered and separated by single spaces.
pub open spec fn join_seq(args: Seq<Seq<char>>) -> Seq<char>
    decreases args.len(),
{
    if args.len() == 0 {
        Seq::empty()
    } else if args.len() == 1 {
        render_arg(args[0])
    } else {
        join_seq(args.drop_last()) + seq![' '] + render_arg(args.last())
    }
}

fn arg_needs_quotes(a: &String) -> (r: bool)
    ensures
        r == needs_quotes(a@),
{
    let v = chars_of(a.as_str());
    if v.len() == 0 {
        return true;
    }
    let mut i: usize = 0;
    while i < v.len()
        invariant
            i <= v.len(),
            v@ == a@,
            forall|k: int| 0 <= k < i ==> !#[trigger] is_quote_trigger(v@[k]),
        decreases v.len() - i,
    {
        let c = v[i];
        if c == ' ' || c == '\t' || c == '"' || c == '&' || c == '|' || c == '<' || c == '>' || c
            == '^' {
            assert(is_quote_trigger(v@[i as int]));
            return true;
        }
        i = i + 1;
    }
    false
}

/// The arguments as one command line: each rendered (quoted when needed)
/// and separated by single spaces.
pub fn join_command(args: &[String]) -> (r: String)
    ensures
        r@ == join_seq(crate::text::views(args@)),
{
    let ghost vs = crate::text::views(args@);
    let mut out = String::new();
    let mut i: usize = 0;
    while i < args.len()
        invariant
            i <= args.len(),
            vs == crate::text::views(args@),
            out@ == join_seq(vs.take(i as int)),
        decreases args.len() - i,
    {
        let ghost before = out@;
        if i > 0 {
            push_char(&mut out, ' ');
        }
        let a = &args[i];
        if arg_needs_quotes(a) {
            let q = quote_arg(a.as_str());
            out.append(q.as_str());
        } else {
            out.append(a.as_str());
        }
        proof {
            assert(vs.take(i + 1).drop_last() =~= vs.take(i as int));
            assert(vs[i as int] == a@);
            if i == 0 {
                assert(out@ =~= render_arg(a@));
            } else {
                assert(out@ =~= before + seq![' '] + render_arg(a@));
            }
        }
        i = i + 1;
    }
    assert(vs.take(args@.len() as int) =~= vs);
    out
}

// ---------------------------------------------------------------------------
// JSON escaping
// ---------------------------------------------------------------------------

/// Lowercase hexadecimal digit for `d < 16`.
pub open spec fn hex_digit_lower(d: u32) -> char {
    if d < 10 {
        (('0' as u32) + d) as char
    } else {
        (('a' as u32) + d - 10) as char
    }
}

/// JSON escape of one character: the two-character escapes for backslash,
/// quote, backspace, form feed, newline, carriage return and tab, `\u00XX`
/// (lowercase hex) for other control characters, the character itself
/// otherwise.
pub open spec fn json_escape_char(c: char) -> Seq<char> {
    if c == '\\' {
        seq!['\\', '\\']
    } else if c == '"' {
        seq!['\\', '"']
    } else if c == '\u{8}' {
        seq!['\\', 'b']
    } else if c == '\u{c}' {
        seq!['\\', 'f']
    } else if c == '\n' {
        seq!['\\', 'n']
    } else if c == '\r' {
        seq!['\\', 'r']
    } else if c == '\t' {
        seq!['\\', 't']
    } else if (c as u32) < 0x20 {
        seq!['\\', 'u', '0', '0', hex_digit_lower((c as u32) / 16), hex_digit_lower((c as u32) % 16)]
    } else {
        seq![c]
    }
}

/// JSON escape of a whole string.
pub open spec fn json_escape_seq(s: Seq<char>) -> Seq<char>
    decreases s.len(),
{
    if s.len() == 0 {
        Seq::empty()
    } else {
        json_escape_seq(s.drop_last()) + json_escape_char(s.last())
    }
}

fn hex_digit_lower_exec(d: u32) -> (c: char)
    requires
        d < 16,
    ensures
        c == hex_digit_lower(d),
{
    if d < 10 {
        crate::text::char_from_ascii(48 + d)
    } else {
        crate::text::char_from_ascii(97 + d - 10)
    }
}

/// `input` escaped for use inside a JSON string literal.
pub fn json_escape(input: &str) -> (r: String)
    ensures
        r@ == json_escape_seq(input@),
{
    let v = chars_of(input);
    let mut out = String::new();
    let mut i: usize = 0;
    while i < v.len()
        invariant
            i <= v.len(),
            v@ == input@,
            out@ == json_escape_seq(v@.take(i as int)),
        decreases v.len() - i,
    {
        let c = v[i];
        let ghost before = out@;
        if c == '\\' {
            push_char(&mut out, '\\');
            push_char(&mut out, '\\');
        } else if c == '"' {
            push_char(&mut out, '\\');
            push_char(&mut out, '"');
        } else if c == '\u{8}' {
            push_char(&mut out, '\\');
            push_char(&mut out, 'b');
        } else if c == '\u{c}' {
            push_char(&mut out, '\\');
            push_char(&mut out, 'f');
        } else if c == '\n' {
            push_char(&mut out, '\\');
            push_char(&mut out, 'n');
        } else if c == '\r' {
            push_char(&mut out, '\\');
            push_char(&mut out, 'r');
        } else if c == '\t' {
            push_char(&mut out, '\\');
            push_char(&mut out, 't');
        } else if (c as u32) < 0x20 {
            let code: u32 = c as u32;
            push_char(&mut out, '\\');
            push_char(&mut out, 'u');
            push_char(&mut out, '0');
            push_char(&mut out, '0');
            let hi = hex_digit_lower_exec(code / 16);
            let lo = hex_digit_lower_exec(code % 16);
            push_char(&mut out, hi);
            push_char(&mut out, lo);
        } else {
            push_char(&mut out, c);
        }
        proof {
            assert(v@.take(i + 1).drop_last() =~= v@.take(i as int));
            assert(v@.take(i + 1).last() == c);
            assert(out@ =~= before + json_escape_char(c));
        }
        i = i + 1;
    }
    assert(v@.take(v@.len() as int) =~= v@);
    out
}

// ---------------------------------------------------------------------------
// Integer prefix parsing
// ---------------------------------------------------------------------------

/// First index at or after `i` that is not Unicode white space.
pub open spec fn skip_white_space(s: Seq<char>, i: int) -> int
    decreases s.len() - i,
{
    if 0 <= i < s.len() && white_space(s[i]) {
        skip_white_space(s, i + 1)
    } else {
        i
    }
}

/// First index at or after `i` that is not an ASCII digit.
pub open spec fn digits_end(s: Seq<char>, i: int) -> int
    decreases s.len() - i,
{
    if 0 <= i < s.len() && is_digit(s[i]) {
        digits_end(s, i + 1)
    } else {
        i
    }
}

/// Decimal value of the digits `s[a..b]`.
pub open spec fn digits_value(s: Seq<char>, a: int, b: int) -> nat
    decreases b - a,
{
    if b <= a {
        0
    } else {
        digits_value(s, a, b - 1) * 10 + ((s[b - 1] as u32) - ('0' as u32)) as nat
    }
}

/// `_wtoi` semantics: skip white space, an optional sign, then the longest
/// run of digits; 0 without digits; the value is clamped to the `i32` range.
#[verifier::opaque]
pub open spec fn atoi_seq(s: Seq<char>) -> int {
    let a = skip_white_space(s, 0);
    let signed = a < s.len() && (s[a] == '-' || s[a] == '+');
    let neg = a < s.len() && s[a] == '-';
    let d0 = if signed { a + 1 } else { a };
    let e = digits_end(s, d0);
    if e == d0 {
        0
    } else if neg {
        if -digits_value(s, d0, e) < i32::MIN {
            i32::MIN as int
        } else {
            -digits_value(s, d0, e)
        }
    } else {
        if digits_value(s, d0, e) > i32::MAX {
            i32::MAX as int
        } else {
            digits_value(s, d0, e) as int
        }
    }
}

/// Leading integer of `s` (`_wtoi` semantics), clamped to the `i32` range.
pub fn atoi_prefix(s: &str) -> (r: i64)
    ensures
        r == atoi_seq(s@),
        i32::MIN <= r <= i32::MAX,
{
    reveal(atoi_seq);
    let v = chars_of(s);
    let mut idx: usize = 0;
    while idx < v.len() && char_is_whitespace(v[idx])
        invariant
            idx <= v.len(),
            v@ == s@,
            skip_white_space(v@, 0) == skip_white_space(v@, idx as int),
        decreases v.len() - idx,
    {
        idx = idx + 1;
    }
    let mut neg = false;
    if idx < v.len() && (v[idx] == '-' || v[idx] == '+') {
        neg = v[idx] == '-';
        idx = idx + 1;
    }
    let ghost d0 = idx as int;
    let mut value: i64 = 0;
    let mut any = false;
    while idx < v.len() && '0' <= v[idx] && v[idx] <= '9'
        invariant
            d0 <= idx <= v.len(),
            v@ == s@,
            any == (idx > d0),
            digits_end(v@, d0) == digits_end(v@, idx as int),
            value == if digits_value(v@, d0, idx as int) > i64::MAX {
                i64::MAX as int
            } else {
                digits_value(v@, d0, idx as int) as int
            },
        decreases v.len() - idx,
    {
        any = true;
        let d: i64 = ((v[idx] as u32) - 48) as i64;
        assert(0 <= d <= 9);
        if value > (i64::MAX - d) / 10 {
            value = i64::MAX;
        } else {
            value = value * 10 + d;
        }
        idx = idx + 1;
    }
    if !any {
        return 0;
    }
    if neg {
        if value > 2147483648 {
            -2147483648
        } else {
            -value
        }
    } else {
        if value > 2147483647 {
            2147483647
        } else {
            value
        }
    }
}

// ---------------------------------------------------------------------------
// CSV
// ---------------------------------------------------------------------------

/// Fields of `s[i..]` given the fields completed so far, the field being
/// built and whether a quoted section is open: a doubled quote inside quotes
/// is a literal quote, a lone quote toggles quoting, an unquoted comma ends
/// the field.
pub open spec fn csv_from(s: Seq<char>, i: int, fields: Seq<Seq<char>>, cur: Seq<char>, inq: bool) -> Seq<Seq<char>>
    decreases s.len() - i,
{
    if i < 0 || i >= s.len() {
        fields.push(cur)
    } else if s[i] == '"' {
        if inq && i + 1 < s.len() && s[i + 1] == '"' {
            csv_from(s, i + 2, fields, cur.push('"'), inq)
        } else {
            csv_from(s, i + 1, fields, cur, !inq)
        }
    } else if s[i] == ',' && !inq {
        csv_from(s, i + 1, fields.push(cur), Seq::empty(), inq)
    } else {
        csv_from(s, i + 1, fields, cur.push(s[i]), inq)
    }
}

/// Fields of one CSV line.
pub open spec fn csv_fields(s: Seq<char>) -> Seq<Seq<char>> {
    csv_from(s, 0, Seq::empty(), Seq::empty(), false)
}

/// `s` split at every comma: a comma starts a new, empty field; any other
/// character extends the last field. There is always one field more than
/// there are commas.
pub open spec fn split_commas(s: Seq<char>) -> Seq<Seq<char>>
    decreases s.len(),
{
    if s.len() == 0 {
        seq![Seq::<char>::empty()]
    } else {
        let p = split_commas(s.drop_last());
        if s.last() == ',' {
            p.push(Seq::<char>::empty())
        } else {
            p.update(p.len() - 1, p.last().push(s.last()))
        }
    }
}

proof fn lemma_split_commas_nonempty(s: Seq<char>)
    ensures
        split_commas(s).len() >= 1,
    decreases s.len(),
{
    if s.len() > 0 {
        lemma_split_commas_nonempty(s.drop_last());
    }
}

/// Without quotes the reader is the plain split: from any point, the
/// fields read so far plus the open field are the split of what was read.
proof fn lemma_csv_plain_from(s: Seq<char>, i: int, fields: Seq<Seq<char>>, cur: Seq<char>)
    requires
        0 <= i <= s.len(),
        !s.contains('"'),
        fields.push(cur) == split_commas(s.take(i)),
    ensures
        csv_from(s, i, fields, cur, false) == split_commas(s),
    decreases s.len() - i,
{
    if i >= s.len() {
        assert(s.take(i) =~= s);
    } else {
        let t = s.take(i + 1);
        assert(t.drop_last() =~= s.take(i));
        assert(t.last() == s[i]);
        lemma_split_commas_nonempty(s.take(i));
        if s[i] == ',' {
            assert(fields.push(cur).push(Seq::<char>::empty()) =~= split_commas(t));
            lemma_csv_plain_from(s, i + 1, fields.push(cur), Seq::empty());
        } else {
            assert(s[i] != '"');
            let p = split_commas(s.take(i));
            assert(fields.push(cur.push(s[i])) =~= p.update(p.len() - 1, p.last().push(s[i])));
            lemma_csv_plain_from(s, i + 1, fields, cur.push(s[i]));
        }
    }
}

/// A line without quotes reads as its plain split at commas: one field
/// more than there are commas, each exactly the text between them.
pub proof fn lemma_csv_without_quotes_splits(line: Seq<char>)
    requires
        !line.contains('"'),
    ensures
        csv_fields(line) == split_commas(line),
{
    assert(line.take(0) =~= Seq::<char>::empty());
    assert(Seq::<Seq<char>>::empty().push(Seq::<char>::empty()) =~= split_commas(line.take(0)));
    lemma_csv_plain_from(line, 0, Seq::empty(), Seq::empty());
}

/// One character of a field inside CSV quotes: a quote is doubled.
pub open spec fn csv_doubled_char(c: char) -> Seq<char> {
    if c == '"' {
        seq!['"', '"']
    } else {
        seq![c]
    }
}

/// A field's text with every quote doubled.
pub open spec fn csv_doubled(f: Seq<char>) -> Seq<char>
    decreases f.len(),
{
    if f.len() == 0 {
        Seq::empty()
    } else {
        csv_doubled_char(f[0]) + csv_doubled(f.drop_first())
    }
}

/// A field written as a quoted CSV field.
pub open spec fn csv_quoted(f: Seq<char>) -> Seq<char> {
    seq!['"'] + csv_doubled(f) + seq!['"']
}

/// Fields written as quoted CSV fields joined by commas.
pub open spec fn csv_join_quoted(fs: Seq<Seq<char>>) -> Seq<char>
    decreases fs.len(),
{
    if fs.len() == 0 {
        Seq::empty()
    } else if fs.len() == 1 {
        csv_quoted(fs[0])
    } else {
        csv_quoted(fs[0]) + seq![','] + csv_join_quoted(fs.drop_first())
    }
}

/// Inside quotes the reader takes back a doubled field up to its closing
/// quote, commas included, and leaves the quotes closed after it.
proof fn lemma_csv_quoted_body(
    s: Seq<char>,
    i: int,
    f: Seq<char>,
    fields: Seq<Seq<char>>,
    cur: Seq<char>,
)
    requires
        0 <= i,
        i + csv_doubled(f).len() < s.len(),
        s.subrange(i, i + csv_doubled(f).len()) == csv_doubled(f),
        s[i + csv_doubled(f).len()] == '"',
        i + csv_doubled(f).len() + 1 == s.len() || s[i + csv_doubled(f).len() + 1] != '"',
    ensures
        csv_from(s, i, fields, cur, true) == csv_from(
            s,
            i + csv_doubled(f).len() + 1,
            fields,
            cur + f,
            false,
        ),
    decreases f.len(),
{
    let d = csv_doubled(f);
    if f.len() == 0 {
        assert(cur + f =~= cur);
    } else {
        let c = f[0];
        let r = f.drop_first();
        let pc = csv_doubled_char(c);
        let dr = csv_doubled(r);
        assert(d == pc + dr);
        let j = i + pc.len();
        assert(s.subrange(j, j + dr.len()) =~= dr) by {
            assert forall|k: int| 0 <= k < dr.len() implies s.subrange(j, j + dr.len())[k] == dr[k] by {
                assert(s.subrange(i, i + d.len())[pc.len() + k] == d[pc.len() + k]);
            }
        }
        assert(s[i] == pc[0]) by {
            assert(s.subrange(i, i + d.len())[0] == d[0]);
        }
        if c == '"' {
            assert(s[i + 1] == pc[1]) by {
                assert(s.subrange(i, i + d.len())[1] == d[1]);
            }
        }
        lemma_csv_quoted_body(s, j, r, fields, cur.push(c));
        assert(cur.push(c) + r =~= cur + f);
    }
}

/// From the start of quoted fields joined by commas to the end of the
/// line, the reader adds exactly those fields.
proof fn lemma_csv_join_from(s: Seq<char>, i: int, fs: Seq<Seq<char>>, fields: Seq<Seq<char>>)
    requires
        fs.len() >= 1,
        0 <= i,
        i + csv_join_quoted(fs).len() == s.len(),
        s.subrange(i, s.len() as int) == csv_join_quoted(fs),
    ensures
        csv_from(s, i, fields, Seq::empty(), false) == fields + fs,
    decreases fs.len(),
{
    let f = fs[0];
    let q = csv_quoted(f);
    let d = csv_doubled(f);
    let j = csv_join_quoted(fs);
    assert(j.subrange(0, q.len() as int) =~= q) by {
        if fs.len() > 1 {
            assert(j == q + seq![','] + csv_join_quoted(fs.drop_first()));
        }
    }
    assert forall|k: int| 0 <= k < q.len() implies s[i + k] == q[k] by {
        assert(s.subrange(i, s.len() as int)[k] == j[k]);
        assert(j.subrange(0, q.len() as int)[k] == j[k]);
    }
    assert(q[0] == '"');
    assert(s[i + 0] == q[0]);
    assert(s[i] == '"');
    assert(q[d.len() as int + 1] == '"');
    assert forall|k: int| 0 <= k < d.len() implies q[1 + k] == d[k] by {
        assert((seq!['"'] + d)[1 + k] == d[k]);
    }
    assert(s.subrange(i + 1, i + 1 + d.len()) =~= d) by {
        assert forall|k: int| 0 <= k < d.len() implies s.subrange(i + 1, i + 1 + d.len())[k] == d[k] by {
            assert(s[i + 1 + k] == q[1 + k]);
        }
    }
    let close = i + 1 + d.len();
    assert(s[close] == q[d.len() as int + 1]);
    if fs.len() == 1 {
        assert(close + 1 == s.len());
    } else {
        let rest = csv_join_quoted(fs.drop_first());
        assert(j == q + seq![','] + rest);
        assert(s[close + 1] == j[q.len() as int]) by {
            assert(s.subrange(i, s.len() as int)[q.len() as int] == j[q.len() as int]);
        }
        assert(s[close + 1] == ',');
    }
    lemma_csv_quoted_body(s, i + 1, f, fields, Seq::empty());
    assert(Seq::<char>::empty() + f =~= f);
    if fs.len() == 1 {
        assert(fields.push(f) =~= fields + fs);
    } else {
        let rest = csv_join_quoted(fs.drop_first());
        let k = close + 2;
        assert(s.subrange(k, s.len() as int) =~= rest) by {
            assert forall|t: int| 0 <= t < rest.len() implies s.subrange(k, s.len() as int)[t] == rest[t] by {
                assert(s.subrange(i, s.len() as int)[q.len() + 1 + t] == j[q.len() + 1 + t]);
            }
        }
        lemma_csv_join_from(s, k, fs.drop_first(), fields.push(f));
        assert(fields.push(f) + fs.drop_first() =~= fields + fs);
    }
}

/// Fields written quoted, with quotes doubled, and joined by commas read
/// back as exactly those fields, whatever they hold (commas and quotes
/// included).
pub proof fn lemma_csv_quoted_round_trip(fs: Seq<Seq<char>>)
    requires
        fs.len() >= 1,
    ensures
        csv_fields(csv_join_quoted(fs)) == fs,
{
    let s = csv_join_quoted(fs);
    assert(s.subrange(0, s.len() as int) =~= s);
    lemma_csv_join_from(s, 0, fs, Seq::empty());
    assert(Seq::<Seq<char>>::empty() + fs =~= fs);
}

/// The fields of one CSV line, honoring `""` inside quotes.
pub fn parse_csv_line(line: &str) -> (r: Vec<String>)
    ensures
        crate::text::views(r@) == csv_fields(line@),
{
    let chars = chars_of(line);
    let mut fields: Vec<String> = Vec::new();
    let mut cur = String::new();
    let mut in_quotes = false;
    let mut i: usize = 0;
    assert(crate::text::views(fields@) =~= Seq::<Seq<char>>::empty());
    while i < chars.len()
        invariant
            i <= chars.len(),
            chars@ == line@,
            csv_fields(line@) == csv_from(chars@, i as int, crate::text::views(fields@), cur@, in_quotes),
        decreases chars.len() - i,
    {
        let c = chars[i];
        if c == '"' {
            if in_quotes && i + 1 < chars.len() && chars[i + 1] == '"' {
                push_char(&mut cur, '"');
                i = i + 1;
            } else {
                in_quotes = !in_quotes;
            }
        } else if c == ',' && !in_quotes {
            let done = crate::text::copy_string(&cur);
            let ghost old_fields = crate::text::views(fields@);
            fields.push(done);
            assert(crate::text::views(fields@) =~= old_fields.push(cur@));
            cur = String::new();
        } else {
            push_char(&mut cur, c);
        }
        i = i + 1;
    }
    let ghost old_fields = crate::text::views(fields@);
    fields.push(cur);
    assert(crate::text::views(fields@) =~= old_fields.push(cur@));
    fields
}


// ---------------------------------------------------------------------------
// Number formatting
// ---------------------------------------------------------------------------

/// The character of a digit value below 16: `0-9`, then `A-F`.
pub open spec fn hex_digit_upper(d: nat) -> char {
    if d < 10 {
        ((48 + d) as u32) as char
    } else {
        ((55 + d) as u32) as char
    }
}

/// Decimal digits of `n`, most significant first, without leading zeros.
pub open spec fn decimal_nat(n: nat) -> Seq<char>
    decreases n,
{
    if n < 10 {
        seq![hex_digit_upper(n)]
    } else {
        decimal_nat(n / 10).push(hex_digit_upper(n % 10))
    }
}

/// Decimal rendering of `v`, with a leading `-` when negative.
pub open spec fn decimal(v: int) -> Seq<char> {
    if v < 0 {
        seq!['-'] + decimal_nat((-v) as nat)
    } else {
        decimal_nat(v as nat)
    }
}

/// Uppercase hexadecimal digits of `n`, most significant first, without
/// leading zeros.
pub open spec fn hex_nat(n: nat) -> Seq<char>
    decreases n,
{
    if n < 16 {
        seq![hex_digit_upper(n)]
    } else {
        hex_nat(n / 16).push(hex_digit_upper(n % 16))
    }
}

fn digit_char(d: u64) -> (c: char)
    requires
        d < 16,
    ensures
        c == hex_digit_upper(d as nat),
{
    if d < 10 {
        crate::text::char_from_ascii((48 + d) as u32)
    } else {
        crate::text::char_from_ascii((55 + d) as u32)
    }
}

/// Appends the decimal digits of `n` to `out`.
pub fn push_decimal(out: &mut String, n: u64)
    ensures
        final(out)@ == old(out)@ + decimal_nat(n as nat),
    decreases n,
{
    if n >= 10 {
        push_decimal(out, n / 10);
    }
    push_char(out, digit_char(n % 10));
    assert(final(out)@ =~= old(out)@ + decimal_nat(n as nat));
}

/// Appends the uppercase hexadecimal digits of `n` to `out`.
pub fn push_hex(out: &mut String, n: u64)
    ensures
        final(out)@ == old(out)@ + hex_nat(n as nat),
    decreases n,
{
    if n >= 16 {
        push_hex(out, n / 16);
    }
    push_char(out, digit_char(n % 16));
    assert(final(out)@ =~= old(out)@ + hex_nat(n as nat));
}

/// The decimal rendering of `v` (as `{}` formats an `i64`).
pub fn i64_to_decimal(v: i64) -> (r: String)
    ensures
        r@ == decimal(v as int),
{
    let mut out = String::new();
    if v < 0 {
        push_char(&mut out, '-');
        let mag: u64 = (0i128 - (v as i128)) as u64;
        push_decimal(&mut out, mag);
        assert(out@ =~= seq!['-'] + decimal_nat((-v) as nat));
    } else {
        push_decimal(&mut out, v as u64);
        assert(out@ =~= decimal_nat(v as nat));
    }
    out
}

} // verus!
