//! Reading fields back from the small JSON documents this program writes:
//! the first string or integer value stored under a key.

use vstd::prelude::*;
use crate::text::{chars_of, occurs_at, occurs_at_exec, push_char, white_space, char_is_whitespace, is_digit, is_hex_digit};
use crate::util::digits_value;

verus! {

// ---------------------------------------------------------------------------
// Scanning
// ---------------------------------------------------------------------------

/// First index `i >= from` (`from` within the text) at which `n` occurs
/// in `h`, or -1.
pub open spec fn find_sub_at(h: Seq<char>, from: int, n: Seq<char>) -> int
    decreases h.len() - from,
{
    if from < 0 || from > h.len() - n.len() || h.len() < n.len() {
        -1
    } else if occurs_at(h, n, from) {
        from
    } else {
        find_sub_at(h, from + 1, n)
    }
}

/// First index at or after `from` (clamped to the length) at which `n`
/// occurs in `h`, or -1; an empty `n` is found at `from` itself.
pub open spec fn find_sub(h: Seq<char>, from: int, n: Seq<char>) -> int {
    if n.len() == 0 {
        from
    } else if from > h.len() {
        find_sub_at(h, h.len() as int, n)
    } else {
        find_sub_at(h, from, n)
    }
}

/// First index at or after `from` holding `c`, or -1.
pub open spec fn find_char(h: Seq<char>, from: int, c: char) -> int
    decreases h.len() - from,
{
    if from < 0 || from >= h.len() {
        -1
    } else if h[from] == c {
        from
    } else {
        find_char(h, from + 1, c)
    }
}

/// First index at or after `i` that is not white space.
pub open spec fn skip_ws(h: Seq<char>, i: int) -> int
    decreases h.len() - i,
{
    if 0 <= i < h.len() && white_space(h[i]) {
        skip_ws(h, i + 1)
    } else {
        i
    }
}

proof fn lemma_find_sub_at_bounds(h: Seq<char>, from: int, n: Seq<char>)
    requires
        n.len() > 0,
        0 <= from,
    ensures
        find_sub_at(h, from, n) == -1 || (from <= find_sub_at(h, from, n) <= h.len() - n.len()
            && occurs_at(h, n, find_sub_at(h, from, n))),
    decreases h.len() - from,
{
    if from <= h.len() - n.len() && h.len() >= n.len() && !occurs_at(h, n, from) {
        lemma_find_sub_at_bounds(h, from + 1, n);
    }
}

pub(crate) proof fn lemma_find_sub_bounds(h: Seq<char>, from: int, n: Seq<char>)
    requires
        n.len() > 0,
        0 <= from,
    ensures
        find_sub(h, from, n) == -1 || (from <= find_sub(h, from, n) <= h.len() - n.len()
            && occurs_at(h, n, find_sub(h, from, n))),
{
    if from > h.len() {
        lemma_find_sub_at_bounds(h, h.len() as int, n);
    } else {
        lemma_find_sub_at_bounds(h, from, n);
    }
}

proof fn lemma_find_char_bounds(h: Seq<char>, from: int, c: char)
    requires
        0 <= from,
    ensures
        find_char(h, from, c) == -1 || (from <= find_char(h, from, c) < h.len() && h[find_char(
            h,
            from,
            c,
        )] == c),
    decreases h.len() - from,
{
    if from < h.len() && h[from] != c {
        lemma_find_char_bounds(h, from + 1, c);
    }
}

pub(crate) fn find_sub_exec(h: &Vec<char>, from: usize, n: &Vec<char>) -> (r: Option<usize>)
    requires
        n.len() > 0,
    ensures
        match r {
            Some(i) => find_sub(h@, from as int, n@) == i as int,
            None => find_sub(h@, from as int, n@) == -1,
        },
{
    let mut i: usize = if from > h.len() {
        h.len()
    } else {
        from
    };
    if h.len() < n.len() {
        return None;
    }
    while i <= h.len() - n.len()
        invariant
            n.len() > 0,
            h.len() >= n.len(),
            i <= h.len(),
            find_sub(h@, from as int, n@) == find_sub_at(h@, i as int, n@),
        decreases h.len() - i,
    {
        if occurs_at_exec(h, n, i) {
            return Some(i);
        }
        i = i + 1;
    }
    None
}

fn find_char_exec(h: &Vec<char>, from: usize, c: char) -> (r: Option<usize>)
    ensures
        match r {
            Some(i) => find_char(h@, from as int, c) == i as int && i < h.len(),
            None => find_char(h@, from as int, c) == -1,
        },
{
    let mut i = from;
    while i < h.len()
        invariant
            i >= from,
            find_char(h@, from as int, c) == find_char(h@, i as int, c),
        decreases h.len() - i,
    {
        if h[i] == c {
            return Some(i);
        }
        i = i + 1;
    }
    None
}

fn skip_ws_exec(h: &Vec<char>, i: usize) -> (r: usize)
    ensures
        r == skip_ws(h@, i as int),
        r >= i,
{
    let mut j = i;
    while j < h.len() && char_is_whitespace(h[j])
        invariant
            j >= i,
            skip_ws(h@, i as int) == skip_ws(h@, j as int),
        decreases h.len() - j,
    {
        j = j + 1;
    }
    j
}

// ---------------------------------------------------------------------------
// String values
// ---------------------------------------------------------------------------

/// The character a one-letter escape stands for (`\b`, `\f`, `\n`, `\r`,
/// `\t`; any other letter stands for itself).
pub open spec fn unescape_char(e: char) -> char {
    if e == 'b' {
        '\u{8}'
    } else if e == 'f' {
        '\u{c}'
    } else if e == 'n' {
        '\n'
    } else if e == 'r' {
        '\r'
    } else if e == 't' {
        '\t'
    } else {
        e
    }
}

/// Value of a hexadecimal digit.
pub open spec fn hex_value(c: char) -> nat {
    if is_digit(c) {
        ((c as u32) - 48) as nat
    } else if 'a' <= c && c <= 'f' {
        ((c as u32) - 87) as nat
    } else {
        ((c as u32) - 55) as nat
    }
}

/// Value of the hexadecimal digits `s[a..b]`.
pub open spec fn hex_digits_value(s: Seq<char>, a: int, b: int) -> nat
    decreases b - a,
{
    if b <= a {
        0
    } else {
        hex_digits_value(s, a, b - 1) * 16 + hex_value(s[b - 1])
    }
}

/// Reading of four characters as `u32::from_str_radix(_, 16)` does: an
/// optional `+`, then only hexadecimal digits (at least one).
pub open spec fn hex4(s: Seq<char>) -> Option<nat> {
    let start = if s[0] == '+' {
        1int
    } else {
        0int
    };
    if forall|k: int| start <= k < 4 ==> #[trigger] is_hex_digit(s[k]) {
        Some(hex_digits_value(s, start, 4))
    } else {
        None
    }
}

/// A Unicode scalar value: not a surrogate, at most `0x10FFFF`.
pub open spec fn scalar_value(v: nat) -> bool {
    v < 0xD800 || (0xE000 <= v && v <= 0x10FFFF)
}

/// Decoded string value from index `j` of `h` on (after the opening quote),
/// up to the closing quote or the end, appended to `out`. A backslash
/// before the last character stands for itself; `\uXXXX` needs four more
/// characters and a following one, and adds its character only when the
/// digits read and form a scalar value.
pub open spec fn decode_from(h: Seq<char>, j: int, out: Seq<char>) -> Seq<char>
    decreases h.len() - j,
{
    if j < 0 || j >= h.len() || h[j] == '"' {
        out
    } else if h[j] == '\\' && j + 1 < h.len() {
        let e = h[j + 1];
        if e == 'u' {
            if j + 5 < h.len() {
                let added = match hex4(h.subrange(j + 2, j + 6)) {
                    Some(v) => if scalar_value(v) {
                        out.push(v as char)
                    } else {
                        out
                    },
                    None => out,
                };
                decode_from(h, j + 6, added)
            } else {
                decode_from(h, j + 2, out)
            }
        } else {
            decode_from(h, j + 2, out.push(unescape_char(e)))
        }
    } else {
        decode_from(h, j + 1, out.push(h[j]))
    }
}

/// The string stored under the key `needle` (already quoted), searching
/// from the occurrence at `pos` on: after the next `:` and white space, a
/// quoted value is decoded; otherwise the search moves on to the next
/// occurrence after that `:`. Nothing found gives the empty string.
pub open spec fn string_field_from(h: Seq<char>, needle: Seq<char>, pos: int) -> Seq<char>
    decreases h.len() - pos,
{
    if pos < 0 || pos > h.len() || needle.len() == 0 {
        Seq::empty()
    } else {
        let colon = find_char(h, pos + needle.len(), ':');
        if colon < 0 {
            Seq::empty()
        } else {
            let i = skip_ws(h, colon + 1);
            if 0 <= i < h.len() && h[i] == '"' {
                decode_from(h, i + 1, Seq::empty())
            } else {
                let next = find_sub(h, colon, needle);
                if next <= pos || next > h.len() {
                    Seq::empty()
                } else {
                    string_field_from(h, needle, next)
                }
            }
        }
    }
}

/// `"key"`.
pub open spec fn quoted_key(key: Seq<char>) -> Seq<char> {
    seq!['"'] + key + seq!['"']
}

/// The string value of the first occurrence of `"key"` that is followed by
/// a `:` and a quoted value.
pub open spec fn json_string_field(json: Seq<char>, key: Seq<char>) -> Seq<char> {
    string_field_from(json, quoted_key(key), find_sub(json, 0, quoted_key(key)))
}

/// Calls `char::from_u32`. Claimed, as std documents it: the result is the
/// character with that code when the code is a Unicode scalar value
/// (not a surrogate, at most `0x10FFFF`), and `None` otherwise.
#[verifier::external_body]
fn char_from_code(v: u32) -> (r: Option<char>)
    ensures
        (r is Some) == scalar_value(v as nat),
        r is Some ==> r->0 == v as char,
{
    char::from_u32(v)
}

fn hex4_exec(h: &Vec<char>, a: usize) -> (r: Option<u32>)
    requires
        a + 4 <= h.len(),
    ensures
        match hex4(h@.subrange(a as int, a + 4)) {
            Some(v) => r is Some && r->0 as nat == v,
            None => r is None,
        },
{
    let ghost s = h@.subrange(a as int, a + 4);
    let start: usize = if h[a] == '+' {
        1
    } else {
        0
    };
    let mut k: usize = start;
    let mut v: u32 = 0;
    while k < 4
        invariant
            start <= k <= 4,
            a + 4 <= h.len(),
            s == h@.subrange(a as int, a + 4),
            start == (if s[0] == '+' {
                1int
            } else {
                0int
            }),
            forall|t: int| start <= t < k ==> #[trigger] is_hex_digit(s[t]),
            v as nat == hex_digits_value(s, start as int, k as int),
            v < 0x10000,
            v as nat <= 0xFFFF,
            k - start <= 4,
            v < pow16(k - start),
        decreases 4 - k,
    {
        let c = h[a + k];
        assert(c == s[k as int]);
        let d: u32 = if '0' <= c && c <= '9' {
            (c as u32) - 48
        } else if 'a' <= c && c <= 'f' {
            (c as u32) - 87
        } else if 'A' <= c && c <= 'F' {
            (c as u32) - 55
        } else {
            assert(!is_hex_digit(s[k as int]));
            return None;
        };
        assert(d == hex_value(c));
        proof {
            lemma_pow16_step(k - start);
        }
        v = v * 16 + d;
        k = k + 1;
    }
    Some(v)
}

/// `16^n` for small `n`.
pub open spec fn pow16(n: int) -> int
    decreases n,
{
    if n <= 0 {
        1
    } else {
        16 * pow16(n - 1)
    }
}

proof fn lemma_pow16_step(n: int)
    requires
        0 <= n < 4,
    ensures
        pow16(n + 1) == 16 * pow16(n),
        pow16(n + 1) <= 0x10000,
{
    reveal_with_fuel(pow16, 5);
}

fn decode_exec(h: &Vec<char>, j0: usize) -> (r: String)
    ensures
        r@ == decode_from(h@, j0 as int, Seq::empty()),
{
    let mut out = String::new();
    let mut j = j0;
    while j < h.len() && h[j] != '"'
        invariant
            decode_from(h@, j0 as int, Seq::empty()) == decode_from(h@, j as int, out@),
        decreases h.len() - j,
    {
        if h[j] == '\\' && j + 1 < h.len() {
            let e = h[j + 1];
            if e == 'u' {
                if h.len() - j > 5 {
                    match hex4_exec(h, j + 2) {
                        Some(v) => match char_from_code(v) {
                            Some(ch) => {
                                push_char(&mut out, ch);
                            },
                            None => {},
                        },
                        None => {},
                    }
                    j = j + 6;
                } else {
                    j = j + 2;
                }
            } else {
                let c = if e == 'b' {
                    '\u{8}'
                } else if e == 'f' {
                    '\u{c}'
                } else if e == 'n' {
                    '\n'
                } else if e == 'r' {
                    '\r'
                } else if e == 't' {
                    '\t'
                } else {
                    e
                };
                push_char(&mut out, c);
                j = j + 2;
            }
        } else {
            push_char(&mut out, h[j]);
            j = j + 1;
        }
    }
    out
}

fn quoted_key_chars(key: &str) -> (r: Vec<char>)
    ensures
        r@ == quoted_key(key@),
{
    let k = chars_of(key);
    let mut r: Vec<char> = Vec::new();
    r.push('"');
    let mut i: usize = 0;
    while i < k.len()
        invariant
            i <= k.len(),
            r@ == seq!['"'] + k@.take(i as int),
        decreases k.len() - i,
    {
        r.push(k[i]);
        i = i + 1;
        assert(r@ =~= seq!['"'] + k@.take(i as int));
    }
    r.push('"');
    assert(k@.take(k.len() as int) =~= key@);
    assert(r@ =~= quoted_key(key@));
    r
}

/// The string value stored under `key` in `json` (escapes decoded), or the
/// empty string when there is none. Meant for the documents this program
/// writes itself.
pub fn json_find_string_field(json: &str, key: &str) -> (r: String)
    ensures
        r@ == json_string_field(json@, key@),
{
    let h = chars_of(json);
    let needle = quoted_key_chars(key);
    let mut pos_opt = find_sub_exec(&h, 0, &needle);
    proof {
        lemma_find_sub_bounds(h@, 0, needle@);
    }
    while pos_opt.is_some()
        invariant
            needle@ == quoted_key(key@),
            needle.len() > 0,
            h@ == json@,
            json_string_field(json@, key@) == match pos_opt {
                Some(p) => string_field_from(h@, needle@, p as int),
                None => Seq::empty(),
            },
            match pos_opt {
                Some(p) => p <= h.len() - needle.len() && h.len() >= needle.len(),
                None => true,
            },
        decreases match pos_opt {
            Some(p) => h.len() + 1 - p,
            None => 0,
        },
    {
        let pos = pos_opt.unwrap();
        let colon = match find_char_exec(&h, pos + needle.len(), ':') {
            Some(c) => c,
            None => {
                return String::new();
            },
        };
        proof {
            lemma_find_char_bounds(h@, pos + needle@.len(), ':');
        }
        let i = skip_ws_exec(&h, colon + 1);
        if i < h.len() && h[i] == '"' {
            return decode_exec(&h, i + 1);
        }
        let next = find_sub_exec(&h, colon, &needle);
        proof {
            lemma_find_sub_bounds(h@, colon as int, needle@);
        }
        pos_opt = match next {
            Some(nx) => if nx <= pos || nx > h.len() {
                None
            } else {
                Some(nx)
            },
            None => None,
        };
    }
    String::new()
}


// ---------------------------------------------------------------------------
// Integer values
// ---------------------------------------------------------------------------

/// End of the run of `-` and digits starting at `i`.
pub open spec fn number_run_end(h: Seq<char>, i: int) -> int
    decreases h.len() - i,
{
    if 0 <= i < h.len() && (h[i] == '-' || is_digit(h[i])) {
        number_run_end(h, i + 1)
    } else {
        i
    }
}

/// `str::parse::<i64>`: an optional sign, then at least one digit and
/// only digits, with the value in range.
pub open spec fn parse_i64(s: Seq<char>) -> Option<int> {
    if s.len() == 0 {
        None
    } else {
        let neg = s[0] == '-';
        let start: int = if s[0] == '-' || s[0] == '+' {
            1
        } else {
            0
        };
        if start >= s.len() {
            None
        } else if !(forall|k: int| start <= k < s.len() ==> #[trigger] is_digit(s[k])) {
            None
        } else {
            let v = digits_value(s, start, s.len() as int);
            let val = if neg {
                -v
            } else {
                v as int
            };
            if i64::MIN <= val && val <= i64::MAX {
                Some(val)
            } else {
                None
            }
        }
    }
}

/// The integer stored under the key `needle` (already quoted), searching
/// from the occurrence at `pos` on: after the next `:` and white space, a
/// run of `-` and digits is parsed (`default` when it does not parse);
/// otherwise the search moves on. Nothing found gives `default`.
pub open spec fn int_field_from(h: Seq<char>, needle: Seq<char>, pos: int, default: int) -> int
    decreases h.len() - pos,
{
    if pos < 0 || pos > h.len() || needle.len() == 0 {
        default
    } else {
        let colon = find_char(h, pos + needle.len(), ':');
        if colon < 0 {
            default
        } else {
            let i = skip_ws(h, colon + 1);
            if 0 <= i < h.len() && (h[i] == '-' || is_digit(h[i])) {
                match parse_i64(h.subrange(i, number_run_end(h, i))) {
                    Some(v) => v,
                    None => default,
                }
            } else {
                let next = find_sub(h, colon, needle);
                if next <= pos || next > h.len() {
                    default
                } else {
                    int_field_from(h, needle, next, default)
                }
            }
        }
    }
}

/// The integer value of the first occurrence of `"key"` followed by a `:`
/// and a number, or `default`.
pub open spec fn json_int_field(json: Seq<char>, key: Seq<char>, default: i64) -> int {
    int_field_from(json, quoted_key(key), find_sub(json, 0, quoted_key(key)), default as int)
}

pub(crate) fn parse_i64_exec(h: &Vec<char>, a: usize, b: usize) -> (r: Option<i64>)
    requires
        a <= b <= h.len(),
    ensures
        match parse_i64(h@.subrange(a as int, b as int)) {
            Some(v) => r is Some && r->0 as int == v,
            None => r is None,
        },
{
    let ghost s = h@.subrange(a as int, b as int);
    if a == b {
        return None;
    }
    let neg = h[a] == '-';
    let start: usize = if h[a] == '-' || h[a] == '+' {
        a + 1
    } else {
        a
    };
    if start >= b {
        return None;
    }
    let ghost st = start - a;
    assert(s[0] == h[a as int]);
    let mut k: usize = start;
    let mut v: u64 = 0;
    let mut over = false;
    let limit: u64 = 0x8000_0000_0000_0000;
    while k < b
        invariant
            a <= start <= k <= b,
            start < b,
            b <= h.len(),
            s == h@.subrange(a as int, b as int),
            st == start - a,
            s.len() == b - a,
            st == (if s[0] == '-' || s[0] == '+' {
                1int
            } else {
                0int
            }),
            neg == (s[0] == '-'),
            limit == 0x8000_0000_0000_0000u64,
            forall|t: int| st <= t < k - a ==> #[trigger] is_digit(s[t]),
            !over ==> v as nat == digits_value(s, st, k - a),
            over ==> digits_value(s, st, k - a) > limit,
            v <= limit,
        decreases b - k,
    {
        let c = h[k];
        assert(c == s[k - a]);
        if !('0' <= c && c <= '9') {
            assert(!is_digit(s[k - a]));
            return None;
        }
        let d: u64 = (c as u64) - 48;
        assert(digits_value(s, st, k + 1 - a) == digits_value(s, st, k - a) * 10 + d);
        if !over {
            if v > (limit - d) / 10 {
                assert(v * 10 + d > limit) by (nonlinear_arith)
                    requires
                        v > (limit - d) / 10,
                        d <= 9,
                        limit == 0x8000_0000_0000_0000u64,
                ;
                over = true;
            } else {
                assert(v * 10 + d <= limit) by (nonlinear_arith)
                    requires
                        v <= (limit - d) / 10,
                        d <= 9,
                        limit == 0x8000_0000_0000_0000u64,
                ;
                v = v * 10 + d;
            }
        }
        k = k + 1;
    }
    if over {
        assert(s.len() == b - a);
        return None;
    }
    assert(s.len() == b - a);
    if neg {
        if v == limit {
            Some(i64::MIN)
        } else {
            Some(0 - (v as i64))
        }
    } else {
        if v == limit {
            None
        } else {
            Some(v as i64)
        }
    }
}

fn number_run_end_exec(h: &Vec<char>, i: usize) -> (r: usize)
    ensures
        r == number_run_end(h@, i as int),
        i <= r,
        i <= h.len() ==> r <= h.len(),
{
    let mut j = i;
    while j < h.len() && (h[j] == '-' || ('0' <= h[j] && h[j] <= '9'))
        invariant
            i <= j,
            i <= h.len() ==> j <= h.len(),
            number_run_end(h@, i as int) == number_run_end(h@, j as int),
        decreases h.len() - j,
    {
        j = j + 1;
    }
    j
}

/// The integer value stored under `key` in `json`, or `default_val` when
/// there is none or it does not parse as an `i64`.
pub fn json_find_int_field(json: &str, key: &str, default_val: i64) -> (r: i64)
    ensures
        r as int == json_int_field(json@, key@, default_val),
{
    let h = chars_of(json);
    let needle = quoted_key_chars(key);
    let mut pos_opt = find_sub_exec(&h, 0, &needle);
    proof {
        lemma_find_sub_bounds(h@, 0, needle@);
    }
    while pos_opt.is_some()
        invariant
            needle@ == quoted_key(key@),
            needle.len() > 0,
            h@ == json@,
            json_int_field(json@, key@, default_val) == match pos_opt {
                Some(p) => int_field_from(h@, needle@, p as int, default_val as int),
                None => default_val as int,
            },
            match pos_opt {
                Some(p) => p <= h.len() - needle.len() && h.len() >= needle.len(),
                None => true,
            },
        decreases match pos_opt {
            Some(p) => h.len() + 1 - p,
            None => 0,
        },
    {
        let pos = pos_opt.unwrap();
        let colon = match find_char_exec(&h, pos + needle.len(), ':') {
            Some(c) => c,
            None => {
                return default_val;
            },
        };
        proof {
            lemma_find_char_bounds(h@, pos + needle@.len(), ':');
        }
        let i = skip_ws_exec(&h, colon + 1);
        if i < h.len() && (h[i] == '-' || ('0' <= h[i] && h[i] <= '9')) {
            let e = number_run_end_exec(&h, i);
            return match parse_i64_exec(&h, i, e) {
                Some(v) => v,
                None => default_val,
            };
        }
        let next = find_sub_exec(&h, colon, &needle);
        proof {
            lemma_find_sub_bounds(h@, colon as int, needle@);
        }
        pos_opt = match next {
            Some(nx) => if nx <= pos || nx > h.len() {
                None
            } else {
                Some(nx)
            },
            None => None,
        };
    }
    default_val
}


// ---------------------------------------------------------------------------
// Round trip with the escaping of the writer
// ---------------------------------------------------------------------------

/// Escaping distributes over concatenation.
pub proof fn lemma_escape_concat(a: Seq<char>, b: Seq<char>)
    ensures
        crate::util::json_escape_seq(a + b) == crate::util::json_escape_seq(a)
            + crate::util::json_escape_seq(b),
    decreases b.len(),
{
    if b.len() == 0 {
        assert(a + b =~= a);
        assert(crate::util::json_escape_seq(a) + crate::util::json_escape_seq(b) =~= crate::util::json_escape_seq(a));
    } else {
        lemma_escape_concat(a, b.drop_last());
        assert((a + b).drop_last() =~= a + b.drop_last());
        assert((a + b).last() == b.last());
        assert(crate::util::json_escape_seq(a) + crate::util::json_escape_seq(b) =~= crate::util::json_escape_seq(a)
            + crate::util::json_escape_seq(b.drop_last()) + crate::util::json_escape_char(b.last()));
    }
}

proof fn lemma_hex_digit_value(d: u32)
    requires
        d < 16,
    ensures
        is_hex_digit(crate::util::hex_digit_lower(d)),
        hex_value(crate::util::hex_digit_lower(d)) == d,
{
}

/// Decoding the escape of one character at `j` gives that character and
/// continues right after the escape.
proof fn lemma_decode_one(h: Seq<char>, j: int, c: char, out: Seq<char>)
    requires
        0 <= j,
        j + crate::util::json_escape_char(c).len() < h.len(),
        h.subrange(j, j + crate::util::json_escape_char(c).len()) == crate::util::json_escape_char(c),
    ensures
        decode_from(h, j, out) == decode_from(
            h,
            j + crate::util::json_escape_char(c).len(),
            out.push(c),
        ),
{
    let e = crate::util::json_escape_char(c);
    assert(forall|k: int| 0 <= k < e.len() ==> h[j + k] == #[trigger] e[k]) by {
        assert forall|k: int| 0 <= k < e.len() implies h[j + k] == #[trigger] e[k] by {
            assert(h.subrange(j, j + e.len())[k] == h[j + k]);
        }
    }
    if c == '\\' || c == '"' || c == '\u{8}' || c == '\u{c}' || c == '\n' || c == '\r' || c == '\t' {
        assert(h[j] == e[0]);
        assert(h[j + 1] == e[1]);
    } else if (c as u32) < 0x20 {
        let v = c as u32;
        let hi = v / 16;
        let lo = v % 16;
        assert(h[j] == e[0]);
        assert(h[j + 1] == e[1]);
        let q = h.subrange(j + 2, j + 6);
        assert(q[0] == e[2]);
        assert(q[1] == e[3]);
        assert(q[2] == e[4]);
        assert(q[3] == e[5]);
        lemma_hex_digit_value(hi);
        lemma_hex_digit_value(lo);
        assert(q[0] == '0' && q[1] == '0');
        assert(forall|k: int| 0 <= k < 4 ==> #[trigger] is_hex_digit(q[k]));
        reveal_with_fuel(hex_digits_value, 5);
        assert(hex_digits_value(q, 0, 4) == hi * 16 + lo);
        assert(hex4(q) == Some((hi * 16 + lo) as nat));
        assert(hi * 16 + lo == v);
        assert(scalar_value(v as nat));
        assert((v as nat) as char == c);
    } else {
        assert(h[j] == e[0]);
    }
}

/// Decoding an escaped string followed by a closing quote gives the string
/// back: what the writer escapes, the reader restores.
pub proof fn lemma_decode_escaped(h: Seq<char>, j: int, s: Seq<char>, out: Seq<char>)
    requires
        0 <= j,
        j + crate::util::json_escape_seq(s).len() < h.len(),
        h.subrange(j, j + crate::util::json_escape_seq(s).len()) == crate::util::json_escape_seq(s),
        h[j + crate::util::json_escape_seq(s).len()] == '"',
    ensures
        decode_from(h, j, out) == out + s,
    decreases s.len(),
{
    if s.len() == 0 {
        assert(out + s =~= out);
    } else {
        let c = s[0];
        let rest = s.drop_first();
        assert(s =~= seq![c] + rest);
        lemma_escape_concat(seq![c], rest);
        assert(crate::util::json_escape_seq(seq![c]) =~= crate::util::json_escape_char(c)) by {
            let one = seq![c];
            assert(one.drop_last() =~= Seq::<char>::empty());
            assert(one.last() == c);
            assert(crate::util::json_escape_seq(Seq::<char>::empty()) =~= Seq::<char>::empty());
            assert(crate::util::json_escape_seq(one) == crate::util::json_escape_seq(one.drop_last())
                + crate::util::json_escape_char(c));
            assert(Seq::<char>::empty() + crate::util::json_escape_char(c)
                =~= crate::util::json_escape_char(c));
        }
        let e = crate::util::json_escape_char(c);
        let er = crate::util::json_escape_seq(rest);
        assert(h.subrange(j, j + e.len()) =~= e) by {
            assert(h.subrange(j, j + e.len()) =~= h.subrange(j, j + e.len() + er.len()).subrange(
                0,
                e.len() as int,
            ));
        }
        lemma_decode_one(h, j, c, out);
        assert(h.subrange(j + e.len(), j + e.len() + er.len()) =~= er) by {
            assert(h.subrange(j + e.len(), j + e.len() + er.len()) =~= h.subrange(
                j,
                j + e.len() + er.len(),
            ).subrange(e.len() as int, (e.len() + er.len()) as int));
        }
        lemma_decode_escaped(h, j + e.len(), rest, out.push(c));
        assert(out.push(c) + rest =~= out + s);
    }
}

/// The escape of any string, closed by a quote, decodes to the string.
pub proof fn lemma_escape_round_trip(s: Seq<char>)
    ensures
        decode_from(crate::util::json_escape_seq(s) + seq!['"'], 0, Seq::empty()) == s,
{
    let h = crate::util::json_escape_seq(s) + seq!['"'];
    assert(h.subrange(0, crate::util::json_escape_seq(s).len() as int) =~= crate::util::json_escape_seq(s));
    lemma_decode_escaped(h, 0, s, Seq::empty());
    assert(Seq::<char>::empty() + s =~= s);
}


// ---------------------------------------------------------------------------
// Looking a field up in a built object
// ---------------------------------------------------------------------------

/// The one-field object `{"key": "<escaped value>"}` as a writer builds it.
pub open spec fn one_field_object(key: Seq<char>, value: Seq<char>) -> Seq<char> {
    "{\""@ + key + "\": \""@ + crate::util::json_escape_seq(value) + "\"}"@
}

/// Looking up the key of a one-field object gives back the value written,
/// whatever the key and value hold.
pub proof fn lemma_object_field_read_back(key: Seq<char>, value: Seq<char>)
    ensures
        json_string_field(one_field_object(key, value), key) == value,
{
    reveal_strlit("{\"");
    reveal_strlit("\": \"");
    reveal_strlit("\"}");
    let h = one_field_object(key, value);
    let n = quoted_key(key);
    let e = crate::util::json_escape_seq(value);
    let kl = key.len() as int;
    let el = e.len() as int;
    let j = kl + 6;
    assert(h.len() == kl + 8 + el);
    assert(h[0] == '{');
    assert forall|k: int| 0 <= k < kl implies h[2 + k] == key[k] by {
        assert(h[2 + k] == ("{\""@ + key)[2 + k]);
    }
    assert(h[1] == '"');
    assert(h[kl + 2] == '"');
    assert(h[kl + 3] == ':');
    assert(h[kl + 4] == ' ');
    assert(h[kl + 5] == '"');
    assert forall|k: int| 0 <= k < el implies h[j + k] == e[k] by {
        assert(h[j + k] == ("{\""@ + key + "\": \""@ + e)[j + k]);
    }
    assert(h[j + el] == '"');
    // the key occurs at 1, and not at 0, which holds a brace
    assert(h.subrange(1, 1 + n.len() as int) =~= n);
    crate::status_file::lemma_find_first(h, 0, n, 1);
    assert(!occurs_at(h, n, 0)) by {
        assert(h.subrange(0, n.len() as int)[0] == h[0]);
    }
    assert(find_sub_at(h, 0, n) == 1);
    assert(find_sub(h, 0, n) == 1);
    crate::status_file::lemma_find_char_at(h, kl + 3, ':', kl + 3);
    assert(skip_ws(h, kl + 5) == kl + 5);
    assert(skip_ws(h, kl + 4) == kl + 5);
    assert(h.subrange(j, j + el) =~= e);
    lemma_decode_escaped(h, j, value, Seq::empty());
    assert(Seq::<char>::empty() + value =~= value);
}

/// A key whose quoted form does not occur in the text has no value: the
/// lookup gives the empty string.
pub proof fn lemma_absent_field_is_empty(json: Seq<char>, key: Seq<char>)
    requires
        !crate::text::contains_seq(json, quoted_key(key)),
    ensures
        json_string_field(json, key) == Seq::<char>::empty(),
{
    let n = quoted_key(key);
    lemma_find_sub_bounds(json, 0, n);
    if find_sub(json, 0, n) != -1 {
        assert(occurs_at(json, n, find_sub(json, 0, n)));
    }
}

} // verus!
