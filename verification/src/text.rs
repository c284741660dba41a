//! Character-sequence primitives shared by every matcher: conversion between
//! `str`/`String` and `Vec<char>`, substring search, prefix/suffix tests,
//! ASCII case folding, and the Unicode character classes the rules use.

use vstd::prelude::*;

verus! {

// ---------------------------------------------------------------------------
// Specifications
// ---------------------------------------------------------------------------

/// `n` occurs in `h` starting at index `i`.
pub open spec fn occurs_at(h: Seq<char>, n: Seq<char>, i: int) -> bool {
    &&& 0 <= i
    &&& i + n.len() <= h.len()
    &&& h.subrange(i, i + n.len()) =~= n
}

/// `n` is a substring of `h`.
pub open spec fn contains_seq(h: Seq<char>, n: Seq<char>) -> bool {
    exists|i: int| #[trigger] occurs_at(h, n, i)
}

/// `n` is a prefix of `h`.
pub open spec fn starts_seq(h: Seq<char>, n: Seq<char>) -> bool {
    n.is_prefix_of(h)
}

/// `n` is a suffix of `h`.
pub open spec fn ends_seq(h: Seq<char>, n: Seq<char>) -> bool {
    n.is_suffix_of(h)
}

/// ASCII lowercase of one character; every other character is unchanged.
pub open spec fn ascii_lower(c: char) -> char {
    if 'A' <= c && c <= 'Z' {
        ((c as u32) + 32) as char
    } else {
        c
    }
}

/// Character-wise ASCII lowercase of a sequence.
pub open spec fn ascii_lower_seq(s: Seq<char>) -> Seq<char> {
    s.map_values(|c: char| ascii_lower(c))
}

/// Every character is in the ASCII range.
pub open spec fn all_ascii(s: Seq<char>) -> bool {
    forall|i: int| 0 <= i < s.len() ==> (#[trigger] s[i] as u32) < 128
}

/// `[0-9]`.
pub open spec fn is_digit(c: char) -> bool {
    '0' <= c && c <= '9'
}

/// `[0-9A-Fa-f]`.
pub open spec fn is_hex_digit(c: char) -> bool {
    is_digit(c) || ('a' <= c && c <= 'f') || ('A' <= c && c <= 'F')
}

/// ASCII letters and digits.
pub open spec fn is_ascii_alnum(c: char) -> bool {
    is_digit(c) || ('a' <= c && c <= 'z') || ('A' <= c && c <= 'Z')
}

/// The ASCII characters that Unicode classifies as `White_Space`.
pub open spec fn is_ascii_white_space(c: char) -> bool {
    c == ' ' || ('\t' <= c && c <= '\r')
}

/// Unicode lowercase mapping of a whole string, as `str::to_lowercase` computes it.
pub uninterp spec fn unicode_lowercase(s: Seq<char>) -> Seq<char>;

/// Lowercase form of `s`: on ASCII text the character-wise ASCII mapping,
/// otherwise the Unicode mapping.
pub open spec fn lowercase(s: Seq<char>) -> Seq<char> {
    if all_ascii(s) {
        ascii_lower_seq(s)
    } else {
        unicode_lowercase(s)
    }
}

/// Unicode `Alphabetic || Numeric` property, as `char::is_alphanumeric` computes it.
pub uninterp spec fn alphanumeric(c: char) -> bool;

/// Unicode `White_Space` property, as `char::is_whitespace` computes it.
pub uninterp spec fn unicode_white_space(c: char) -> bool;

/// White space: the ASCII white-space characters on ASCII, the Unicode
/// property otherwise.
pub open spec fn white_space(c: char) -> bool {
    if (c as u32) < 128 {
        is_ascii_white_space(c)
    } else {
        unicode_white_space(c)
    }
}

/// The character sequences held by a sequence of strings.
pub open spec fn views(v: Seq<String>) -> Seq<Seq<char>> {
    v.map_values(|s: String| s@)
}

/// A sequence of `n` copies of `c`.
pub open spec fn repeat(c: char, n: nat) -> Seq<char> {
    Seq::new(n, |i: int| c)
}

// ---------------------------------------------------------------------------
// Trusted calls into std
// ---------------------------------------------------------------------------

/// Calls `str::to_lowercase`. Claimed: the result is the name
/// `unicode_lowercase` of the input, and on an all-ASCII input it is the
/// character-wise ASCII lowercase (std documents `to_lowercase` as the
/// Unicode lowercase mapping, which on ASCII letters is `A-Z` to `a-z` and
/// leaves other ASCII alone).
#[verifier::external_body]
fn std_to_lowercase(s: &str) -> (r: String)
    ensures
        r@ == unicode_lowercase(s@),
        all_ascii(s@) ==> r@ == ascii_lower_seq(s@),
{
    s.to_lowercase()
}

/// The lowercase form of `s`.
pub fn to_lower(s: &str) -> (r: String)
    ensures
        r@ == lowercase(s@),
{
    std_to_lowercase(s)
}

/// Calls `char::is_alphanumeric`. Claimed: the result is the name
/// `alphanumeric`, which on ASCII is exactly letters and digits.
#[verifier::external_body]
pub(crate) fn char_is_alphanumeric(c: char) -> (r: bool)
    ensures
        r == alphanumeric(c),
        (c as u32) < 128 ==> (r <==> is_ascii_alnum(c)),
{
    c.is_alphanumeric()
}

/// Calls `char::is_whitespace`. Claimed: the result is the name
/// `unicode_white_space`, which on ASCII is exactly space and `\t` through
/// `\r` (std documents `is_whitespace` as the Unicode `White_Space`
/// property).
#[verifier::external_body]
fn std_char_is_whitespace(c: char) -> (r: bool)
    ensures
        r == unicode_white_space(c),
        (c as u32) < 128 ==> (r <==> is_ascii_white_space(c)),
{
    c.is_whitespace()
}

/// Whether `c` is white space.
pub fn char_is_whitespace(c: char) -> (r: bool)
    ensures
        r == white_space(c),
{
    std_char_is_whitespace(c)
}

/// Calls `String::push`. Claimed: the character is appended.
#[verifier::external_body]
pub(crate) fn push_char(s: &mut String, c: char)
    ensures
        final(s)@ == old(s)@.push(c),
{
    s.push(c);
}

// ---------------------------------------------------------------------------
// Conversions
// ---------------------------------------------------------------------------

/// The characters of `s`.
pub fn chars_of(s: &str) -> (v: Vec<char>)
    ensures
        v@ == s@,
{
    let mut v: Vec<char> = Vec::new();
    for c in it: s.chars()
        invariant
            v@ == it.seq().take(it.index() as int),
    {
        v.push(c);
    }
    v
}

/// The lowercased characters of `s`.
pub fn lower_chars(s: &str) -> (v: Vec<char>)
    ensures
        v@ == lowercase(s@),
{
    let l = to_lower(s);
    chars_of(l.as_str())
}

/// A `String` holding the characters `v[from..to]`.
pub fn string_of_range(v: &Vec<char>, from: usize, to: usize) -> (s: String)
    requires
        from <= to <= v.len(),
    ensures
        s@ == v@.subrange(from as int, to as int),
{
    let mut s = String::new();
    let mut i: usize = from;
    while i < to
        invariant
            from <= i <= to <= v.len(),
            s@ == v@.subrange(from as int, i as int),
        decreases to - i,
    {
        push_char(&mut s, v[i]);
        i = i + 1;
        assert(s@ =~= v@.subrange(from as int, i as int));
    }
    s
}

/// A `String` holding the characters of `v`.
pub fn string_of(v: &Vec<char>) -> (s: String)
    ensures
        s@ == v@,
{
    let s = string_of_range(v, 0, v.len());
    assert(v@.subrange(0, v@.len() as int) =~= v@);
    s
}

/// Appends the characters `v` to `s`.
pub fn append_chars(s: &mut String, v: &Vec<char>)
    ensures
        final(s)@ == old(s)@ + v@,
{
    let mut i: usize = 0;
    while i < v.len()
        invariant
            i <= v.len(),
            s@ == old(s)@ + v@.take(i as int),
        decreases v.len() - i,
    {
        push_char(s, v[i]);
        i = i + 1;
        assert(s@ =~= old(s)@ + v@.take(i as int));
    }
    assert(v@.take(v@.len() as int) =~= v@);
}

/// `a` followed by `b`.
pub fn concat2(a: &str, b: &str) -> (s: String)
    ensures
        s@ == a@ + b@,
{
    let mut s = String::from_str(a);
    s.append(b);
    s
}

/// `a`, `b`, `c` in sequence.
pub fn concat3(a: &str, b: &str, c: &str) -> (s: String)
    ensures
        s@ == a@ + b@ + c@,
{
    let mut s = String::from_str(a);
    s.append(b);
    s.append(c);
    s
}

/// A copy of `s`.
pub fn copy_string(s: &String) -> (r: String)
    ensures
        r@ == s@,
{
    String::from_str(s.as_str())
}

// ---------------------------------------------------------------------------
// Searching
// ---------------------------------------------------------------------------

/// Whether `n` occurs in `h` at index `i`.
pub fn occurs_at_exec(h: &Vec<char>, n: &Vec<char>, i: usize) -> (r: bool)
    ensures
        r == occurs_at(h@, n@, i as int),
{
    if i > h.len() || n.len() > h.len() - i {
        return false;
    }
    let mut j: usize = 0;
    while j < n.len()
        invariant
            j <= n.len(),
            i + n.len() <= h.len(),
            forall|k: int| 0 <= k < j ==> h@[i + k] == n@[k],
        decreases n.len() - j,
    {
        if h[i + j] != n[j] {
            assert(h@.subrange(i as int, i + n.len())[j as int] != n@[j as int]);
            return false;
        }
        j = j + 1;
    }
    assert(h@.subrange(i as int, i + n.len()) =~= n@);
    true
}

/// First index `>= from` at which `n` occurs in `h`.
pub fn find_from(h: &Vec<char>, n: &Vec<char>, from: usize) -> (r: Option<usize>)
    ensures
        match r {
            Some(i) => from <= i && occurs_at(h@, n@, i as int) && forall|k: int|
                from <= k < i ==> !#[trigger] occurs_at(h@, n@, k),
            None => forall|k: int| from <= k ==> !#[trigger] occurs_at(h@, n@, k),
        },
{
    if n.len() > h.len() {
        return None;
    }
    let last = h.len() - n.len();
    let mut i: usize = from;
    while i <= last
        invariant
            last == h.len() - n.len(),
            from <= i,
            forall|k: int| from <= k < i ==> !#[trigger] occurs_at(h@, n@, k),
        decreases last + 1 - i,
    {
        if occurs_at_exec(h, n, i) {
            return Some(i);
        }
        i = i + 1;
    }
    None
}

/// Whether `n` is a substring of `h`.
pub fn contains_chars(h: &Vec<char>, n: &Vec<char>) -> (r: bool)
    ensures
        r == contains_seq(h@, n@),
{
    match find_from(h, n, 0) {
        Some(i) => true,
        None => false,
    }
}

/// Whether the literal `n` is a substring of `h`.
pub fn contains_str(h: &Vec<char>, n: &str) -> (r: bool)
    ensures
        r == contains_seq(h@, n@),
{
    let nv = chars_of(n);
    contains_chars(h, &nv)
}

/// Whether `n` is a prefix of `h`.
pub fn starts_with_chars(h: &Vec<char>, n: &Vec<char>) -> (r: bool)
    ensures
        r == starts_seq(h@, n@),
{
    let r = occurs_at_exec(h, n, 0);
    assert(r ==> h@.subrange(0, n@.len() as int) =~= n@);
    r
}

/// Whether the literal `n` is a prefix of `h`.
pub fn starts_with_str(h: &Vec<char>, n: &str) -> (r: bool)
    ensures
        r == starts_seq(h@, n@),
{
    let nv = chars_of(n);
    starts_with_chars(h, &nv)
}

/// Whether `n` is a suffix of `h`.
pub fn ends_with_chars(h: &Vec<char>, n: &Vec<char>) -> (r: bool)
    ensures
        r == ends_seq(h@, n@),
{
    if n.len() > h.len() {
        return false;
    }
    occurs_at_exec(h, n, h.len() - n.len())
}

/// Whether the literal `n` is a suffix of `h`.
pub fn ends_with_str(h: &Vec<char>, n: &str) -> (r: bool)
    ensures
        r == ends_seq(h@, n@),
{
    let nv = chars_of(n);
    ends_with_chars(h, &nv)
}

/// Whether `a` and `b` hold the same characters.
pub fn eq_chars(a: &Vec<char>, b: &Vec<char>) -> (r: bool)
    ensures
        r == (a@ == b@),
{
    if a.len() != b.len() {
        return false;
    }
    let r = occurs_at_exec(a, b, 0);
    assert(r ==> a@.subrange(0, b@.len() as int) =~= a@);
    proof {
        if a@ == b@ {
            assert(a@.subrange(0, b@.len() as int) =~= b@);
        }
    }
    r
}

/// Whether `a` holds the characters of the literal `b`.
pub fn eq_str(a: &Vec<char>, b: &str) -> (r: bool)
    ensures
        r == (a@ == b@),
{
    let bv = chars_of(b);
    eq_chars(a, &bv)
}

// ---------------------------------------------------------------------------
// ASCII folding
// ---------------------------------------------------------------------------

/// ASCII lowercase of one character.
pub fn ascii_lower_char(c: char) -> (r: char)
    ensures
        r == ascii_lower(c),
{
    if 'A' <= c && c <= 'Z' {
        let u: u32 = (c as u32) + 32;
        assert(0x61 <= u <= 0x7a);
        let r = char_from_ascii(u);
        r
    } else {
        c
    }
}

/// The character with the given ASCII code.
pub fn char_from_ascii(u: u32) -> (c: char)
    requires
        u < 128,
    ensures
        c == u as char,
        c as u32 == u,
{
    let b: u8 = u as u8;
    b as char
}

/// Whether `a` and `b` are equal after ASCII lowercasing (`eq_ignore_ascii_case`).
pub fn eq_ignore_ascii_case(a: &Vec<char>, b: &Vec<char>) -> (r: bool)
    ensures
        r == (ascii_lower_seq(a@) == ascii_lower_seq(b@)),
{
    if a.len() != b.len() {
        assert(ascii_lower_seq(a@).len() != ascii_lower_seq(b@).len());
        return false;
    }
    let mut i: usize = 0;
    while i < a.len()
        invariant
            i <= a.len(),
            a.len() == b.len(),
            forall|k: int| 0 <= k < i ==> ascii_lower(a@[k]) == ascii_lower(b@[k]),
        decreases a.len() - i,
    {
        if ascii_lower_char(a[i]) != ascii_lower_char(b[i]) {
            assert(ascii_lower_seq(a@)[i as int] != ascii_lower_seq(b@)[i as int]);
            return false;
        }
        i = i + 1;
    }
    assert(ascii_lower_seq(a@) =~= ascii_lower_seq(b@));
    true
}

} // verus!
