//! Windows path text: separators, final component (leaf) and parent.
//!
//! Paths are handled as text with Windows conventions whatever the host:
//! both `\` and `/` separate components, trailing separators do not count,
//! the leaf is the text after the last separator and the parent the text
//! before it.

use vstd::prelude::*;

verus! {

/// A path separator (`\` or `/`).
pub open spec fn is_sep(c: char) -> bool {
    c == '\\' || c == '/'
}

/// End of `p[..j]` once trailing separators are dropped.
pub open spec fn strip_seps_end(p: Seq<char>, j: int) -> int
    decreases j,
{
    if 0 < j <= p.len() && is_sep(p[j - 1]) {
        strip_seps_end(p, j - 1)
    } else {
        j
    }
}

/// Index of the last separator in `p[..j]`, or -1.
pub open spec fn last_sep_before(p: Seq<char>, j: int) -> int
    decreases j,
{
    if j <= 0 || j > p.len() {
        -1
    } else if is_sep(p[j - 1]) {
        j - 1
    } else {
        last_sep_before(p, j - 1)
    }
}

/// The final component of `p` (empty when `p` has none).
pub open spec fn leaf_of(p: Seq<char>) -> Seq<char> {
    let e = strip_seps_end(p, p.len() as int);
    p.subrange(last_sep_before(p, e) + 1, e)
}

/// `p` without its final component and the separator before it (empty when
/// `p` has a single component).
pub open spec fn parent_of(p: Seq<char>) -> Seq<char> {
    let e = strip_seps_end(p, p.len() as int);
    let k = last_sep_before(p, e);
    if k < 0 {
        Seq::empty()
    } else {
        p.subrange(0, k)
    }
}

/// Text after the last separator of `p` (all of `p` without one).
pub open spec fn after_last_sep(p: Seq<char>) -> Seq<char> {
    p.subrange(last_sep_before(p, p.len() as int) + 1, p.len() as int)
}

/// The characters `v[a..b]`.
pub fn sub_chars(v: &Vec<char>, a: usize, b: usize) -> (r: Vec<char>)
    requires
        a <= b <= v.len(),
    ensures
        r@ == v@.subrange(a as int, b as int),
{
    let mut r: Vec<char> = Vec::new();
    let mut i: usize = a;
    while i < b
        invariant
            a <= i <= b <= v.len(),
            r@ == v@.subrange(a as int, i as int),
        decreases b - i,
    {
        r.push(v[i]);
        i = i + 1;
        assert(r@ =~= v@.subrange(a as int, i as int));
    }
    r
}

fn strip_seps_end_exec(p: &Vec<char>, j: usize) -> (e: usize)
    requires
        j <= p.len(),
    ensures
        e == strip_seps_end(p@, j as int),
        e <= j,
{
    let mut e = j;
    while e > 0 && (p[e - 1] == '\\' || p[e - 1] == '/')
        invariant
            e <= j <= p.len(),
            strip_seps_end(p@, j as int) == strip_seps_end(p@, e as int),
        decreases e,
    {
        e = e - 1;
    }
    e
}

/// Returns one past the last separator in `p[..j]` (0 without one).
fn after_last_sep_exec(p: &Vec<char>, j: usize) -> (k: usize)
    requires
        j <= p.len(),
    ensures
        k == last_sep_before(p@, j as int) + 1,
        k <= j,
{
    let mut k = j;
    while k > 0 && !(p[k - 1] == '\\' || p[k - 1] == '/')
        invariant
            k <= j <= p.len(),
            last_sep_before(p@, j as int) == last_sep_before(p@, k as int),
        decreases k,
    {
        k = k - 1;
    }
    k
}

/// The final component of the path `p`.
pub fn leaf_chars(p: &Vec<char>) -> (r: Vec<char>)
    ensures
        r@ == leaf_of(p@),
{
    let e = strip_seps_end_exec(p, p.len());
    let k = after_last_sep_exec(p, e);
    sub_chars(p, k, e)
}

/// The path `p` without its final component.
pub fn parent_chars(p: &Vec<char>) -> (r: Vec<char>)
    ensures
        r@ == parent_of(p@),
{
    let e = strip_seps_end_exec(p, p.len());
    let k = after_last_sep_exec(p, e);
    if k == 0 {
        let r: Vec<char> = Vec::new();
        assert(r@ =~= Seq::<char>::empty());
        r
    } else {
        sub_chars(p, 0, k - 1)
    }
}

/// Text after the last separator of `p`.
pub fn after_last_sep_chars(p: &Vec<char>) -> (r: Vec<char>)
    ensures
        r@ == after_last_sep(p@),
{
    let k = after_last_sep_exec(p, p.len());
    sub_chars(p, k, p.len())
}

} // verus!
