//! Case-insensitive `*` / `?` wildcard matching of file leaves against
//! component globs.
//!
//! The matcher is the classic single-backtrack-point greedy algorithm. Its
//! exact result is `greedy_match`; on texts without a literal `*` (every
//! Windows file name) that result is proved equal to the plain recursive
//! meaning of a glob, `glob_match`.

use vstd::prelude::*;
use crate::text::{contains_seq, occurs_at};

verus! {

/// Recursive meaning of a glob: `p[j..]` matches `t[i..]`, where `*` matches
/// any run of characters, `?` any single character, and every other
/// character itself.
pub open spec fn glob_at(t: Seq<char>, p: Seq<char>, i: int, j: int) -> bool
    decreases t.len() - i + p.len() - j,
{
    if i < 0 || j < 0 || i > t.len() || j > p.len() {
        false
    } else if j == p.len() {
        i == t.len()
    } else if p[j] == '*' {
        glob_at(t, p, i, j + 1) || (i < t.len() && glob_at(t, p, i + 1, j))
    } else {
        i < t.len() && (p[j] == '?' || p[j] == t[i]) && glob_at(t, p, i + 1, j + 1)
    }
}

/// The whole pattern `p` matches the whole text `t`.
pub open spec fn glob_match(t: Seq<char>, p: Seq<char>) -> bool {
    glob_at(t, p, 0, 0)
}

/// Every pattern character from `j` on is `*`.
pub open spec fn all_stars_from(p: Seq<char>, j: int) -> bool {
    forall|k: int| j <= k < p.len() ==> p[k] == '*'
}

/// Progress key of the greedy matcher: the text position without a
/// backtrack point, the last star's anchor with one.
pub open spec fn greedy_key(ti: int, star: int, m: int) -> int {
    if star < 0 {
        ti
    } else {
        m
    }
}

/// Well-formed state of the greedy matcher.
pub open spec fn greedy_state_ok(t: Seq<char>, p: Seq<char>, ti: int, pi: int, star: int, m: int) -> bool {
    &&& 0 <= ti <= t.len()
    &&& 0 <= pi <= p.len()
    &&& (star >= 0 ==> 0 <= m <= ti && star < pi)
}

/// Result of the greedy matcher from state (text index `ti`, pattern index
/// `pi`, last star `star` (negative: none), anchor `m`): a pattern character
/// equal to the text character (or `?`) is consumed first, a `*` becomes the
/// new backtrack point, and a mismatch retries one text character further
/// after the last star.
pub open spec fn greedy_at(t: Seq<char>, p: Seq<char>, ti: int, pi: int, star: int, m: int) -> bool
    decreases t.len() - greedy_key(ti, star, m), p.len() - pi,
{
    if !greedy_state_ok(t, p, ti, pi, star, m) {
        false
    } else if ti == t.len() {
        all_stars_from(p, pi)
    } else if pi < p.len() && (p[pi] == '?' || p[pi] == t[ti]) {
        greedy_at(t, p, ti + 1, pi + 1, star, m)
    } else if pi < p.len() && p[pi] == '*' {
        greedy_at(t, p, ti, pi + 1, pi, ti)
    } else if star >= 0 {
        greedy_at(t, p, m + 1, star + 1, star, m + 1)
    } else {
        false
    }
}

/// Result of the greedy matcher on the whole text and pattern.
pub open spec fn greedy_match(t: Seq<char>, p: Seq<char>) -> bool {
    greedy_at(t, p, 0, 0, -1, 0)
}

/// Some suffix of `t` starting at or after `i` matches `p[s + 1..]`.
pub open spec fn some_rest_matches(t: Seq<char>, p: Seq<char>, i: int, s: int) -> bool {
    exists|k: int| i <= k <= t.len() && #[trigger] glob_at(t, p, k, s + 1)
}

/// `p[j..j + len]` holds no `*`.
pub open spec fn no_star_in(p: Seq<char>, j: int, len: int) -> bool {
    forall|k: int| j <= k < j + len ==> p[k] != '*'
}

/// `p[j..j + len]` matches `t[i..i + len]` character by character.
pub open spec fn seg_matches(t: Seq<char>, p: Seq<char>, i: int, j: int, len: int) -> bool {
    forall|q: int| j <= q < j + len ==> (#[trigger] p[q] == '?' || p[q] == t[i + (q - j)])
}

proof fn lemma_star_unfold(t: Seq<char>, p: Seq<char>, i: int, j: int)
    requires
        0 <= i <= t.len(),
        0 <= j < p.len(),
        p[j] == '*',
    ensures
        glob_at(t, p, i, j) == some_rest_matches(t, p, i, j),
    decreases t.len() - i,
{
    if i < t.len() {
        lemma_star_unfold(t, p, i + 1, j);
        if glob_at(t, p, i, j) {
            if !glob_at(t, p, i, j + 1) {
                let k = choose|k: int| i + 1 <= k <= t.len() && #[trigger] glob_at(t, p, k, j + 1);
                assert(i <= k <= t.len() && glob_at(t, p, k, j + 1));
            } else {
                assert(glob_at(t, p, i, j + 1));
            }
        }
        if some_rest_matches(t, p, i, j) {
            let k = choose|k: int| i <= k <= t.len() && #[trigger] glob_at(t, p, k, j + 1);
            if k > i {
                assert(some_rest_matches(t, p, i + 1, j));
            }
        }
    } else {
        if some_rest_matches(t, p, i, j) {
            let k = choose|k: int| i <= k <= t.len() && #[trigger] glob_at(t, p, k, j + 1);
            assert(k == i);
        }
        if glob_at(t, p, i, j) {
            assert(glob_at(t, p, i, j + 1));
        }
    }
}

proof fn lemma_shift(t: Seq<char>, p: Seq<char>, i: int, j: int, len: int)
    requires
        0 <= len,
        0 <= i,
        i + len <= t.len(),
        0 <= j,
        j + len <= p.len(),
        no_star_in(p, j, len),
        seg_matches(t, p, i, j, len),
    ensures
        glob_at(t, p, i, j) == glob_at(t, p, i + len, j + len),
    decreases len,
{
    if len > 0 {
        assert(p[j] != '*');
        assert(p[j] == '?' || p[j] == t[i]);
        lemma_shift(t, p, i + 1, j + 1, len - 1);
    }
}

proof fn lemma_forward(t: Seq<char>, p: Seq<char>, i: int, j: int, len: int)
    requires
        0 <= len,
        0 <= i,
        0 <= j,
        j + len <= p.len(),
        no_star_in(p, j, len),
        glob_at(t, p, i, j),
    ensures
        i + len <= t.len(),
        glob_at(t, p, i + len, j + len),
    decreases len,
{
    if len > 0 {
        assert(p[j] != '*');
        lemma_forward(t, p, i + 1, j + 1, len - 1);
    }
}

proof fn lemma_all_stars(t: Seq<char>, p: Seq<char>, j: int)
    requires
        0 <= j <= p.len(),
    ensures
        glob_at(t, p, t.len() as int, j) == all_stars_from(p, j),
    decreases p.len() - j,
{
    if j < p.len() {
        lemma_all_stars(t, p, j + 1);
    }
}

proof fn lemma_greedy_sound(t: Seq<char>, p: Seq<char>, ti: int, pi: int, star: int, m: int)
    requires
        !t.contains('*'),
        greedy_state_ok(t, p, ti, pi, star, m),
        star >= 0 ==> {
            &&& p[star] == '*'
            &&& pi - star - 1 == ti - m
            &&& no_star_in(p, star + 1, pi - star - 1)
            &&& seg_matches(t, p, m, star + 1, pi - star - 1)
        },
    ensures
        greedy_at(t, p, ti, pi, star, m) == (if star < 0 {
            glob_at(t, p, ti, pi)
        } else {
            some_rest_matches(t, p, m, star)
        }),
    decreases t.len() - greedy_key(ti, star, m), p.len() - pi,
{
    let n = t.len() as int;
    if ti == n {
        lemma_all_stars(t, p, pi);
        if star >= 0 {
            let len = pi - star - 1;
            lemma_shift(t, p, m, star + 1, len);
            if some_rest_matches(t, p, m, star) {
                let k = choose|k: int| m <= k <= n && #[trigger] glob_at(t, p, k, star + 1);
                if k > m {
                    lemma_forward(t, p, k, star + 1, len);
                    assert(false);
                }
            }
            if glob_at(t, p, m, star + 1) {
                assert(some_rest_matches(t, p, m, star));
            }
        }
    } else if pi < p.len() && (p[pi] == '?' || p[pi] == t[ti]) {
        if p[pi] == '*' {
            assert(t[ti] == '*');
            assert(t.contains('*'));
        }
        if star >= 0 {
            assert forall|k: int| star + 1 <= k < pi + 1 implies p[k] != '*' by {
                if k < pi {
                    assert(no_star_in(p, star + 1, pi - star - 1));
                }
            }
            assert forall|q: int| star + 1 <= q < pi + 1 implies (#[trigger] p[q] == '?'
                || p[q] == t[m + (q - (star + 1))]) by {
                if q < pi {
                    assert(seg_matches(t, p, m, star + 1, pi - star - 1));
                }
            }
        }
        lemma_greedy_sound(t, p, ti + 1, pi + 1, star, m);
    } else if pi < p.len() && p[pi] == '*' {
        lemma_greedy_sound(t, p, ti, pi + 1, pi, ti);
        lemma_star_unfold(t, p, ti, pi);
        if star >= 0 {
            let len = pi - star - 1;
            lemma_shift(t, p, m, star + 1, len);
            // glob_at(m, star+1) == glob_at(ti, pi) == some_rest_matches(ti, pi)
            if some_rest_matches(t, p, m, star) {
                let k = choose|k: int| m <= k <= n && #[trigger] glob_at(t, p, k, star + 1);
                if k > m {
                    lemma_forward(t, p, k, star + 1, len);
                    lemma_star_unfold(t, p, k + len, pi);
                    let k2 = choose|k2: int|
                        k + len <= k2 <= n && #[trigger] glob_at(t, p, k2, pi + 1);
                    assert(ti <= k2 <= n && glob_at(t, p, k2, pi + 1));
                }
            }
            if some_rest_matches(t, p, ti, pi) {
                assert(glob_at(t, p, m, star + 1));
                assert(some_rest_matches(t, p, m, star));
            }
        }
    } else if star >= 0 {
        let len = pi - star - 1;
        lemma_shift(t, p, m, star + 1, len);
        assert(!glob_at(t, p, ti, pi));
        lemma_greedy_sound(t, p, m + 1, star + 1, star, m + 1);
        if some_rest_matches(t, p, m, star) {
            let k = choose|k: int| m <= k <= n && #[trigger] glob_at(t, p, k, star + 1);
            assert(k != m);
            assert(some_rest_matches(t, p, m + 1, star));
        }
        if some_rest_matches(t, p, m + 1, star) {
            let k = choose|k: int| m + 1 <= k <= n && #[trigger] glob_at(t, p, k, star + 1);
            assert(some_rest_matches(t, p, m, star));
        }
    } else {
    }
}

/// On a text without a literal `*`, the greedy matcher computes exactly the
/// recursive meaning of the glob.
pub proof fn lemma_greedy_match_is_glob_match(t: Seq<char>, p: Seq<char>)
    requires
        !t.contains('*'),
    ensures
        greedy_match(t, p) == glob_match(t, p),
{
    lemma_greedy_sound(t, p, 0, 0, -1, 0);
}

/// A pattern `*w*`, with no `*` in `w`, matches every text that contains
/// `w` and holds no literal `*`.
pub proof fn lemma_star_word_star_matches(t: Seq<char>, w: Seq<char>)
    requires
        !t.contains('*'),
        !w.contains('*'),
        contains_seq(t, w),
    ensures
        greedy_match(t, seq!['*'] + w + seq!['*']),
{
    let p = seq!['*'] + w + seq!['*'];
    let n = w.len() as int;
    lemma_greedy_match_is_glob_match(t, p);
    let i = choose|i: int| #[trigger] occurs_at(t, w, i);
    assert(t.subrange(i, i + n) =~= w);
    assert(glob_at(t, p, t.len() as int, n + 2));
    lemma_star_unfold(t, p, i + n, n + 1);
    assert(glob_at(t, p, i + n, n + 1));
    assert forall|k: int| 1 <= k < 1 + n implies p[k] != '*' by {
        assert(p[k] == w[k - 1]);
    }
    assert forall|q: int|
        1 <= q < 1 + n implies (#[trigger] p[q] == '?' || p[q] == t[i + (q - 1)]) by {
        assert(p[q] == w[q - 1]);
        assert(t.subrange(i, i + n)[q - 1] == t[i + (q - 1)]);
    }
    lemma_shift(t, p, i, 1, n);
    lemma_star_unfold(t, p, 0, 0);
    assert(glob_at(t, p, i, 1));
}

/// A pattern without wildcards matches exactly the text it spells; in
/// particular a text without `*` or `?` matches itself.
pub proof fn lemma_plain_pattern_matches_itself(t: Seq<char>)
    requires
        !t.contains('*'),
    ensures
        greedy_match(t, t),
{
    lemma_greedy_match_is_glob_match(t, t);
    assert forall|q: int|
        0 <= q < 0 + t.len() implies (#[trigger] t[q] == '?' || t[q] == t[0 + (q - 0)]) by {
    }
    lemma_shift(t, t, 0, 0, t.len() as int);
}

/// Greedy `*` / `?` matching of the characters `text` against `pattern`.
pub fn glob_chars(text: &Vec<char>, pattern: &Vec<char>) -> (r: bool)
    ensures
        r == greedy_match(text@, pattern@),
        !text@.contains('*') ==> r == glob_match(text@, pattern@),
{
    proof {
        if !text@.contains('*') {
            lemma_greedy_match_is_glob_match(text@, pattern@);
        }
    }
    let ghost t = text@;
    let ghost p = pattern@;
    let mut ti: usize = 0;
    let mut pi: usize = 0;
    let mut star: usize = usize::MAX;
    let mut matched: usize = 0;
    while ti < text.len()
        invariant
            t == text@,
            p == pattern@,
            greedy_state_ok(t, p, ti as int, pi as int, if star == usize::MAX { -1 } else { star as int }, matched as int),
            star != usize::MAX ==> star < pattern.len(),
            !t.contains('*') ==> greedy_match(t, p) == glob_match(t, p),
            greedy_match(t, p) == greedy_at(t, p, ti as int, pi as int, if star == usize::MAX { -1 } else { star as int }, matched as int),
        decreases text.len() - greedy_key(ti as int, if star == usize::MAX { -1 } else { star as int }, matched as int), pattern.len() - pi,
    {
        if pi < pattern.len() && (pattern[pi] == '?' || pattern[pi] == text[ti]) {
            ti = ti + 1;
            pi = pi + 1;
        } else if pi < pattern.len() && pattern[pi] == '*' {
            star = pi;
            pi = pi + 1;
            matched = ti;
        } else if star != usize::MAX {
            pi = star + 1;
            matched = matched + 1;
            ti = matched;
        } else {
            return false;
        }
    }
    while pi < pattern.len() && pattern[pi] == '*'
        invariant
            pi <= pattern.len(),
            ti == text.len(),
            t == text@,
            p == pattern@,
            greedy_match(t, p) == all_stars_from(p, pi as int),
            !t.contains('*') ==> greedy_match(t, p) == glob_match(t, p),
        decreases pattern.len() - pi,
    {
        pi = pi + 1;
    }
    pi == pattern.len()
}

} // verus!
