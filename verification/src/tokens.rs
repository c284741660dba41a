//! Alphanumeric tokens of a string: maximal runs of Unicode alphanumeric
//! characters.

use vstd::prelude::*;
use crate::text::{alphanumeric, char_is_alphanumeric};

verus! {

/// `l[a..b]` is a token: non-empty, all alphanumeric, and bounded on both
/// sides by the string's ends or non-alphanumeric characters.
pub open spec fn is_token(l: Seq<char>, a: int, b: int) -> bool {
    &&& 0 <= a < b <= l.len()
    &&& (a == 0 || !alphanumeric(l[a - 1]))
    &&& (b == l.len() || !alphanumeric(l[b]))
    &&& forall|k: int| a <= k < b ==> alphanumeric(#[trigger] l[k])
}

/// Index `i` does not fall strictly inside a token.
pub open spec fn at_boundary(l: Seq<char>, i: int) -> bool {
    i == 0 || i == l.len() || !alphanumeric(l[i - 1]) || !alphanumeric(l[i])
}

/// Locates the next token at or after the boundary `i`: returns its start
/// (the first alphanumeric index at or after `i`, or the end) and its end.
pub fn next_token(l: &Vec<char>, i: usize) -> (r: (usize, usize))
    requires
        i <= l.len(),
        at_boundary(l@, i as int),
    ensures
        i <= r.0 <= r.1 <= l.len(),
        r.1 == l.len() || !alphanumeric(l@[r.1 as int]),
        r.0 < r.1 ==> is_token(l@, r.0 as int, r.1 as int),
        r.0 == r.1 ==> r.1 == l.len(),
        forall|a: int, b: int| i <= a < r.1 && #[trigger] is_token(l@, a, b) ==> a == r.0 && b == r.1,
{
    let mut s = i;
    while s < l.len() && !char_is_alphanumeric(l[s])
        invariant
            i <= s <= l.len(),
            forall|k: int| i <= k < s ==> !alphanumeric(#[trigger] l@[k]),
        decreases l.len() - s,
    {
        s = s + 1;
    }
    let mut e = s;
    while e < l.len() && char_is_alphanumeric(l[e])
        invariant
            s <= e <= l.len(),
            forall|k: int| s <= k < e ==> alphanumeric(#[trigger] l@[k]),
        decreases l.len() - e,
    {
        e = e + 1;
    }
    proof {
        assert forall|a: int, b: int| i <= a < e && #[trigger] is_token(l@, a, b) implies a == s
            && b == e by {
            if a < s {
                assert(!alphanumeric(l@[a]));
            } else if a > s {
                assert(alphanumeric(l@[a - 1]));
            } else {
                if b < e {
                    assert(alphanumeric(l@[b]));
                }
                if b > e {
                    assert(alphanumeric(l@[e as int]));
                }
            }
        }
        if s < e {
            if s > i {
                assert(!alphanumeric(l@[s - 1]));
            } else {
                assert(alphanumeric(l@[s as int]));
            }
        }
    }
    (s, e)
}

} // verus!
