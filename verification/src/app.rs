//! Run-wide constants (version, exit codes, task prefix) and the
//! component-selection map.

use vstd::prelude::*;
use crate::text::{chars_of, copy_string, views};

verus! {

pub const RBK_VERSION: &'static str = "2.0.1";
pub const GPD_VERSION: &'static str = RBK_VERSION;

/// Scheduled-task name prefix for TrustedInstaller relaunch artifacts.
pub const K_TI_TASK_PREFIX: &'static str = "NvDebloatTI-";

// Exit codes (contract surface: CLI callers + parent/child handoff).
pub const EXIT_OK: i32 = 0;
pub const EXIT_FATAL_EXCEPTION: i32 = 1;
pub const EXIT_FATAL_UNKNOWN: i32 = 2;
pub const EXIT_ABORTED: i32 = 3;
pub const EXIT_TI_RELAUNCH_FAILED: i32 = 10;
pub const EXIT_TI_CHILD_FAILED: i32 = 11;
pub const EXIT_ALREADY_RUNNING: i32 = 12;
/// Invalid or unknown command-line argument rejected before any mutation.
pub const EXIT_BAD_ARGS: i32 = 13;

// ---------------------------------------------------------------------------
// Lexicographic order of strings (the order of `String`'s `Ord`)
// ---------------------------------------------------------------------------

/// `a` sorts strictly before `b`, comparing characters by code point.
pub open spec fn lex_lt(a: Seq<char>, b: Seq<char>) -> bool
    decreases a.len(),
{
    if a.len() == 0 {
        b.len() > 0
    } else if b.len() == 0 {
        false
    } else if a[0] != b[0] {
        a[0] < b[0]
    } else {
        lex_lt(a.drop_first(), b.drop_first())
    }
}

/// Keys in strictly increasing order.
pub open spec fn strictly_sorted(ks: Seq<Seq<char>>) -> bool {
    forall|i: int, j: int| 0 <= i < j < ks.len() ==> lex_lt(#[trigger] ks[i], #[trigger] ks[j])
}

/// `lex_lt` is irreflexive.
pub proof fn lemma_lex_irreflexive(a: Seq<char>)
    ensures
        !lex_lt(a, a),
    decreases a.len(),
{
    if a.len() > 0 {
        lemma_lex_irreflexive(a.drop_first());
    }
}

/// `lex_lt` is transitive.
pub proof fn lemma_lex_transitive(a: Seq<char>, b: Seq<char>, c: Seq<char>)
    requires
        lex_lt(a, b),
        lex_lt(b, c),
    ensures
        lex_lt(a, c),
    decreases a.len(),
{
    if a.len() > 0 && b.len() > 0 && c.len() > 0 && a[0] == b[0] && b[0] == c[0] {
        lemma_lex_transitive(a.drop_first(), b.drop_first(), c.drop_first());
    }
}

/// Two different strings are ordered one way or the other.
pub proof fn lemma_lex_total(a: Seq<char>, b: Seq<char>)
    requires
        a != b,
    ensures
        lex_lt(a, b) || lex_lt(b, a),
    decreases a.len(),
{
    if a.len() > 0 && b.len() > 0 && a[0] == b[0] {
        if a.drop_first() == b.drop_first() {
            assert(a =~= seq![a[0]] + a.drop_first());
            assert(b =~= seq![b[0]] + b.drop_first());
            assert(a =~= b);
        } else {
            lemma_lex_total(a.drop_first(), b.drop_first());
        }
    } else if a.len() == 0 && b.len() == 0 {
        assert(a =~= b);
    }
}

/// Whether `a` sorts strictly before `b`.
pub fn lex_less(a: &Vec<char>, b: &Vec<char>) -> (r: bool)
    ensures
        r == lex_lt(a@, b@),
{
    let mut i: usize = 0;
    assert(a@.skip(0) =~= a@);
    assert(b@.skip(0) =~= b@);
    while i < a.len() && i < b.len() && a[i] == b[i]
        invariant
            i <= a.len(),
            i <= b.len(),
            lex_lt(a@, b@) == lex_lt(a@.skip(i as int), b@.skip(i as int)),
        decreases a.len() - i,
    {
        assert(a@.skip(i as int).drop_first() =~= a@.skip(i + 1));
        assert(b@.skip(i as int).drop_first() =~= b@.skip(i + 1));
        i = i + 1;
    }
    if i == a.len() {
        i < b.len()
    } else if i == b.len() {
        false
    } else {
        a[i] < b[i]
    }
}

// ---------------------------------------------------------------------------
// Component selection
// ---------------------------------------------------------------------------

/// Component key to "selected" flag, kept in key order.
pub struct EnabledMap {
    keys: Vec<String>,
    vals: Vec<bool>,
}

impl EnabledMap {
    /// The keys, in increasing order.
    pub closed spec fn keys(&self) -> Seq<Seq<char>> {
        views(self.keys@)
    }

    /// The flags, in key order.
    pub closed spec fn vals(&self) -> Seq<bool> {
        self.vals@
    }

    #[verifier::type_invariant]
    closed spec fn well_formed(&self) -> bool {
        &&& self.keys@.len() == self.vals@.len()
        &&& strictly_sorted(self.keys())
    }

    /// An empty selection.
    pub fn new() -> (r: EnabledMap)
        ensures
            r@ == Map::<Seq<char>, bool>::empty(),
            r.keys() == Seq::<Seq<char>>::empty(),
    {
        let r = EnabledMap { keys: Vec::new(), vals: Vec::new() };
        assert(r.keys() =~= Seq::<Seq<char>>::empty());
        assert(r@ =~= Map::<Seq<char>, bool>::empty());
        r
    }

    /// Number of entries.
    pub fn len(&self) -> (n: usize)
        ensures
            n == self.keys().len(),
            n == self.vals().len(),
            strictly_sorted(self.keys()),
    {
        proof {
            use_type_invariant(self);
        }
        self.keys.len()
    }

    /// The key of entry `i`.
    pub fn key_at(&self, i: usize) -> (k: &String)
        requires
            i < self.keys().len(),
        ensures
            k@ == self.keys()[i as int],
    {
        &self.keys[i]
    }

    /// The flag of entry `i`.
    pub fn value_at(&self, i: usize) -> (v: bool)
        requires
            i < self.vals().len(),
        ensures
            v == self.vals()[i as int],
    {
        self.vals[i]
    }

    /// Sets the flag of entry `i`, keeping every key.
    pub fn set_value_at(&mut self, i: usize, v: bool)
        requires
            i < old(self).vals().len(),
        ensures
            final(self).keys() == old(self).keys(),
            final(self).vals() == old(self).vals().update(i as int, v),
    {
        proof {
            use_type_invariant(&*self);
        }
        let mut vals = copy_bools(&self.vals);
        vals.set(i, v);
        self.vals = vals;
    }

    /// The flag of `key`, if present.
    pub fn get(&self, key: &str) -> (r: Option<bool>)
        ensures
            r == (if self@.dom().contains(key@) {
                Some(self@[key@])
            } else {
                None
            }),
    {
        proof {
            use_type_invariant(self);
        }
        let kv = chars_of(key);
        let mut i: usize = 0;
        while i < self.keys.len()
            invariant
                i <= self.keys@.len(),
                self.keys@.len() == self.vals@.len(),
                strictly_sorted(self.keys()),
                kv@ == key@,
                forall|j: int| 0 <= j < i ==> self.keys()[j] != key@,
            decreases self.keys.len() - i,
        {
            let ki = chars_of(self.keys[i].as_str());
            if crate::text::eq_chars(&ki, &kv) {
                proof {
                    self.lemma_index_of(i as int);
                }
                return Some(self.vals[i]);
            }
            i = i + 1;
        }
        None
    }

    proof fn lemma_index_of(&self, i: int)
        requires
            0 <= i < self.keys().len(),
            strictly_sorted(self.keys()),
        ensures
            self.keys().index_of(self.keys()[i]) == i,
    {
        let ks = self.keys();
        assert(ks.contains(ks[i]));
        let j = ks.index_of(ks[i]);
        if j != i {
            if j < i {
                assert(lex_lt(ks[j], ks[i]));
            } else {
                assert(lex_lt(ks[i], ks[j]));
            }
            lemma_lex_irreflexive(ks[i]);
        }
    }

    /// Sets the flag of `key`, adding the key in order when it is new.
    pub fn insert(&mut self, key: &str, value: bool)
        ensures
            final(self)@ == old(self)@.insert(key@, value),
    {
        proof {
            use_type_invariant(&*self);
        }
        let kv = chars_of(key);
        let ghost ks0 = self.keys();
        let ghost vs0 = self.vals();
        let mut pos: usize = 0;
        let mut done = false;
        while !done && pos < self.keys.len()
            invariant
                pos <= self.keys@.len(),
                done ==> pos < ks0.len() && !lex_lt(ks0[pos as int], key@),
                self.keys@.len() == self.vals@.len(),
                self.keys() == ks0,
                self.vals() == vs0,
                strictly_sorted(ks0),
                kv@ == key@,
                forall|j: int| 0 <= j < pos ==> lex_lt(#[trigger] ks0[j], key@),
            decreases self.keys.len() - pos + (if done { 0int } else { 1int }),
        {
            let kp = chars_of(self.keys[pos].as_str());
            if !lex_less(&kp, &kv) {
                done = true;
            } else {
                pos = pos + 1;
            }
        }
        if pos < self.keys.len() {
            let kp = chars_of(self.keys[pos].as_str());
            if crate::text::eq_chars(&kp, &kv) {
                let mut vals = copy_bools(&self.vals);
                vals.set(pos, value);
                self.vals = vals;
                proof {
                    assert(ks0[pos as int] == key@);
                    assert forall|k: Seq<char>| #[trigger] self@.dom().contains(k)
                        == old(self)@.insert(key@, value).dom().contains(k) by {
                        if k == key@ {
                            assert(self.keys()[pos as int] == k);
                        }
                    }
                    assert forall|k: Seq<char>| self@.dom().contains(k) implies self@[k]
                        == old(self)@.insert(key@, value)[k] by {
                        let i = ks0.index_of(k);
                        self.lemma_index_of(i);
                        if k == key@ {
                            self.lemma_index_of(pos as int);
                        }
                    }
                    assert(self@ =~= old(self)@.insert(key@, value));
                }
                return;
            }
        }
        proof {
            if pos < ks0.len() {
                assert(!lex_lt(ks0[pos as int], key@));
                assert(ks0[pos as int] != key@);
                lemma_lex_total(ks0[pos as int], key@);
            }
        }
        let mut keys = crate::types::copy_strings(&self.keys);
        let mut vals = copy_bools(&self.vals);
        assert(keys@.len() == views(keys@).len());
        keys.insert(pos, String::from_str(key));
        vals.insert(pos, value);
        proof {
            assert(views(keys@) =~= ks0.insert(pos as int, key@));
            assert forall|i: int, j: int| 0 <= i < j < views(keys@).len() implies lex_lt(
                #[trigger] views(keys@)[i],
                #[trigger] views(keys@)[j],
            ) by {
                let ks = views(keys@);
                if j < pos {
                } else if j == pos {
                    assert(lex_lt(ks0[i], key@));
                } else if i < pos {
                    assert(lex_lt(ks0[i], key@));
                    assert(lex_lt(key@, ks0[pos as int]));
                    if j - 1 > pos {
                        assert(lex_lt(ks0[pos as int], ks0[j - 1]));
                        lemma_lex_transitive(key@, ks0[pos as int], ks0[j - 1]);
                    }
                    lemma_lex_transitive(ks0[i], key@, ks0[j - 1]);
                } else if i == pos {
                    if j - 1 > pos {
                        assert(lex_lt(ks0[pos as int], ks0[j - 1]));
                        lemma_lex_transitive(key@, ks0[pos as int], ks0[j - 1]);
                    }
                } else {
                    assert(lex_lt(ks0[i - 1], ks0[j - 1]));
                }
            }
        }
        *self = EnabledMap { keys, vals };
        proof {
            let ks = self.keys();
            assert(ks =~= ks0.insert(pos as int, key@));
            assert forall|k: Seq<char>| #[trigger] self@.dom().contains(k)
                == old(self)@.insert(key@, value).dom().contains(k) by {
                if k != key@ && ks0.contains(k) {
                    let i = choose|i: int| 0 <= i < ks0.len() && ks0[i] == k;
                    if i < pos {
                        assert(ks[i] == k);
                    } else {
                        assert(ks[i + 1] == k);
                    }
                }
                if k == key@ {
                    assert(ks[pos as int] == k);
                }
            }
            assert forall|k: Seq<char>| self@.dom().contains(k) implies self@[k] == old(
                self,
            )@.insert(key@, value)[k] by {
                let i = ks.index_of(k);
                self.lemma_index_of(i);
                if k != key@ {
                    let i0 = ks0.index_of(k);
                    old(self).lemma_index_of(i0);
                    if i0 < pos {
                        assert(ks[i0] == k);
                        self.lemma_index_of(i0);
                    } else {
                        assert(ks[i0 + 1] == k);
                        self.lemma_index_of(i0 + 1);
                    }
                } else {
                    assert(ks[pos as int] == k);
                    self.lemma_index_of(pos as int);
                }
            }
            assert(self@ =~= old(self)@.insert(key@, value));
        }
    }

    /// A copy of this selection.
    pub fn copy(&self) -> (r: EnabledMap)
        ensures
            r@ == self@,
            r.keys() == self.keys(),
            r.vals() == self.vals(),
    {
        proof {
            use_type_invariant(self);
        }
        let keys = crate::types::copy_strings(&self.keys);
        let vals = copy_bools(&self.vals);
        assert(keys@.len() == views(keys@).len());
        assert(self.keys@.len() == views(self.keys@).len());
        EnabledMap { keys, vals }
    }
}

impl View for EnabledMap {
    type V = Map<Seq<char>, bool>;

    open spec fn view(&self) -> Map<Seq<char>, bool> {
        Map::new(
            |k: Seq<char>| self.keys().contains(k),
            |k: Seq<char>| self.vals()[self.keys().index_of(k)],
        )
    }
}

fn copy_bools(v: &Vec<bool>) -> (r: Vec<bool>)
    ensures
        r@ == v@,
{
    let mut r: Vec<bool> = Vec::new();
    let mut i: usize = 0;
    while i < v.len()
        invariant
            i <= v.len(),
            r@ == v@.take(i as int),
        decreases v.len() - i,
    {
        r.push(v[i]);
        i = i + 1;
        assert(r@ =~= v@.take(i as int));
    }
    assert(v@.take(v@.len() as int) =~= v@);
    r
}

/// `key` is selected in `m` (absent keys are not).
pub open spec fn is_enabled(m: Map<Seq<char>, bool>, key: Seq<char>) -> bool {
    m.dom().contains(key) && m[key]
}


// ---------------------------------------------------------------------------
// Abort relay
// ---------------------------------------------------------------------------

/// Prefix of the named event relaying an abort request across the UAC
/// boundary.
pub const ABORT_EVENT_PREFIX: &'static str = "Local\\RustyButterKnife_Abort_";

/// A relay event name: the prefix, then a nonempty run of ASCII hex digits
/// and dashes.
pub open spec fn valid_abort_event(raw: Seq<char>) -> bool {
    let p = ABORT_EVENT_PREFIX@;
    &&& crate::text::starts_seq(raw, p)
    &&& raw.len() > p.len()
    &&& forall|i: int|
        p.len() <= i < raw.len() ==> (crate::text::is_hex_digit(#[trigger] raw[i]) || raw[i] == '-')
}

/// The relay event name when it is well formed, `None` otherwise (only
/// such names are ever opened).
pub fn validated_abort_event(raw: &str) -> (r: Option<String>)
    ensures
        (r is Some) == valid_abort_event(raw@),
        r is Some ==> r->0@ == raw@,
{
    let c = chars_of(raw);
    let p = chars_of(ABORT_EVENT_PREFIX);
    if !crate::text::starts_with_chars(&c, &p) || c.len() <= p.len() {
        return None;
    }
    let mut i: usize = p.len();
    while i < c.len()
        invariant
            p@ == ABORT_EVENT_PREFIX@,
            c@ == raw@,
            p.len() <= i <= c.len(),
            forall|j: int|
                p.len() <= j < i ==> (crate::text::is_hex_digit(#[trigger] c@[j]) || c@[j] == '-'),
        decreases c.len() - i,
    {
        let ch = c[i];
        let ok = ('0' <= ch && ch <= '9') || ('a' <= ch && ch <= 'f') || ('A' <= ch && ch <= 'F')
            || ch == '-';
        if !ok {
            return None;
        }
        i = i + 1;
    }
    Some(String::from_str(raw))
}

} // verus!
