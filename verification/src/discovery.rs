//! Discovery decisions: which search roots qualify, how nested candidates
//! collapse into their enclosing directory, the per-component summary, the
//! candidates section of the log, and the tally of earlier run logs.

use vstd::prelude::*;
use crate::actions::{split_lines, text_lines};
use crate::app::{lex_lt, strictly_sorted, EnabledMap};
use crate::components::{build_components, catalog, component_views};
use crate::json::{parse_i64, parse_i64_exec};
use crate::matching::{inf_arch_marker, leaf_has_inf_arch_marker};
use crate::text::{
    char_is_whitespace, chars_of, concat2, concat3, contains_seq, ends_seq, eq_chars, eq_str,
    find_from, lower_chars, lowercase, occurs_at, starts_seq, starts_with_str, string_of_range, views,
    white_space,
};
use crate::types::{Candidate, CandidateView, ComponentView};
use crate::util::{decimal_nat, push_decimal, trim, trim_seq};
use crate::sysinfo::{join_file, join_file_exec};

verus! {

// ---------------------------------------------------------------------------
// Paths and roots
// ---------------------------------------------------------------------------

/// The lowercased text of a path.
pub fn path_lower(p: &str) -> (r: String)
    ensures
        r@ == lowercase(p@),
{
    crate::text::to_lower(p)
}

/// A DriverStore package folder scanned as a root: its lowercased name
/// starts with `nv` and carries an architecture marker.
pub open spec fn driver_store_root_leaf(name: Seq<char>) -> bool {
    starts_seq(lowercase(name), "nv"@) && inf_arch_marker(lowercase(name))
}

/// Whether a DriverStore folder name is scanned as a root.
pub fn is_driver_store_root_leaf(name: &str) -> (r: bool)
    ensures
        r == driver_store_root_leaf(name@),
{
    let l = crate::text::to_lower(name);
    let lc = chars_of(l.as_str());
    starts_with_str(&lc, "nv") && leaf_has_inf_arch_marker(l.as_str())
}

/// Profile folders that are not user profiles.
pub open spec fn skipped_profile(name: Seq<char>) -> bool {
    let l = lowercase(name);
    l == "default"@ || l == "default user"@ || l == "public"@ || l == "all users"@
}

/// Whether a folder under `Users` is skipped.
pub fn is_skipped_profile(name: &str) -> (r: bool)
    ensures
        r == skipped_profile(name@),
{
    let l = lower_chars(name);
    eq_str(&l, "default") || eq_str(&l, "default user") || eq_str(&l, "public") || eq_str(
        &l,
        "all users",
    )
}

/// Number of bytes of the UTF-8 encoding of `s`.
pub open spec fn utf8_len(s: Seq<char>) -> nat
    decreases s.len(),
{
    if s.len() == 0 {
        0
    } else {
        let c = s.last() as u32;
        utf8_len(s.drop_last()) + (if c < 0x80 {
            1nat
        } else if c < 0x800 {
            2nat
        } else if c < 0x10000 {
            3nat
        } else {
            4nat
        })
    }
}

fn utf8_len_exec(s: &Vec<char>) -> (r: u64)
    requires
        s.len() < 0x1000_0000_0000_0000,
    ensures
        r as nat == utf8_len(s@),
{
    let mut n: u64 = 0;
    let mut i: usize = 0;
    while i < s.len()
        invariant
            i <= s.len(),
            s.len() < 0x1000_0000_0000_0000,
            n as nat == utf8_len(s@.take(i as int)),
            n <= 4 * i,
        decreases s.len() - i,
    {
        let c = s[i] as u32;
        let w: u64 = if c < 0x80 {
            1
        } else if c < 0x800 {
            2
        } else if c < 0x10000 {
            3
        } else {
            4
        };
        assert(s@.take(i + 1).drop_last() =~= s@.take(i as int));
        n = n + w;
        i = i + 1;
    }
    assert(s@.take(s.len() as int) =~= s@);
    n
}

/// The system drive: the first two characters of `%SystemDrive%` (`C:`
/// when unset) when they take exactly two bytes, else `C:`.
pub open spec fn system_drive_spec(raw: Option<Seq<char>>) -> Seq<char> {
    let v = match raw {
        Some(r) => r,
        None => "C:"@,
    };
    let two = v.take(if v.len() < 2 {
        v.len() as int
    } else {
        2
    });
    if utf8_len(two) == 2 {
        two
    } else {
        "C:"@
    }
}

/// The drive holding the `Users` folder.
pub fn system_drive(raw: Option<&str>) -> (r: String)
    ensures
        r@ == system_drive_spec(
            match raw {
                Some(s) => Some(s@),
                None => None,
            },
        ),
{
    let v = match raw {
        Some(s) => chars_of(s),
        None => chars_of("C:"),
    };
    let n = if v.len() < 2 {
        v.len()
    } else {
        2
    };
    let two = string_of_range(&v, 0, n);
    let tc = chars_of(two.as_str());
    assert(tc@ =~= v@.take(n as int));
    if utf8_len_exec(&tc) == 2 {
        two
    } else {
        String::from_str("C:")
    }
}

/// The roots in increasing order (the order of `String`), each once.
pub fn sort_unique_roots(roots: &Vec<String>) -> (r: Vec<String>)
    ensures
        strictly_sorted(views(r@)),
        views(r@).to_set() == views(roots@).to_set(),
{
    let mut m = EnabledMap::new();
    let mut i: usize = 0;
    while i < roots.len()
        invariant
            i <= roots.len(),
            m@.dom() == views(roots@).take(i as int).to_set(),
        decreases roots.len() - i,
    {
        m.insert(roots[i].as_str(), true);
        proof {
            let vr = views(roots@);
            assert(vr.take(i + 1) =~= vr.take(i as int).push(vr[i as int]));
            vr.take(i as int).lemma_push_to_set_commute(vr[i as int]);
            assert(m@.dom() =~= vr.take(i + 1).to_set());
        }
        i = i + 1;
    }
    assert(views(roots@).take(roots.len() as int) =~= views(roots@));
    let n = m.len();
    let mut out: Vec<String> = Vec::new();
    let mut j: usize = 0;
    while j < n
        invariant
            j <= n,
            n == m.keys().len(),
            strictly_sorted(m.keys()),
            views(out@) == m.keys().take(j as int),
        decreases n - j,
    {
        let ghost before = views(out@);
        out.push(crate::text::copy_string(m.key_at(j)));
        assert(views(out@) =~= before.push(m.keys()[j as int]));
        assert(m.keys().take(j + 1) =~= m.keys().take(j as int).push(m.keys()[j as int]));
        j = j + 1;
    }
    assert(m.keys().take(n as int) =~= m.keys());
    proof {
        assert forall|k: Seq<char>| m.keys().to_set().contains(k) == views(roots@).to_set().contains(k) by {
            assert(m@.dom().contains(k) == m.keys().contains(k));
        }
        assert(m.keys().to_set() =~= views(roots@).to_set());
    }
    out
}

// ---------------------------------------------------------------------------
// Collapsing nested candidates
// ---------------------------------------------------------------------------

/// `parent` contains `child` or equals it, both already canonical and
/// lowercased: equal texts, or `child` starts with `parent` followed by a
/// separator (an empty `parent` contains everything).
pub open spec fn parent_or_equal(parent: Seq<char>, child: Seq<char>) -> bool {
    parent == child || starts_seq(
        child,
        if parent.len() > 0 && parent.last() != '\\' {
            parent.push('\\')
        } else {
            parent
        },
    )
}

/// Whether `parent` contains `child` or equals it.
pub fn is_parent_of_or_equal(parent: &str, child: &str) -> (r: bool)
    ensures
        r == parent_or_equal(parent@, child@),
{
    let p = chars_of(parent);
    let c = chars_of(child);
    if eq_chars(&p, &c) {
        return true;
    }
    let mut pp = p;
    if pp.len() > 0 && pp[pp.len() - 1] != '\\' {
        pp.push('\\');
    }
    crate::text::starts_with_chars(&c, &pp)
}

/// Sort key order: shorter UTF-8 text first, then by text.
pub open spec fn key_lt(a: Seq<char>, b: Seq<char>) -> bool {
    utf8_len(a) < utf8_len(b) || (utf8_len(a) == utf8_len(b) && lex_lt(a, b))
}

/// `s` with `x` inserted after every element whose key does not exceed
/// `x`'s (a stable insertion).
pub open spec fn insert_by_path(s: Seq<(CandidateView, Seq<char>)>, x: (CandidateView, Seq<char>)) -> Seq<
    (CandidateView, Seq<char>),
>
    decreases s.len(),
{
    if s.len() == 0 {
        seq![x]
    } else if key_lt(x.0.path, s.last().0.path) {
        insert_by_path(s.drop_last(), x).push(s.last())
    } else {
        s.push(x)
    }
}

/// Stable sort by path key.
pub open spec fn sort_by_path(s: Seq<(CandidateView, Seq<char>)>) -> Seq<(CandidateView, Seq<char>)>
    decreases s.len(),
{
    if s.len() == 0 {
        s
    } else {
        insert_by_path(sort_by_path(s.drop_last()), s.last())
    }
}

/// Candidates of `s` kept in order: one is dropped when a kept directory
/// contains it or equals it (by canonical path).
pub open spec fn keep_outermost(s: Seq<(CandidateView, Seq<char>)>) -> Seq<(CandidateView, Seq<char>)>
    decreases s.len(),
{
    if s.len() == 0 {
        s
    } else {
        let kept = keep_outermost(s.drop_last());
        let x = s.last();
        if exists|i: int|
            0 <= i < kept.len() && (#[trigger] kept[i]).0.is_directory && parent_or_equal(
                kept[i].1,
                x.1,
            ) {
            kept
        } else {
            kept.push(x)
        }
    }
}

/// Candidates paired with their canonical lowercased paths.
pub open spec fn paired(cands: Seq<CandidateView>, canon: Seq<Seq<char>>) -> Seq<
    (CandidateView, Seq<char>),
> {
    Seq::new(cands.len(), |i: int| (cands[i], canon[i]))
}

fn path_key_less(a: &Candidate, b: &Candidate) -> (r: bool)
    requires
        a.path@.len() < 0x1000_0000_0000_0000,
        b.path@.len() < 0x1000_0000_0000_0000,
    ensures
        r == key_lt(a.path@, b.path@),
{
    let ac = chars_of(a.path.as_str());
    let bc = chars_of(b.path.as_str());
    let la = utf8_len_exec(&ac);
    let lb = utf8_len_exec(&bc);
    la < lb || (la == lb && crate::app::lex_less(&ac, &bc))
}

proof fn lemma_insert_at(s: Seq<(CandidateView, Seq<char>)>, x: (CandidateView, Seq<char>), k: int)
    requires
        0 <= k <= s.len(),
        forall|t: int| k <= t < s.len() ==> key_lt(x.0.path, #[trigger] s[t].0.path),
        k == 0 || !key_lt(x.0.path, s[k - 1].0.path),
    ensures
        insert_by_path(s, x) == s.insert(k, x),
    decreases s.len(),
{
    if s.len() == k {
        if k == 0 {
            assert(s.insert(k, x) =~= seq![x]);
        } else {
            assert(s.insert(k, x) =~= s.push(x));
        }
    } else {
        assert(key_lt(x.0.path, s.last().0.path));
        let d = s.drop_last();
        assert forall|t: int| k <= t < d.len() implies key_lt(x.0.path, #[trigger] d[t].0.path) by {
            assert(d[t] == s[t]);
        }
        if k > 0 {
            assert(d[k - 1] == s[k - 1]);
        }
        lemma_insert_at(d, x, k);
        assert(d.insert(k, x).push(s.last()) =~= s.insert(k, x));
    }
}

spec fn pair_view(p: (Candidate, String)) -> (CandidateView, Seq<char>) {
    (p.0@, p.1@)
}

/// Drops candidates nested in (or equal to) a directory candidate:
/// candidates are ordered by path (shorter UTF-8 text first, then by text,
/// keeping the given order among equal paths) and a candidate is kept only
/// when no directory kept before it contains it. `canon[i]` is the
/// canonical, lowercased form of candidate `i`'s path.
pub fn collapse_nested_candidates(candidates: &Vec<Candidate>, canon: &Vec<String>) -> (r: Vec<Candidate>)
    requires
        canon@.len() == candidates@.len(),
        forall|i: int|
            0 <= i < candidates@.len() ==> #[trigger] candidates@[i].path@.len() < 0x1000_0000_0000_0000,
    ensures
        r@.map_values(|c: Candidate| c@) == keep_outermost(
            sort_by_path(paired(candidates@.map_values(|c: Candidate| c@), views(canon@))),
        ).map_values(|p: (CandidateView, Seq<char>)| p.0),
{
    let ghost input = paired(candidates@.map_values(|c: Candidate| c@), views(canon@));
    let mut sorted: Vec<(Candidate, String)> = Vec::new();
    let mut i: usize = 0;
    assert(input.take(0) =~= Seq::<(CandidateView, Seq<char>)>::empty());
    assert(sorted@.map_values(|p: (Candidate, String)| pair_view(p)) =~= Seq::<
        (CandidateView, Seq<char>),
    >::empty());
    while i < candidates.len()
        invariant
            i <= candidates.len(),
            canon@.len() == candidates@.len(),
            input == paired(candidates@.map_values(|c: Candidate| c@), views(canon@)),
            forall|t: int|
                0 <= t < candidates@.len() ==> #[trigger] candidates@[t].path@.len()
                    < 0x1000_0000_0000_0000,
            forall|t: int|
                0 <= t < sorted@.len() ==> #[trigger] sorted@[t].0.path@.len() < 0x1000_0000_0000_0000,
            sorted@.map_values(|p: (Candidate, String)| pair_view(p)) == sort_by_path(
                input.take(i as int),
            ),
        decreases candidates.len() - i,
    {
        let c = candidates[i].copy();
        let k = crate::text::copy_string(&canon[i]);
        let ghost x = (c@, k@);
        assert(x == input[i as int]);
        let ghost sv = sorted@.map_values(|p: (Candidate, String)| pair_view(p));
        let mut pos: usize = sorted.len();
        while pos > 0 && path_key_less(&c, &sorted[pos - 1].0)
            invariant
                pos <= sorted.len(),
                sv == sorted@.map_values(|p: (Candidate, String)| pair_view(p)),
                c@ == x.0,
                c.path@.len() < 0x1000_0000_0000_0000,
                forall|t: int|
                    0 <= t < sorted@.len() ==> #[trigger] sorted@[t].0.path@.len()
                        < 0x1000_0000_0000_0000,
                forall|t: int| pos <= t < sv.len() ==> key_lt(x.0.path, #[trigger] sv[t].0.path),
            decreases pos,
        {
            assert(sv[pos - 1] == pair_view(sorted@[pos - 1]));
            pos = pos - 1;
        }
        proof {
            if pos > 0 {
                assert(sv[pos - 1] == pair_view(sorted@[pos - 1]));
            }
            lemma_insert_at(sv, x, pos as int);
            assert(input.take(i + 1).drop_last() =~= input.take(i as int));
            assert(input.take(i + 1).last() == x);
        }
        sorted.insert(pos, (c, k));
        assert(sorted@.map_values(|p: (Candidate, String)| pair_view(p)) =~= sv.insert(pos as int, x));
        i = i + 1;
    }
    assert(input.take(candidates.len() as int) =~= input);
    let ghost ss = sorted@.map_values(|p: (Candidate, String)| pair_view(p));
    let mut kept: Vec<(Candidate, String)> = Vec::new();
    let mut j: usize = 0;
    assert(ss.take(0) =~= Seq::<(CandidateView, Seq<char>)>::empty());
    assert(kept@.map_values(|p: (Candidate, String)| pair_view(p)) =~= Seq::<
        (CandidateView, Seq<char>),
    >::empty());
    while j < sorted.len()
        invariant
            j <= sorted.len(),
            ss == sorted@.map_values(|p: (Candidate, String)| pair_view(p)),
            kept@.map_values(|p: (Candidate, String)| pair_view(p)) == keep_outermost(
                ss.take(j as int),
            ),
        decreases sorted.len() - j,
    {
        let ghost kv = kept@.map_values(|p: (Candidate, String)| pair_view(p));
        let x = &sorted[j];
        assert(ss[j as int] == pair_view(*x));
        let mut nested = false;
        let mut t: usize = 0;
        while t < kept.len()
            invariant
                t <= kept.len(),
                kv == kept@.map_values(|p: (Candidate, String)| pair_view(p)),
                nested == exists|q: int|
                    0 <= q < t && (#[trigger] kv[q]).0.is_directory && parent_or_equal(
                        kv[q].1,
                        x.1@,
                    ),
            decreases kept.len() - t,
        {
            assert(kv[t as int] == pair_view(kept@[t as int]));
            if kept[t].0.is_directory && is_parent_of_or_equal(kept[t].1.as_str(), x.1.as_str()) {
                nested = true;
            }
            t = t + 1;
        }
        assert(ss.take(j + 1).drop_last() =~= ss.take(j as int));
        assert(ss.take(j + 1).last() == pair_view(*x));
        if !nested {
            kept.push((x.0.copy(), crate::text::copy_string(&x.1)));
            assert(kept@.map_values(|p: (Candidate, String)| pair_view(p)) =~= kv.push(
                pair_view(*x),
            ));
        }
        j = j + 1;
    }
    assert(ss.take(sorted.len() as int) =~= ss);
    let ghost kf = kept@.map_values(|p: (Candidate, String)| pair_view(p));
    let mut out: Vec<Candidate> = Vec::new();
    let mut m: usize = 0;
    while m < kept.len()
        invariant
            m <= kept.len(),
            kf == kept@.map_values(|p: (Candidate, String)| pair_view(p)),
            out@.map_values(|c: Candidate| c@) == kf.map_values(
                |p: (CandidateView, Seq<char>)| p.0,
            ).take(m as int),
        decreases kept.len() - m,
    {
        let ghost before = out@.map_values(|c: Candidate| c@);
        out.push(kept[m].0.copy());
        assert(kf[m as int] == pair_view(kept@[m as int]));
        assert(out@.map_values(|c: Candidate| c@) =~= before.push(kept@[m as int].0@));
        assert(kf.map_values(|p: (CandidateView, Seq<char>)| p.0).take(m + 1) =~= kf.map_values(
            |p: (CandidateView, Seq<char>)| p.0,
        ).take(m as int).push(kf[m as int].0));
        m = m + 1;
    }
    assert(kf.map_values(|p: (CandidateView, Seq<char>)| p.0).take(kept.len() as int) =~= kf.map_values(
        |p: (CandidateView, Seq<char>)| p.0,
    ));
    out
}


// ---------------------------------------------------------------------------
// Summaries
// ---------------------------------------------------------------------------

/// Number of candidates owned by the component `key`.
pub open spec fn owned_count(cands: Seq<CandidateView>, key: Seq<char>) -> nat
    decreases cands.len(),
{
    if cands.len() == 0 {
        0
    } else {
        owned_count(cands.drop_last(), key) + (if cands.last().component_key == key {
            1nat
        } else {
            0nat
        })
    }
}

/// `key: n` lines of the first `k` catalog components.
pub open spec fn summary_lines(cands: Seq<CandidateView>, k: nat) -> Seq<char>
    decreases k,
{
    if k == 0 {
        Seq::empty()
    } else {
        let c = catalog()[k - 1];
        summary_lines(cands, (k - 1) as nat) + c.key + ": "@ + decimal_nat(owned_count(cands, c.key))
            + "\n"@
    }
}

/// `key=n` pairs of the first `k` catalog components, joined with `", "`.
pub open spec fn summary_pairs(cands: Seq<CandidateView>, k: nat) -> Seq<char>
    decreases k,
{
    if k == 0 {
        Seq::empty()
    } else {
        let c = catalog()[k - 1];
        summary_pairs(cands, (k - 1) as nat) + (if k > 1 {
            ", "@
        } else {
            Seq::empty()
        }) + c.key + "="@ + decimal_nat(owned_count(cands, c.key))
    }
}

fn owned_count_exec(cands: &Vec<Candidate>, key: &String) -> (r: u64)
    requires
        cands@.len() < u64::MAX,
    ensures
        r as nat == owned_count(cands@.map_values(|c: Candidate| c@), key@),
{
    let ghost cv = cands@.map_values(|c: Candidate| c@);
    let kc = chars_of(key.as_str());
    let mut n: u64 = 0;
    let mut i: usize = 0;
    while i < cands.len()
        invariant
            i <= cands.len(),
            cands@.len() < u64::MAX,
            cv == cands@.map_values(|c: Candidate| c@),
            kc@ == key@,
            n <= i,
            n as nat == owned_count(cv.take(i as int), key@),
        decreases cands.len() - i,
    {
        assert(cv.take(i + 1).drop_last() =~= cv.take(i as int));
        assert(cv[i as int] == cands@[i as int]@);
        let ck = chars_of(cands[i].component_key.as_str());
        if eq_chars(&ck, &kc) {
            n = n + 1;
        }
        i = i + 1;
    }
    assert(cv.take(cands.len() as int) =~= cv);
    n
}

/// The per-component summary of a discovery: the block appended to the
/// log (one `key: n` line per catalog component, in catalog order) and the
/// one-line form (`key=n, ...`), so a clean system reports 0 everywhere.
pub fn discovery_summary(cands: &Vec<Candidate>) -> (r: (String, String))
    requires
        cands@.len() < u64::MAX,
    ensures
        r.0@ == "\n==== Discovery summary by component ====\n"@ + summary_lines(
            cands@.map_values(|c: Candidate| c@),
            catalog().len(),
        ),
        r.1@ == "Discovered per component: "@ + summary_pairs(
            cands@.map_values(|c: Candidate| c@),
            catalog().len(),
        ),
{
    let ghost cv = cands@.map_values(|c: Candidate| c@);
    let comps = build_components();
    let ghost cs = component_views(comps@);
    let mut block = String::from_str("\n==== Discovery summary by component ====\n");
    let mut line = String::from_str("Discovered per component: ");
    let ghost b0 = block@;
    let ghost l0 = line@;
    let mut i: usize = 0;
    while i < comps.len()
        invariant
            i <= comps.len(),
            cands@.len() < u64::MAX,
            cv == cands@.map_values(|c: Candidate| c@),
            cs == component_views(comps@),
            cs == catalog(),
            block@ == b0 + summary_lines(cv, i as nat),
            line@ == l0 + summary_pairs(cv, i as nat),
        decreases comps.len() - i,
    {
        let c = &comps[i];
        assert(cs[i as int] == c@);
        let n = owned_count_exec(cands, &c.key);
        let mut ns = String::new();
        push_decimal(&mut ns, n);
        assert(ns@ =~= decimal_nat(n as nat));
        let a = concat3(c.key.as_str(), ": ", ns.as_str());
        let a = concat2(a.as_str(), "\n");
        block = concat2(block.as_str(), a.as_str());
        assert(block@ =~= b0 + summary_lines(cv, (i + 1) as nat));
        let sep = if i > 0 {
            ", "
        } else {
            ""
        };
        proof {
            reveal_strlit("");
        }
        let p = concat3(sep, c.key.as_str(), "=");
        let p = concat2(p.as_str(), ns.as_str());
        line = concat2(line.as_str(), p.as_str());
        assert(line@ =~= l0 + summary_pairs(cv, (i + 1) as nat));
        i = i + 1;
    }
    (block, line)
}

/// One CSV row of the candidates section.
pub open spec fn candidate_row(c: CandidateView) -> Seq<char> {
    c.component_key + ",\""@ + c.path + "\","@ + (if c.is_directory {
        "directory"@
    } else {
        "file"@
    }) + "\n"@
}

/// Rows of the first `n` candidates.
pub open spec fn candidate_rows(cands: Seq<CandidateView>, n: nat) -> Seq<char>
    decreases n,
{
    if n == 0 {
        Seq::empty()
    } else {
        candidate_rows(cands, (n - 1) as nat) + candidate_row(cands[n - 1])
    }
}

/// The candidates section appended to the run log: a header with the
/// count, the column line, and one row per candidate.
pub fn candidates_section(cands: &Vec<Candidate>) -> (r: String)
    requires
        cands@.len() < u64::MAX,
    ensures
        r@ == "==== Candidates ("@ + decimal_nat(cands@.len()) + " total) ====\n"@
            + "component,path,type\n"@ + candidate_rows(
            cands@.map_values(|c: Candidate| c@),
            cands@.len(),
        ),
{
    let ghost cv = cands@.map_values(|c: Candidate| c@);
    let mut ns = String::new();
    push_decimal(&mut ns, cands.len() as u64);
    assert(ns@ =~= decimal_nat(cands@.len()));
    let head = concat3("==== Candidates (", ns.as_str(), " total) ====\n");
    let mut out = concat2(head.as_str(), "component,path,type\n");
    let ghost o0 = out@;
    let mut i: usize = 0;
    while i < cands.len()
        invariant
            i <= cands.len(),
            cv == cands@.map_values(|c: Candidate| c@),
            out@ == o0 + candidate_rows(cv, i as nat),
        decreases cands.len() - i,
    {
        let c = &cands[i];
        assert(cv[i as int] == c@);
        let a = concat3(c.component_key.as_str(), ",\"", c.path.as_str());
        let b = concat3(
            a.as_str(),
            "\",",
            if c.is_directory {
                "directory"
            } else {
                "file"
            },
        );
        let row = concat2(b.as_str(), "\n");
        out = concat2(out.as_str(), row.as_str());
        assert(out@ =~= o0 + candidate_rows(cv, (i + 1) as nat));
        i = i + 1;
    }
    out
}

// ---------------------------------------------------------------------------
// Earlier run logs
// ---------------------------------------------------------------------------

/// Marker of a run header line; a contract across versions.
pub const RUN_HEADER_MARKER: &'static str = "run header ====";
/// Marker of the candidate-count line; a contract across versions.
pub const CANDIDATE_COUNT_MARKER: &'static str = "Candidate count: ";

/// An earlier run log beside the executable: `debloat-*.log` (name in any
/// case) that is not this run's own log.
pub open spec fn earlier_log(name: Seq<char>, path: Seq<char>, current_log: Seq<char>) -> bool {
    let low = lowercase(name);
    starts_seq(low, "debloat-"@) && ends_seq(lowercase(low), lowercase(".log"@)) && lowercase(path)
        != lowercase(current_log)
}

/// Whether a file beside the executable is an earlier run log.
pub fn is_earlier_log(name: &str, path: &str, current_log: &str) -> (r: bool)
    ensures
        r == earlier_log(name@, path@, current_log@),
{
    let low = crate::text::to_lower(name);
    let lc = chars_of(low.as_str());
    if !starts_with_str(&lc, "debloat-") || !crate::util::ends_with_no_case(low.as_str(), ".log") {
        return false;
    }
    let p = lower_chars(path);
    let c = lower_chars(current_log);
    !eq_chars(&p, &c)
}

/// Index just past the leading white space of `s` from `i` on.
pub open spec fn skip_lead_ws(s: Seq<char>, i: int) -> int
    decreases s.len() - i,
{
    if 0 <= i < s.len() && white_space(s[i]) {
        skip_lead_ws(s, i + 1)
    } else {
        i
    }
}

/// End of `s[lo..j]` once trailing white space is dropped.
pub open spec fn skip_trail_ws(s: Seq<char>, lo: int, j: int) -> int
    decreases j - lo,
{
    if lo < j && j <= s.len() && white_space(s[j - 1]) {
        skip_trail_ws(s, lo, j - 1)
    } else {
        j
    }
}

/// `s` without leading and trailing white space (`str::trim`).
pub open spec fn ws_trim(s: Seq<char>) -> Seq<char> {
    let a = skip_lead_ws(s, 0);
    s.subrange(a, skip_trail_ws(s, a, s.len() as int))
}

proof fn lemma_skip_lead_bounds(s: Seq<char>, i: int)
    requires
        0 <= i <= s.len(),
    ensures
        i <= skip_lead_ws(s, i) <= s.len(),
    decreases s.len() - i,
{
    if i < s.len() && white_space(s[i]) {
        lemma_skip_lead_bounds(s, i + 1);
    }
}

proof fn lemma_skip_trail_bounds(s: Seq<char>, lo: int, j: int)
    requires
        0 <= lo <= j <= s.len(),
    ensures
        lo <= skip_trail_ws(s, lo, j) <= j,
    decreases j - lo,
{
    if lo < j && white_space(s[j - 1]) {
        lemma_skip_trail_bounds(s, lo, j - 1);
    }
}

fn ws_trim_exec(s: &Vec<char>) -> (r: String)
    ensures
        r@ == ws_trim(s@),
{
    let mut a: usize = 0;
    while a < s.len() && char_is_whitespace(s[a])
        invariant
            a <= s.len(),
            skip_lead_ws(s@, 0) == skip_lead_ws(s@, a as int),
        decreases s.len() - a,
    {
        a = a + 1;
    }
    let mut b: usize = s.len();
    while a < b && char_is_whitespace(s[b - 1])
        invariant
            a <= b <= s.len(),
            skip_trail_ws(s@, a as int, s.len() as int) == skip_trail_ws(s@, a as int, b as int),
        decreases b - a,
    {
        b = b - 1;
    }
    string_of_range(s, a, b)
}

/// The count on one line: after the first candidate-count marker, white
/// space and then the trimming of [`crate::util::trim`] are dropped, and
/// the rest must parse as an `i64`.
pub open spec fn line_count(line: Seq<char>) -> Option<int> {
    let m = CANDIDATE_COUNT_MARKER@;
    let pos = crate::json::find_sub(line, 0, m);
    if pos < 0 {
        None
    } else {
        parse_i64(trim_seq(ws_trim(line.subrange(pos + m.len(), line.len() as int))))
    }
}

/// Run headers and candidate counts in the first `n` lines: the number of
/// lines holding the run-header marker, and the sum (wrapping, as `i64`) of
/// the counts that parse.
pub open spec fn log_tally(lines: Seq<Seq<char>>, n: nat) -> (nat, i64)
    decreases n,
{
    if n == 0 {
        (0, 0)
    } else {
        let (runs, sum) = log_tally(lines, (n - 1) as nat);
        let line = lines[n - 1];
        let runs2 = runs + (if contains_seq(line, RUN_HEADER_MARKER@) {
            1nat
        } else {
            0nat
        });
        let sum2 = match line_count(line) {
            Some(v) => sum.wrapping_add(v as i64),
            None => sum,
        };
        (runs2, sum2)
    }
}

fn line_count_exec(line: &Vec<char>) -> (r: Option<i64>)
    ensures
        match line_count(line@) {
            Some(v) => r is Some && r->0 as int == v,
            None => r is None,
        },
{
    let m = chars_of(CANDIDATE_COUNT_MARKER);
    proof {
        reveal_strlit("Candidate count: ");
    }
    match crate::json::find_sub_exec(line, 0, &m) {
        None => None,
        Some(pos) => {
            proof {
                crate::json::lemma_find_sub_bounds(line@, 0, m@);
            }
            assert(crate::json::find_sub(line@, 0, m@) == pos as int);
            assert(pos as int <= line@.len() - m@.len());
            assert(m@.len() == m.len());
            assert(pos + m.len() <= line.len());
            let tail = string_of_range(line, pos + m.len(), line.len());
            let t1 = ws_trim_exec(&chars_of(tail.as_str()));
            let t2 = trim(t1.as_str());
            let tc = chars_of(t2.as_str());
            assert(tc@.subrange(0, tc@.len() as int) =~= tc@);
            crate::json::parse_i64_exec(&tc, 0, tc.len())
        },
    }
}

/// Run headers and the sum of candidate counts recorded in one earlier log.
pub fn tally_log_text(text: &str) -> (r: (u64, i64))
    ensures
        r.0 as nat == log_tally(text_lines(text@), text_lines(text@).len()).0,
        r.1 == log_tally(text_lines(text@), text_lines(text@).len()).1,
{
    let lines = split_lines(text);
    let ghost lv = views(lines@);
    let marker = chars_of(RUN_HEADER_MARKER);
    let mut runs: u64 = 0;
    let mut sum: i64 = 0;
    let mut i: usize = 0;
    while i < lines.len()
        invariant
            i <= lines.len(),
            lv == views(lines@),
            lv == text_lines(text@),
            marker@ == RUN_HEADER_MARKER@,
            runs <= i,
            runs as nat == log_tally(lv, i as nat).0,
            sum == log_tally(lv, i as nat).1,
        decreases lines.len() - i,
    {
        let l = chars_of(lines[i].as_str());
        assert(lv[i as int] == l@);
        if crate::text::contains_chars(&l, &marker) {
            runs = runs + 1;
        }
        match line_count_exec(&l) {
            Some(v) => {
                sum = sum.wrapping_add(v);
            },
            None => {},
        }
        i = i + 1;
    }
    (runs, sum)
}

/// History of earlier runs found beside the executable.
pub struct HistoryTally {
    pub log_files: i64,
    pub runs: i64,
    pub candidates: i64,
}

impl HistoryTally {
    /// No earlier log seen yet.
    pub fn new() -> (r: HistoryTally)
        ensures
            r.log_files == 0,
            r.runs == 0,
            r.candidates == 0,
    {
        HistoryTally { log_files: 0, runs: 0, candidates: 0 }
    }

    /// Counts one more earlier log with its text (counters wrap as `i64`).
    pub fn add_log(&mut self, text: &str)
        ensures
            final(self).log_files == old(self).log_files.wrapping_add(1),
            final(self).runs == old(self).runs.wrapping_add(
                log_tally(text_lines(text@), text_lines(text@).len()).0 as i64,
            ),
            final(self).candidates == old(self).candidates.wrapping_add(
                log_tally(text_lines(text@), text_lines(text@).len()).1,
            ),
    {
        let (runs, sum) = tally_log_text(text);
        self.log_files = self.log_files.wrapping_add(1);
        self.runs = self.runs.wrapping_add(runs as i64);
        self.candidates = self.candidates.wrapping_add(sum);
    }

    /// The previous-run history log line.
    pub fn history_line(&self) -> (r: String)
        ensures
            self.log_files == 0 ==> r@
                == "Previous-run history: no earlier debloat-*.log files beside the executable."@,
            self.log_files != 0 ==> r@ == "Previous-run history: "@ + crate::util::decimal(
                self.log_files as int,
            ) + " earlier log file(s), "@ + crate::util::decimal(self.runs as int)
                + " recorded run(s), "@ + crate::util::decimal(self.candidates as int)
                + " candidate paths discovered across them (see those logs for the exact paths)."@,
    {
        if self.log_files == 0 {
            return String::from_str(
                "Previous-run history: no earlier debloat-*.log files beside the executable.",
            );
        }
        let a = concat3(
            "Previous-run history: ",
            crate::util::i64_to_decimal(self.log_files).as_str(),
            " earlier log file(s), ",
        );
        let b = concat3(
            a.as_str(),
            crate::util::i64_to_decimal(self.runs).as_str(),
            " recorded run(s), ",
        );
        concat3(
            b.as_str(),
            crate::util::i64_to_decimal(self.candidates).as_str(),
            " candidate paths discovered across them (see those logs for the exact paths).",
        )
    }
}


// ---------------------------------------------------------------------------
// Search roots
// ---------------------------------------------------------------------------

/// `base` joined with `suffix` as a root to look at, when the environment
/// value `base` is set and not empty.
pub open spec fn env_root(base: Option<Seq<char>>, suffix: Seq<char>) -> Seq<Seq<char>> {
    match base {
        Some(b) => if b.len() > 0 {
            seq![join_file(b, suffix)]
        } else {
            Seq::empty()
        },
        None => Seq::empty(),
    }
}

fn env_root_exec(base: Option<&str>, suffix: &str, out: &mut Vec<String>)
    ensures
        views(final(out)@) == views(old(out)@) + env_root(
            match base {
                Some(b) => Some(b@),
                None => None,
            },
            suffix@,
        ),
{
    let ghost before = views(out@);
    match base {
        Some(b) => {
            if chars_of(b).len() > 0 {
                out.push(join_file_exec(b, suffix));
                proof {
                    assert(views(out@) =~= before + seq![join_file(b@, suffix@)]);
                }
            } else {
                proof {
                    assert(views(out@) =~= before + Seq::<Seq<char>>::empty());
                }
            }
        },
        None => {
            proof {
                assert(views(out@) =~= before + Seq::<Seq<char>>::empty());
            }
        },
    }
}

/// The fixed install roots to look at, from the values of `ProgramFiles`,
/// `ProgramFiles(x86)` and `ProgramData`: the `NVIDIA Corporation` folders
/// under both program folders, then the `NVIDIA` and `NVIDIA Corporation`
/// folders under the program data folder. Unset or empty values give no
/// root.
pub fn install_root_candidates(
    program_files: Option<&str>,
    program_files_x86: Option<&str>,
    program_data: Option<&str>,
) -> (r: Vec<String>)
    ensures
        ({
            let pf = match program_files {
                Some(b) => Some(b@),
                None => None,
            };
            let px = match program_files_x86 {
                Some(b) => Some(b@),
                None => None,
            };
            let pd = match program_data {
                Some(b) => Some(b@),
                None => None,
            };
            views(r@) == env_root(pf, "NVIDIA Corporation"@) + env_root(px, "NVIDIA Corporation"@)
                + env_root(pd, "NVIDIA"@) + env_root(pd, "NVIDIA Corporation"@)
        }),
{
    let mut out: Vec<String> = Vec::new();
    proof {
        assert(views(out@) =~= Seq::<Seq<char>>::empty());
    }
    env_root_exec(program_files, "NVIDIA Corporation", &mut out);
    env_root_exec(program_files_x86, "NVIDIA Corporation", &mut out);
    env_root_exec(program_data, "NVIDIA", &mut out);
    env_root_exec(program_data, "NVIDIA Corporation", &mut out);
    proof {
        let a = env_root(
            match program_files {
                Some(b) => Some(b@),
                None => None,
            },
            "NVIDIA Corporation"@,
        );
        assert(Seq::<Seq<char>>::empty() + a =~= a);
    }
    out
}

/// The DriverStore package repository under the Windows folder
/// `system_root`.
pub fn driver_store_repository(system_root: &str) -> (r: String)
    ensures
        r@ == join_file(join_file(join_file(system_root@, "System32"@), "DriverStore"@), "FileRepository"@),
{
    let a = join_file_exec(system_root, "System32");
    let b = join_file_exec(a.as_str(), "DriverStore");
    join_file_exec(b.as_str(), "FileRepository")
}

/// The folder holding the user profiles on the system drive `drive` (as
/// [`system_drive`] gives it): the absolute `<drive>\Users`, never the
/// drive-relative `<drive>Users`.
pub fn users_root(drive: &str) -> (r: String)
    ensures
        r@ == drive@ + "\\Users"@,
{
    concat2(drive, "\\Users")
}

/// The NVIDIA folders to look at inside one user profile: `AppData\Local`
/// and `AppData\Roaming`, each with `NVIDIA` and `NVIDIA Corporation`.
pub fn profile_root_candidates(profile: &str) -> (r: Vec<String>)
    ensures
        ({
            let local = join_file(join_file(profile@, "AppData"@), "Local"@);
            let roaming = join_file(join_file(profile@, "AppData"@), "Roaming"@);
            views(r@) == seq![
                join_file(local, "NVIDIA"@),
                join_file(local, "NVIDIA Corporation"@),
                join_file(roaming, "NVIDIA"@),
                join_file(roaming, "NVIDIA Corporation"@),
            ]
        }),
{
    let app_data = join_file_exec(profile, "AppData");
    let local = join_file_exec(app_data.as_str(), "Local");
    let roaming = join_file_exec(app_data.as_str(), "Roaming");
    let mut out: Vec<String> = Vec::new();
    out.push(join_file_exec(local.as_str(), "NVIDIA"));
    out.push(join_file_exec(local.as_str(), "NVIDIA Corporation"));
    out.push(join_file_exec(roaming.as_str(), "NVIDIA"));
    out.push(join_file_exec(roaming.as_str(), "NVIDIA Corporation"));
    proof {
        assert(views(out@) =~= seq![
            join_file(join_file(join_file(profile@, "AppData"@), "Local"@), "NVIDIA"@),
            join_file(join_file(join_file(profile@, "AppData"@), "Local"@), "NVIDIA Corporation"@),
            join_file(join_file(join_file(profile@, "AppData"@), "Roaming"@), "NVIDIA"@),
            join_file(join_file(join_file(profile@, "AppData"@), "Roaming"@), "NVIDIA Corporation"@),
        ]);
    }
    out
}

} // verus!
