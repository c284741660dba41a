//! Identity rules applied at the mutation boundary: which process names may
//! be terminated at all, which live process images count as NVIDIA-owned,
//! and which service/task names carry a strong NVIDIA anchor.

use vstd::prelude::*;
use crate::components::literal_views;
use crate::text::{
    ascii_lower_seq, chars_of, contains_seq, contains_str, eq_ignore_ascii_case, lower_chars,
    lowercase, starts_seq, starts_with_str,
};
use crate::tokens::{at_boundary, is_token, next_token};
use crate::winpath::{after_last_sep, after_last_sep_chars};

verus! {

/// The historical process basenames that may be terminated.
pub open spec fn known_killable_names() -> Seq<Seq<char>> {
    literal_views(
        seq![
            "nvtelemetrycontainer.exe",
            "nvidia share.exe",
            "nvsphelper64.exe",
            "nvidia web helper.exe",
            "nvidia app.exe",
            "nvbackend.exe",
            "nvnodejslauncher.exe",
            "nvidia overlay.exe",
            "nvidia broadcast.exe",
            "nvstreamservice.exe",
            "nvstreamnetworkservice.exe",
            "nvstreamuseragent.exe",
            "frameview.exe",
            "presentmon.exe",
        ],
    )
}

/// `exe` equals one of the known killable basenames, ASCII case ignored.
pub open spec fn explicitly_killable(exe: Seq<char>) -> bool {
    exists|i: int|
        0 <= i < known_killable_names().len() && ascii_lower_seq(
            #[trigger] known_killable_names()[i],
        ) == ascii_lower_seq(exe)
}

/// Whether the process basename is one of the explicitly killable names
/// (no substring fallback).
pub fn process_name_is_explicitly_killable(exe_name: &str) -> (r: bool)
    ensures
        r == explicitly_killable(exe_name@),
{
    let names: [&str; 14] = [
        "nvtelemetrycontainer.exe",
        "nvidia share.exe",
        "nvsphelper64.exe",
        "nvidia web helper.exe",
        "nvidia app.exe",
        "nvbackend.exe",
        "nvnodejslauncher.exe",
        "nvidia overlay.exe",
        "nvidia broadcast.exe",
        "nvstreamservice.exe",
        "nvstreamnetworkservice.exe",
        "nvstreamuseragent.exe",
        "frameview.exe",
        "presentmon.exe",
    ];
    proof {
        assert(names@.map_values(|x: &str| x@) =~= known_killable_names());
    }
    let e = chars_of(exe_name);
    let mut i: usize = 0;
    while i < 14
        invariant
            i <= 14,
            e@ == exe_name@,
            names@.map_values(|x: &str| x@) == known_killable_names(),
            forall|k: int|
                0 <= k < i ==> ascii_lower_seq(#[trigger] known_killable_names()[k])
                    != ascii_lower_seq(exe_name@),
        decreases 14 - i,
    {
        let n = chars_of(names[i]);
        if eq_ignore_ascii_case(&n, &e) {
            assert(ascii_lower_seq(known_killable_names()[i as int]) == ascii_lower_seq(
                exe_name@,
            ));
            return true;
        }
        i = i + 1;
    }
    false
}

/// The live image path ends in the expected basename (ASCII case ignored)
/// and lies below a known NVIDIA installation root.
pub open spec fn image_nvidia_owned(path: Seq<char>, expected: Seq<char>) -> bool {
    let l = lowercase(path);
    &&& ascii_lower_seq(after_last_sep(path)) == ascii_lower_seq(expected)
    &&& {
        ||| contains_seq(l, ":\\program files\\nvidia corporation\\"@)
        ||| contains_seq(l, ":\\program files (x86)\\nvidia corporation\\"@)
        ||| contains_seq(l, ":\\programdata\\nvidia corporation\\"@)
        ||| contains_seq(l, ":\\programdata\\nvidia\\"@)
        ||| contains_seq(l, "\\windows\\system32\\driverstore\\filerepository\\nv"@)
    }
}

/// Whether a live process image is an approved NVIDIA target: matching
/// basename and a known NVIDIA-owned installation root. A user-created
/// folder merely named "NVIDIA Corporation" elsewhere does not qualify.
pub fn process_image_is_nvidia_owned(path: &str, expected_exe_name: &str) -> (r: bool)
    ensures
        r == image_nvidia_owned(path@, expected_exe_name@),
{
    let p = chars_of(path);
    let leaf = after_last_sep_chars(&p);
    let expected = chars_of(expected_exe_name);
    if !eq_ignore_ascii_case(&leaf, &expected) {
        return false;
    }
    let l = lower_chars(path);
    contains_str(&l, ":\\program files\\nvidia corporation\\") || contains_str(
        &l,
        ":\\program files (x86)\\nvidia corporation\\",
    ) || contains_str(&l, ":\\programdata\\nvidia corporation\\") || contains_str(
        &l,
        ":\\programdata\\nvidia\\",
    ) || contains_str(&l, "\\windows\\system32\\driverstore\\filerepository\\nv")
}

/// Token prefixes that anchor a service/task name to NVIDIA.
pub open spec fn strong_prefixes() -> Seq<Seq<char>> {
    literal_views(
        seq![
            "nvtelemetry",
            "nvtm",
            "nvprofile",
            "nvdriver",
            "nvota",
            "nvbackend",
            "nvmodule",
            "nvnode",
            "nvstream",
            "nvvad",
            "nvwmi",
            "nvcamera",
        ],
    )
}

/// The token `l[a..b]` starts with one of the strong prefixes.
pub open spec fn strong_token(l: Seq<char>, a: int, b: int) -> bool {
    exists|i: int|
        0 <= i < strong_prefixes().len() && starts_seq(
            l.subrange(a, b),
            #[trigger] strong_prefixes()[i],
        )
}

/// `text` carries a strong NVIDIA anchor: its lowercase holds `nvidia`,
/// `geforce` or `displaydriverras`, or an alphanumeric token starting with
/// one of the strong prefixes.
pub open spec fn strong_nvidia_context(text: Seq<char>) -> bool {
    let l = lowercase(text);
    ||| contains_seq(l, "nvidia"@)
    ||| contains_seq(l, "geforce"@)
    ||| contains_seq(l, "displaydriverras"@)
    ||| exists|a: int, b: int| #[trigger] is_token(l, a, b) && strong_token(l, a, b)
}

fn strong_token_exec(l: &Vec<char>, a: usize, b: usize) -> (r: bool)
    requires
        a <= b <= l.len(),
    ensures
        r == strong_token(l@, a as int, b as int),
{
    let prefixes: [&str; 12] = [
        "nvtelemetry",
        "nvtm",
        "nvprofile",
        "nvdriver",
        "nvota",
        "nvbackend",
        "nvmodule",
        "nvnode",
        "nvstream",
        "nvvad",
        "nvwmi",
        "nvcamera",
    ];
    proof {
        assert(prefixes@.map_values(|x: &str| x@) =~= strong_prefixes());
    }
    let tok = crate::winpath::sub_chars(l, a, b);
    let mut i: usize = 0;
    while i < 12
        invariant
            i <= 12,
            tok@ == l@.subrange(a as int, b as int),
            prefixes@.map_values(|x: &str| x@) == strong_prefixes(),
            forall|k: int|
                0 <= k < i ==> !starts_seq(
                    l@.subrange(a as int, b as int),
                    #[trigger] strong_prefixes()[k],
                ),
        decreases 12 - i,
    {
        if starts_with_str(&tok, prefixes[i]) {
            assert(starts_seq(l@.subrange(a as int, b as int), strong_prefixes()[i as int]));
            return true;
        }
        i = i + 1;
    }
    false
}

/// Whether a service/task name carries a strong NVIDIA anchor. An arbitrary
/// `Nv...` token plus a generic term such as `update` does not qualify.
pub fn has_strong_nvidia_named_target_context(text: &str) -> (r: bool)
    ensures
        r == strong_nvidia_context(text@),
{
    let l = lower_chars(text);
    if contains_str(&l, "nvidia") || contains_str(&l, "geforce") || contains_str(
        &l,
        "displaydriverras",
    ) {
        return true;
    }
    let mut i: usize = 0;
    while i < l.len()
        invariant
            i <= l.len(),
            l@ == lowercase(text@),
            at_boundary(l@, i as int),
            forall|a: int, b: int| a < i && #[trigger] is_token(l@, a, b) ==> !strong_token(l@, a, b),
        decreases l.len() - i,
    {
        let (s, e) = next_token(&l, i);
        if s < e && strong_token_exec(&l, s, e) {
            assert(is_token(l@, s as int, e as int));
            return true;
        }
        i = e;
    }
    false
}

} // verus!
