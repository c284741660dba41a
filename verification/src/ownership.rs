//! Which component owns a process, a service, a scheduled task, a loaded
//! module or a file: each name, and the component it belongs to, written
//! out in full.

use vstd::prelude::*;
use crate::matching::{
    component_hit, excluded_candidate, exact_hit, first_contained, first_equal, first_hit, glob_hit,
    matched_component_index, module_globs, module_is_telemetry, name_term_keys, name_terms,
    named_target_key, process_key, process_name_keys, process_names,
};
use crate::glob::{greedy_match, lemma_plain_pattern_matches_itself, lemma_star_word_star_matches};
use crate::text::{all_ascii, ascii_lower_seq, contains_seq, lowercase, occurs_at};
use crate::winpath::leaf_of;
use crate::app::is_enabled;
use crate::components::catalog;
use crate::types::ComponentView;

verus! {

// ---------------------------------------------------------------------------
// Killable processes
// ---------------------------------------------------------------------------

proof fn reveal_process_table()
    ensures
        process_names() =~= seq![
            "nvtelemetrycontainer.exe"@,
            "nvidia share.exe"@,
            "nvsphelper64.exe"@,
            "nvidia web helper.exe"@,
            "nvidia app.exe"@,
            "nvbackend.exe"@,
            "nvnodejslauncher.exe"@,
            "nvidia overlay.exe"@,
            "nvidia broadcast.exe"@,
            "nvstreamservice.exe"@,
            "nvstreamnetworkservice.exe"@,
            "nvstreamuseragent.exe"@,
            "frameview.exe"@,
            "presentmon.exe"@,
        ],
        process_name_keys() =~= seq![
            "Telemetry"@,
            "ShadowPlayShare"@,
            "ShadowPlayShare"@,
            "GeForceExperienceAndNvidiaApp"@,
            "GeForceExperienceAndNvidiaApp"@,
            "GeForceExperienceAndNvidiaApp"@,
            "GeForceExperienceAndNvidiaApp"@,
            "GeForceExperienceAndNvidiaApp"@,
            "GeForceExperienceAndNvidiaApp"@,
            "Shield"@,
            "Shield"@,
            "Shield"@,
            "FrameView"@,
            "FrameView"@,
        ],
{
}

/// `first_equal` from `k` finds `j` when `s[j]` is the first entry from `k`
/// on equal to `x`.
proof fn lemma_first_equal_finds(s: Seq<Seq<char>>, x: Seq<char>, k: int, j: int)
    requires
        0 <= k <= j < s.len(),
        s[j] == x,
        forall|q: int| k <= q < j ==> s[q] != x,
    ensures
        first_equal(s, x, k) == j,
    decreases j - k,
{
    if k < j {
        lemma_first_equal_finds(s, x, k + 1, j);
    }
}

/// Distinct table names: each pair differs in length or in its third
/// character.
proof fn lemma_process_names_distinct()
    ensures
        forall|a: int, b: int|
            0 <= a < b < process_names().len() ==> #[trigger] process_names()[a]
                != #[trigger] process_names()[b],
{
    reveal_process_table();
    reveal_strlit("nvtelemetrycontainer.exe");
    reveal_strlit("nvidia share.exe");
    reveal_strlit("nvsphelper64.exe");
    reveal_strlit("nvidia web helper.exe");
    reveal_strlit("nvidia app.exe");
    reveal_strlit("nvbackend.exe");
    reveal_strlit("nvnodejslauncher.exe");
    reveal_strlit("nvidia overlay.exe");
    reveal_strlit("nvidia broadcast.exe");
    reveal_strlit("nvstreamservice.exe");
    reveal_strlit("nvstreamnetworkservice.exe");
    reveal_strlit("nvstreamuseragent.exe");
    reveal_strlit("frameview.exe");
    reveal_strlit("presentmon.exe");
    let t = process_names();
    assert forall|a: int, b: int|
        0 <= a < b < t.len() implies #[trigger] t[a] != #[trigger] t[b] by {
        if t[a].len() == t[b].len() {
            assert(t[a][2] != t[b][2] || t[a][3] != t[b][3] || t[a][8] != t[b][8]);
        }
    }
}

/// The key the table gives to the name at `j`.
proof fn lemma_process_key_at(exe: Seq<char>, j: int)
    requires
        0 <= j < process_names().len(),
        lowercase(exe) == process_names()[j],
    ensures
        process_key(exe) == Some(process_name_keys()[j]),
{
    lemma_process_names_distinct();
    let t = process_names();
    assert forall|q: int| 0 <= q < j implies t[q] != lowercase(exe) by {
        assert(t[q] != t[j]);
    }
    lemma_first_equal_finds(t, lowercase(exe), 0, j);
}

/// `nvtelemetrycontainer.exe` belongs to the `Telemetry` component, whatever
/// its letter case.
pub proof fn lemma_telemetry_process_owned_by_telemetry(exe: Seq<char>)
    requires
        lowercase(exe) == "nvtelemetrycontainer.exe"@,
    ensures
        process_key(exe) == Some("Telemetry"@),
{
    reveal_process_table();
    lemma_process_key_at(exe, 0);
}

/// The ShadowPlay / Share processes (`nvidia share.exe`, `nvsphelper64.exe`)
/// belong to the `ShadowPlayShare` component, whatever their letter case.
pub proof fn lemma_share_processes_owned_by_shadowplay(exe: Seq<char>)
    requires
        lowercase(exe) == "nvidia share.exe"@ || lowercase(exe) == "nvsphelper64.exe"@,
    ensures
        process_key(exe) == Some("ShadowPlayShare"@),
{
    reveal_process_table();
    if lowercase(exe) == "nvidia share.exe"@ {
        lemma_process_key_at(exe, 1);
    } else {
        lemma_process_key_at(exe, 2);
    }
}

/// The GeForce Experience / NVIDIA App processes (web helper, app, backend,
/// node launcher, overlay, broadcast) belong to the
/// `GeForceExperienceAndNvidiaApp` component, whatever their letter case.
pub proof fn lemma_app_processes_owned_by_app(exe: Seq<char>)
    requires
        lowercase(exe) == "nvidia web helper.exe"@ || lowercase(exe) == "nvidia app.exe"@
            || lowercase(exe) == "nvbackend.exe"@ || lowercase(exe) == "nvnodejslauncher.exe"@
            || lowercase(exe) == "nvidia overlay.exe"@ || lowercase(exe) == "nvidia broadcast.exe"@,
    ensures
        process_key(exe) == Some("GeForceExperienceAndNvidiaApp"@),
{
    reveal_process_table();
    let l = lowercase(exe);
    if l == "nvidia web helper.exe"@ {
        lemma_process_key_at(exe, 3);
    } else if l == "nvidia app.exe"@ {
        lemma_process_key_at(exe, 4);
    } else if l == "nvbackend.exe"@ {
        lemma_process_key_at(exe, 5);
    } else if l == "nvnodejslauncher.exe"@ {
        lemma_process_key_at(exe, 6);
    } else if l == "nvidia overlay.exe"@ {
        lemma_process_key_at(exe, 7);
    } else {
        lemma_process_key_at(exe, 8);
    }
}

/// The GameStream processes (`nvstreamservice.exe`,
/// `nvstreamnetworkservice.exe`, `nvstreamuseragent.exe`) belong to the
/// `Shield` component, whatever their letter case.
pub proof fn lemma_stream_processes_owned_by_shield(exe: Seq<char>)
    requires
        lowercase(exe) == "nvstreamservice.exe"@ || lowercase(exe) == "nvstreamnetworkservice.exe"@
            || lowercase(exe) == "nvstreamuseragent.exe"@,
    ensures
        process_key(exe) == Some("Shield"@),
{
    reveal_process_table();
    let l = lowercase(exe);
    if l == "nvstreamservice.exe"@ {
        lemma_process_key_at(exe, 9);
    } else if l == "nvstreamnetworkservice.exe"@ {
        lemma_process_key_at(exe, 10);
    } else {
        lemma_process_key_at(exe, 11);
    }
}

/// `frameview.exe` and `presentmon.exe` belong to the `FrameView` component,
/// whatever their letter case.
pub proof fn lemma_frameview_processes_owned_by_frameview(exe: Seq<char>)
    requires
        lowercase(exe) == "frameview.exe"@ || lowercase(exe) == "presentmon.exe"@,
    ensures
        process_key(exe) == Some("FrameView"@),
{
    reveal_process_table();
    if lowercase(exe) == "frameview.exe"@ {
        lemma_process_key_at(exe, 12);
    } else {
        lemma_process_key_at(exe, 13);
    }
}

// ---------------------------------------------------------------------------
// Services and scheduled tasks
// ---------------------------------------------------------------------------

/// The lowercase of `name` contains `word`.
pub open spec fn mentions(name: Seq<char>, word: Seq<char>) -> bool {
    contains_seq(lowercase(name), word)
}

proof fn reveal_name_table()
    ensures
        name_terms() =~= seq![
            "telemetry"@,
            "displaydriverras"@,
            "profileupdater"@,
            "profile updater"@,
            "update"@,
            "frameview"@,
            "presentmon"@,
            "shadowplay"@,
            "share"@,
            "nvstream"@,
            "ansel"@,
            "nvvad"@,
            "nvwmi"@,
            "nvidia app"@,
            "geforce experience"@,
            "broadcast"@,
            "geforce"@,
        ],
        name_term_keys() =~= seq![
            "Telemetry"@,
            "Telemetry"@,
            "UpdateAndProfileUpdater"@,
            "UpdateAndProfileUpdater"@,
            "UpdateAndProfileUpdater"@,
            "FrameView"@,
            "FrameView"@,
            "ShadowPlayShare"@,
            "ShadowPlayShare"@,
            "Shield"@,
            "AnselCamera"@,
            "VirtualAudio"@,
            "NvWMI"@,
            "GeForceExperienceAndNvidiaApp"@,
            "GeForceExperienceAndNvidiaApp"@,
            "GeForceExperienceAndNvidiaApp"@,
            "GeForceExperienceAndNvidiaApp"@,
        ],
{
}

/// `first_contained` from `k` finds `j` when `s[j]` is the first entry from
/// `k` on contained in `l`.
proof fn lemma_first_contained_finds(s: Seq<Seq<char>>, l: Seq<char>, k: int, j: int)
    requires
        0 <= k <= j < s.len(),
        contains_seq(l, s[j]),
        forall|q: int| k <= q < j ==> !contains_seq(l, #[trigger] s[q]),
    ensures
        first_contained(s, l, k) == j,
    decreases j - k,
{
    if k < j {
        lemma_first_contained_finds(s, l, k + 1, j);
    }
}

/// The key the term table gives to the term at `j`, for a name that
/// mentions it and none of the terms before it.
proof fn lemma_named_key_at(name: Seq<char>, j: int)
    requires
        0 <= j < name_terms().len(),
        mentions(name, name_terms()[j]),
        forall|q: int| 0 <= q < j ==> !mentions(name, #[trigger] name_terms()[q]),
    ensures
        named_target_key(name) == Some(name_term_keys()[j]),
{
    lemma_first_contained_finds(name_terms(), lowercase(name), 0, j);
}

/// Text that contains `profileupdater` or `profile updater` contains
/// `update`.
proof fn lemma_profile_updater_mentions_update(name: Seq<char>)
    ensures
        mentions(name, "profileupdater"@) ==> mentions(name, "update"@),
        mentions(name, "profile updater"@) ==> mentions(name, "update"@),
{
    reveal_strlit("profileupdater");
    reveal_strlit("profile updater");
    reveal_strlit("update");
    let l = lowercase(name);
    if mentions(name, "profileupdater"@) {
        let i = choose|i: int| #[trigger] occurs_at(l, "profileupdater"@, i);
        assert(l.subrange(i + 7, i + 13) =~= "update"@) by {
            assert("profileupdater"@.subrange(7, 13) =~= "update"@);
            assert(l.subrange(i, i + 14) =~= "profileupdater"@);
            assert(l.subrange(i + 7, i + 13) =~= l.subrange(i, i + 14).subrange(7, 13));
        }
        assert(occurs_at(l, "update"@, i + 7));
    }
    if mentions(name, "profile updater"@) {
        let i = choose|i: int| #[trigger] occurs_at(l, "profile updater"@, i);
        assert(l.subrange(i + 8, i + 14) =~= "update"@) by {
            assert("profile updater"@.subrange(8, 14) =~= "update"@);
            assert(l.subrange(i, i + 15) =~= "profile updater"@);
            assert(l.subrange(i + 8, i + 14) =~= l.subrange(i, i + 15).subrange(8, 14));
        }
        assert(occurs_at(l, "update"@, i + 8));
    }
}

/// A service or task whose name mentions `telemetry`, or
/// `displaydriverras`, belongs to the `Telemetry` component.
pub proof fn lemma_telemetry_names_owned_by_telemetry(name: Seq<char>)
    requires
        mentions(name, "telemetry"@) || mentions(name, "displaydriverras"@),
    ensures
        named_target_key(name) == Some("Telemetry"@),
{
    reveal_name_table();
    if mentions(name, "telemetry"@) {
        lemma_named_key_at(name, 0);
    } else {
        lemma_named_key_at(name, 1);
    }
}

/// A service or task whose name mentions `update` (so also
/// `profileupdater` and `profile updater`), and neither `telemetry` nor
/// `displaydriverras`, belongs to the `UpdateAndProfileUpdater` component.
pub proof fn lemma_update_names_owned_by_updater(name: Seq<char>)
    requires
        mentions(name, "update"@),
        !mentions(name, "telemetry"@),
        !mentions(name, "displaydriverras"@),
    ensures
        named_target_key(name) == Some("UpdateAndProfileUpdater"@),
{
    reveal_name_table();
    if mentions(name, "profileupdater"@) {
        lemma_named_key_at(name, 2);
    } else if mentions(name, "profile updater"@) {
        lemma_named_key_at(name, 3);
    } else {
        lemma_named_key_at(name, 4);
    }
}

/// A service or task whose name mentions `frameview` or `presentmon`, and
/// none of `telemetry`, `displaydriverras`, `update`, belongs to the
/// `FrameView` component.
pub proof fn lemma_frameview_names_owned_by_frameview(name: Seq<char>)
    requires
        mentions(name, "frameview"@) || mentions(name, "presentmon"@),
        !mentions(name, "telemetry"@),
        !mentions(name, "displaydriverras"@),
        !mentions(name, "update"@),
    ensures
        named_target_key(name) == Some("FrameView"@),
{
    reveal_name_table();
    lemma_profile_updater_mentions_update(name);
    if mentions(name, "frameview"@) {
        lemma_named_key_at(name, 5);
    } else {
        lemma_named_key_at(name, 6);
    }
}

/// A service or task whose name mentions `shadowplay` or `share`, and none
/// of `telemetry`, `displaydriverras`, `update`, `frameview`, `presentmon`,
/// belongs to the `ShadowPlayShare` component.
pub proof fn lemma_share_names_owned_by_shadowplay(name: Seq<char>)
    requires
        mentions(name, "shadowplay"@) || mentions(name, "share"@),
        !mentions(name, "telemetry"@),
        !mentions(name, "displaydriverras"@),
        !mentions(name, "update"@),
        !mentions(name, "frameview"@),
        !mentions(name, "presentmon"@),
    ensures
        named_target_key(name) == Some("ShadowPlayShare"@),
{
    reveal_name_table();
    lemma_profile_updater_mentions_update(name);
    if mentions(name, "shadowplay"@) {
        lemma_named_key_at(name, 7);
    } else {
        lemma_named_key_at(name, 8);
    }
}

/// A service or task whose name mentions `nvstream`, and none of
/// `telemetry`, `displaydriverras`, `update`, `frameview`, `presentmon`,
/// `shadowplay`, `share`, belongs to the `Shield` component.
pub proof fn lemma_stream_names_owned_by_shield(name: Seq<char>)
    requires
        mentions(name, "nvstream"@),
        !mentions(name, "telemetry"@),
        !mentions(name, "displaydriverras"@),
        !mentions(name, "update"@),
        !mentions(name, "frameview"@),
        !mentions(name, "presentmon"@),
        !mentions(name, "shadowplay"@),
        !mentions(name, "share"@),
    ensures
        named_target_key(name) == Some("Shield"@),
{
    reveal_name_table();
    lemma_profile_updater_mentions_update(name);
    lemma_named_key_at(name, 9);
}

/// A service or task whose name mentions `ansel`, and none of the earlier
/// words (`telemetry`, `displaydriverras`, `update`, `frameview`,
/// `presentmon`, `shadowplay`, `share`, `nvstream`), belongs to the
/// `AnselCamera` component.
pub proof fn lemma_ansel_names_owned_by_ansel(name: Seq<char>)
    requires
        mentions(name, "ansel"@),
        !mentions(name, "telemetry"@),
        !mentions(name, "displaydriverras"@),
        !mentions(name, "update"@),
        !mentions(name, "frameview"@),
        !mentions(name, "presentmon"@),
        !mentions(name, "shadowplay"@),
        !mentions(name, "share"@),
        !mentions(name, "nvstream"@),
    ensures
        named_target_key(name) == Some("AnselCamera"@),
{
    reveal_name_table();
    lemma_profile_updater_mentions_update(name);
    lemma_named_key_at(name, 10);
}

/// A service or task whose name mentions `nvvad`, and none of the earlier
/// words (`telemetry`, `displaydriverras`, `update`, `frameview`,
/// `presentmon`, `shadowplay`, `share`, `nvstream`, `ansel`), belongs to the
/// `VirtualAudio` component.
pub proof fn lemma_nvvad_names_owned_by_virtual_audio(name: Seq<char>)
    requires
        mentions(name, "nvvad"@),
        !mentions(name, "telemetry"@),
        !mentions(name, "displaydriverras"@),
        !mentions(name, "update"@),
        !mentions(name, "frameview"@),
        !mentions(name, "presentmon"@),
        !mentions(name, "shadowplay"@),
        !mentions(name, "share"@),
        !mentions(name, "nvstream"@),
        !mentions(name, "ansel"@),
    ensures
        named_target_key(name) == Some("VirtualAudio"@),
{
    reveal_name_table();
    lemma_profile_updater_mentions_update(name);
    lemma_named_key_at(name, 11);
}

/// A service or task whose name mentions `nvwmi`, and none of the earlier
/// words (`telemetry`, `displaydriverras`, `update`, `frameview`,
/// `presentmon`, `shadowplay`, `share`, `nvstream`, `ansel`, `nvvad`),
/// belongs to the `NvWMI` component.
pub proof fn lemma_nvwmi_names_owned_by_nvwmi(name: Seq<char>)
    requires
        mentions(name, "nvwmi"@),
        !mentions(name, "telemetry"@),
        !mentions(name, "displaydriverras"@),
        !mentions(name, "update"@),
        !mentions(name, "frameview"@),
        !mentions(name, "presentmon"@),
        !mentions(name, "shadowplay"@),
        !mentions(name, "share"@),
        !mentions(name, "nvstream"@),
        !mentions(name, "ansel"@),
        !mentions(name, "nvvad"@),
    ensures
        named_target_key(name) == Some("NvWMI"@),
{
    reveal_name_table();
    lemma_profile_updater_mentions_update(name);
    lemma_named_key_at(name, 12);
}

/// A service or task whose name mentions `nvidia app`, `broadcast` or
/// `geforce` (so also `geforce experience`), and none of the earlier words
/// (`telemetry`, `displaydriverras`, `update`, `frameview`, `presentmon`,
/// `shadowplay`, `share`, `nvstream`, `ansel`, `nvvad`, `nvwmi`), belongs to
/// the `GeForceExperienceAndNvidiaApp` component.
pub proof fn lemma_app_names_owned_by_app(name: Seq<char>)
    requires
        mentions(name, "nvidia app"@) || mentions(name, "broadcast"@) || mentions(name, "geforce"@),
        !mentions(name, "telemetry"@),
        !mentions(name, "displaydriverras"@),
        !mentions(name, "update"@),
        !mentions(name, "frameview"@),
        !mentions(name, "presentmon"@),
        !mentions(name, "shadowplay"@),
        !mentions(name, "share"@),
        !mentions(name, "nvstream"@),
        !mentions(name, "ansel"@),
        !mentions(name, "nvvad"@),
        !mentions(name, "nvwmi"@),
    ensures
        named_target_key(name) == Some("GeForceExperienceAndNvidiaApp"@),
{
    reveal_name_table();
    lemma_profile_updater_mentions_update(name);
    if mentions(name, "nvidia app"@) {
        lemma_named_key_at(name, 13);
    } else if mentions(name, "geforce experience"@) {
        lemma_named_key_at(name, 14);
    } else if mentions(name, "broadcast"@) {
        lemma_named_key_at(name, 15);
    } else {
        lemma_named_key_at(name, 16);
    }
}

// ---------------------------------------------------------------------------
// Loaded modules
// ---------------------------------------------------------------------------

/// The lowercase of an ASCII glob `*Word*` is `*word*`.
proof fn lemma_lower_star_glob(g: Seq<char>, w: Seq<char>)
    requires
        g.len() == w.len() + 2,
        g[0] == '*',
        g[g.len() - 1] == '*',
        forall|k: int| 0 <= k < w.len() ==> (#[trigger] g[k + 1] as u32) < 128,
        forall|k: int| 0 <= k < w.len() ==> crate::text::ascii_lower(#[trigger] g[k + 1]) == w[k],
    ensures
        lowercase(g) == seq!['*'] + w + seq!['*'],
{
    assert forall|i: int| 0 <= i < g.len() implies (#[trigger] g[i] as u32) < 128 by {
        if 0 < i < g.len() - 1 {
            assert(g[(i - 1) + 1] as u32 == g[i] as u32);
        }
    }
    assert(all_ascii(g));
    let t = seq!['*'] + w + seq!['*'];
    assert forall|i: int| 0 <= i < g.len() implies #[trigger] ascii_lower_seq(g)[i] == t[i] by {
        if 0 < i < g.len() - 1 {
            assert(g[(i - 1) + 1] == g[i]);
            assert(t[i] == w[i - 1]);
        }
    }
    assert(ascii_lower_seq(g) =~= t);
}

/// The three wildcard module globs, lowercased.
proof fn lemma_module_star_globs()
    ensures
        lowercase(module_globs()[0]) == seq!['*'] + "telemetry"@ + seq!['*'],
        lowercase(module_globs()[6]) == seq!['*'] + "profileupdater"@ + seq!['*'],
        lowercase(module_globs()[7]) == seq!['*'] + "driverupdate"@ + seq!['*'],
        module_globs().len() == 8,
{
    reveal_strlit("*Telemetry*");
    reveal_strlit("telemetry");
    reveal_strlit("*ProfileUpdater*");
    reveal_strlit("profileupdater");
    reveal_strlit("*DriverUpdate*");
    reveal_strlit("driverupdate");
    assert(module_globs()[0] == "*Telemetry*"@);
    assert(module_globs()[6] == "*ProfileUpdater*"@);
    assert(module_globs()[7] == "*DriverUpdate*"@);
    lemma_lower_star_glob("*Telemetry*"@, "telemetry"@);
    lemma_lower_star_glob("*ProfileUpdater*"@, "profileupdater"@);
    lemma_lower_star_glob("*DriverUpdate*"@, "driverupdate"@);
}

/// The lowercase of an ASCII name is its character-wise ASCII lowercase.
proof fn lemma_lower_ascii_name(g: Seq<char>, w: Seq<char>)
    requires
        g.len() == w.len(),
        forall|k: int| 0 <= k < g.len() ==> (#[trigger] g[k] as u32) < 128,
        forall|k: int| 0 <= k < g.len() ==> crate::text::ascii_lower(#[trigger] g[k]) == w[k],
    ensures
        lowercase(g) == w,
{
    assert(all_ascii(g));
    assert(ascii_lower_seq(g) =~= w);
}

/// The five plainly named modules (`_DisplayDriverRAS.dll`,
/// `_NvMsgBusBroadcast.dll`, `_nvtopps.dll`, `_NvGSTPlugin.dll`,
/// `nvprofileupdaterplugin.dll`), in any letter case, are reported as
/// telemetry or updater modules.
pub proof fn lemma_named_modules_detected(path: Seq<char>)
    requires
        lowercase(leaf_of(path)) == "_displaydriverras.dll"@
            || lowercase(leaf_of(path)) == "_nvmsgbusbroadcast.dll"@
            || lowercase(leaf_of(path)) == "_nvtopps.dll"@
            || lowercase(leaf_of(path)) == "_nvgstplugin.dll"@
            || lowercase(leaf_of(path)) == "nvprofileupdaterplugin.dll"@,
    ensures
        module_is_telemetry(path),
{
    let t = lowercase(leaf_of(path));
    reveal_strlit("_DisplayDriverRAS.dll");
    reveal_strlit("_displaydriverras.dll");
    reveal_strlit("_NvMsgBusBroadcast.dll");
    reveal_strlit("_nvmsgbusbroadcast.dll");
    reveal_strlit("_nvtopps.dll");
    reveal_strlit("_NvGSTPlugin.dll");
    reveal_strlit("_nvgstplugin.dll");
    reveal_strlit("nvprofileupdaterplugin.dll");
    if t == "_displaydriverras.dll"@ {
        assert(module_globs()[1] == "_DisplayDriverRAS.dll"@);
        lemma_lower_ascii_name("_DisplayDriverRAS.dll"@, "_displaydriverras.dll"@);
        lemma_plain_pattern_matches_itself(t);
        assert(greedy_match(t, lowercase(module_globs()[1])));
    } else if t == "_nvmsgbusbroadcast.dll"@ {
        assert(module_globs()[2] == "_NvMsgBusBroadcast.dll"@);
        lemma_lower_ascii_name("_NvMsgBusBroadcast.dll"@, "_nvmsgbusbroadcast.dll"@);
        lemma_plain_pattern_matches_itself(t);
        assert(greedy_match(t, lowercase(module_globs()[2])));
    } else if t == "_nvtopps.dll"@ {
        assert(module_globs()[3] == "_nvtopps.dll"@);
        lemma_lower_ascii_name("_nvtopps.dll"@, "_nvtopps.dll"@);
        lemma_plain_pattern_matches_itself(t);
        assert(greedy_match(t, lowercase(module_globs()[3])));
    } else if t == "_nvgstplugin.dll"@ {
        assert(module_globs()[4] == "_NvGSTPlugin.dll"@);
        lemma_lower_ascii_name("_NvGSTPlugin.dll"@, "_nvgstplugin.dll"@);
        lemma_plain_pattern_matches_itself(t);
        assert(greedy_match(t, lowercase(module_globs()[4])));
    } else if t == "nvprofileupdaterplugin.dll"@ {
        assert(module_globs()[5] == "nvprofileupdaterplugin.dll"@);
        lemma_lower_ascii_name("nvprofileupdaterplugin.dll"@, "nvprofileupdaterplugin.dll"@);
        lemma_plain_pattern_matches_itself(t);
        assert(greedy_match(t, lowercase(module_globs()[5])));
    }
}

/// A loaded module whose file name mentions `telemetry`, `profileupdater`
/// or `driverupdate`, in any letter case, is reported as a telemetry or
/// updater module. (A name that also holds a literal `*`, which no Windows
/// file name can, is left out: the matcher reads that `*` as text.)
pub proof fn lemma_updater_modules_detected(path: Seq<char>)
    requires
        mentions(leaf_of(path), "telemetry"@) || mentions(leaf_of(path), "profileupdater"@)
            || mentions(leaf_of(path), "driverupdate"@),
        !lowercase(leaf_of(path)).contains('*'),
    ensures
        module_is_telemetry(path),
{
    reveal_strlit("telemetry");
    reveal_strlit("profileupdater");
    reveal_strlit("driverupdate");
    lemma_module_star_globs();
    let t = lowercase(leaf_of(path));
    if mentions(leaf_of(path), "telemetry"@) {
        lemma_star_word_star_matches(t, "telemetry"@);
        assert(greedy_match(t, lowercase(module_globs()[0])));
    } else if mentions(leaf_of(path), "profileupdater"@) {
        lemma_star_word_star_matches(t, "profileupdater"@);
        assert(greedy_match(t, lowercase(module_globs()[6])));
    } else {
        lemma_star_word_star_matches(t, "driverupdate"@);
        assert(greedy_match(t, lowercase(module_globs()[7])));
    }
}

// ---------------------------------------------------------------------------
// Files
// ---------------------------------------------------------------------------

/// Letter case never changes whether a component's leaf names or leaf globs
/// claim an ASCII file name: two names that differ only in case are
/// claimed alike.
pub proof fn lemma_leaf_case_never_changes_hit(
    c: ComponentView,
    l1: Seq<char>,
    l2: Seq<char>,
    full: Seq<char>,
)
    requires
        all_ascii(l1),
        all_ascii(l2),
        ascii_lower_seq(l1) == ascii_lower_seq(l2),
    ensures
        component_hit(c, l1, full) == component_hit(c, l2, full),
{
    assert(lowercase(l1) == lowercase(l2));
    assert(exact_hit(c, l1) == exact_hit(c, l2));
    assert(glob_hit(c, l1) == glob_hit(c, l2));
}

/// Letter case never changes which component claims an ASCII file name:
/// from any catalog position on, two names that differ only in case are
/// claimed by the same component (or by none).
pub proof fn lemma_leaf_case_never_changes_claim(
    cat: Seq<ComponentView>,
    m: Map<Seq<char>, bool>,
    l1: Seq<char>,
    l2: Seq<char>,
    full: Seq<char>,
    k: int,
)
    requires
        all_ascii(l1),
        all_ascii(l2),
        ascii_lower_seq(l1) == ascii_lower_seq(l2),
    ensures
        first_hit(cat, m, l1, full, k) == first_hit(cat, m, l2, full, k),
    decreases cat.len() - k,
{
    if 0 <= k < cat.len() {
        lemma_leaf_case_never_changes_hit(cat[k], l1, l2, full);
        lemma_leaf_case_never_changes_claim(cat, m, l1, l2, full, k + 1);
    }
}

/// A file whose name mentions `telemetry`, in any letter case, is claimed by
/// the `Telemetry` component (the first catalog entry) whenever that
/// component is selected and the path passes the safety exclusions. (A name
/// that also holds a literal `*`, which no Windows file name can, is left
/// out: the matcher reads that `*` as text.)
pub proof fn lemma_telemetry_files_claimed(p: Seq<char>, m: Map<Seq<char>, bool>)
    requires
        is_enabled(m, "Telemetry"@),
        !excluded_candidate(p, m),
        mentions(leaf_of(p), "telemetry"@),
        !lowercase(leaf_of(p)).contains('*'),
    ensures
        catalog()[0].key == "Telemetry"@,
        matched_component_index(p, m) == 0,
{
    reveal_strlit("*Telemetry*");
    reveal_strlit("telemetry");
    let c = catalog()[0];
    assert(c.key == "Telemetry"@);
    assert(c.leaf_globs[0] == "*Telemetry*"@);
    lemma_lower_star_glob("*Telemetry*"@, "telemetry"@);
    let t = lowercase(leaf_of(p));
    lemma_star_word_star_matches(t, "telemetry"@);
    assert(greedy_match(t, lowercase(c.leaf_globs[0])));
    assert(glob_hit(c, leaf_of(p)));
    assert(component_hit(c, leaf_of(p), p));
}

/// A leaf glob `*word*` of a component claims every file name that mentions
/// `word`, in any letter case, and holds no literal `*`.
proof fn lemma_star_glob_claims(
    c: ComponentView,
    i: int,
    w: Seq<char>,
    leaf: Seq<char>,
    full: Seq<char>,
)
    requires
        0 <= i < c.leaf_globs.len(),
        lowercase(c.leaf_globs[i]) == seq!['*'] + w + seq!['*'],
        !w.contains('*'),
        mentions(leaf, w),
        !lowercase(leaf).contains('*'),
    ensures
        component_hit(c, leaf, full),
{
    lemma_star_word_star_matches(lowercase(leaf), w);
    assert(greedy_match(lowercase(leaf), lowercase(c.leaf_globs[i])));
    assert(glob_hit(c, leaf));
}

/// A file whose name mentions `profileupdater`, `driverupdate`, `nvota`,
/// `nvbackend`, `nvmoduletracker`, `nvgftrayplugin` or `nvnodelauncher`, in
/// any letter case, is claimed by the `UpdateAndProfileUpdater` component. (A
/// name that also holds a literal `*`, which no Windows file name can, is
/// left out.)
pub proof fn lemma_updater_files_claimed(leaf: Seq<char>, full: Seq<char>)
    requires
        mentions(leaf, "profileupdater"@) || mentions(leaf, "driverupdate"@)
            || mentions(leaf, "nvota"@) || mentions(leaf, "nvbackend"@)
            || mentions(leaf, "nvmoduletracker"@) || mentions(leaf, "nvgftrayplugin"@)
            || mentions(leaf, "nvnodelauncher"@),
        !lowercase(leaf).contains('*'),
    ensures
        catalog()[1].key == "UpdateAndProfileUpdater"@,
        component_hit(catalog()[1], leaf, full),
{
    let c = catalog()[1];
    reveal_strlit("*ProfileUpdater*");
    reveal_strlit("profileupdater");
    reveal_strlit("*DriverUpdate*");
    reveal_strlit("driverupdate");
    reveal_strlit("*NvOTA*");
    reveal_strlit("nvota");
    reveal_strlit("*NvBackend*");
    reveal_strlit("nvbackend");
    reveal_strlit("*NvModuleTracker*");
    reveal_strlit("nvmoduletracker");
    reveal_strlit("*NvGFTrayPlugin*");
    reveal_strlit("nvgftrayplugin");
    reveal_strlit("*NvNodeLauncher*");
    reveal_strlit("nvnodelauncher");
    assert(c.key == "UpdateAndProfileUpdater"@);
    if mentions(leaf, "profileupdater"@) {
        assert(c.leaf_globs[1] == "*ProfileUpdater*"@);
        lemma_lower_star_glob("*ProfileUpdater*"@, "profileupdater"@);
        lemma_star_glob_claims(c, 1, "profileupdater"@, leaf, full);
    } else if mentions(leaf, "driverupdate"@) {
        assert(c.leaf_globs[2] == "*DriverUpdate*"@);
        lemma_lower_star_glob("*DriverUpdate*"@, "driverupdate"@);
        lemma_star_glob_claims(c, 2, "driverupdate"@, leaf, full);
    } else if mentions(leaf, "nvota"@) {
        assert(c.leaf_globs[3] == "*NvOTA*"@);
        lemma_lower_star_glob("*NvOTA*"@, "nvota"@);
        lemma_star_glob_claims(c, 3, "nvota"@, leaf, full);
    } else if mentions(leaf, "nvbackend"@) {
        assert(c.leaf_globs[4] == "*NvBackend*"@);
        lemma_lower_star_glob("*NvBackend*"@, "nvbackend"@);
        lemma_star_glob_claims(c, 4, "nvbackend"@, leaf, full);
    } else if mentions(leaf, "nvmoduletracker"@) {
        assert(c.leaf_globs[5] == "*NvModuleTracker*"@);
        lemma_lower_star_glob("*NvModuleTracker*"@, "nvmoduletracker"@);
        lemma_star_glob_claims(c, 5, "nvmoduletracker"@, leaf, full);
    } else if mentions(leaf, "nvgftrayplugin"@) {
        assert(c.leaf_globs[6] == "*NvGFTrayPlugin*"@);
        lemma_lower_star_glob("*NvGFTrayPlugin*"@, "nvgftrayplugin"@);
        lemma_star_glob_claims(c, 6, "nvgftrayplugin"@, leaf, full);
    } else if mentions(leaf, "nvnodelauncher"@) {
        assert(c.leaf_globs[7] == "*NvNodeLauncher*"@);
        lemma_lower_star_glob("*NvNodeLauncher*"@, "nvnodelauncher"@);
        lemma_star_glob_claims(c, 7, "nvnodelauncher"@, leaf, full);
    }
}

/// A file whose name mentions `geforce experience`, `gfexperience`, `nvidia
/// web helper` or `nvbackend`, in any letter case, is claimed by the
/// `GeForceExperienceAndNvidiaApp` component. (A name that also holds a
/// literal `*`, which no Windows file name can, is left out.)
pub proof fn lemma_app_files_claimed(leaf: Seq<char>, full: Seq<char>)
    requires
        mentions(leaf, "geforce experience"@) || mentions(leaf, "gfexperience"@)
            || mentions(leaf, "nvidia web helper"@) || mentions(leaf, "nvbackend"@),
        !lowercase(leaf).contains('*'),
    ensures
        catalog()[3].key == "GeForceExperienceAndNvidiaApp"@,
        component_hit(catalog()[3], leaf, full),
{
    let c = catalog()[3];
    reveal_strlit("*GeForce Experience*");
    reveal_strlit("geforce experience");
    reveal_strlit("*GFExperience*");
    reveal_strlit("gfexperience");
    reveal_strlit("*NVIDIA Web Helper*");
    reveal_strlit("nvidia web helper");
    reveal_strlit("*NvBackend*");
    reveal_strlit("nvbackend");
    assert(c.key == "GeForceExperienceAndNvidiaApp"@);
    if mentions(leaf, "geforce experience"@) {
        assert(c.leaf_globs[0] == "*GeForce Experience*"@);
        lemma_lower_star_glob("*GeForce Experience*"@, "geforce experience"@);
        lemma_star_glob_claims(c, 0, "geforce experience"@, leaf, full);
    } else if mentions(leaf, "gfexperience"@) {
        assert(c.leaf_globs[1] == "*GFExperience*"@);
        lemma_lower_star_glob("*GFExperience*"@, "gfexperience"@);
        lemma_star_glob_claims(c, 1, "gfexperience"@, leaf, full);
    } else if mentions(leaf, "nvidia web helper"@) {
        assert(c.leaf_globs[2] == "*NVIDIA Web Helper*"@);
        lemma_lower_star_glob("*NVIDIA Web Helper*"@, "nvidia web helper"@);
        lemma_star_glob_claims(c, 2, "nvidia web helper"@, leaf, full);
    } else if mentions(leaf, "nvbackend"@) {
        assert(c.leaf_globs[4] == "*NvBackend*"@);
        lemma_lower_star_glob("*NvBackend*"@, "nvbackend"@);
        lemma_star_glob_claims(c, 4, "nvbackend"@, leaf, full);
    }
}

/// A file whose name mentions `shadowplay`, in any letter case, is claimed by
/// the `ShadowPlayShare` component. (A name that also holds a literal `*`,
/// which no Windows file name can, is left out.)
pub proof fn lemma_shadowplay_files_claimed(leaf: Seq<char>, full: Seq<char>)
    requires
        mentions(leaf, "shadowplay"@),
        !lowercase(leaf).contains('*'),
    ensures
        catalog()[4].key == "ShadowPlayShare"@,
        component_hit(catalog()[4], leaf, full),
{
    let c = catalog()[4];
    reveal_strlit("*ShadowPlay*");
    reveal_strlit("shadowplay");
    assert(c.key == "ShadowPlayShare"@);
    if mentions(leaf, "shadowplay"@) {
        assert(c.leaf_globs[0] == "*ShadowPlay*"@);
        lemma_lower_star_glob("*ShadowPlay*"@, "shadowplay"@);
        lemma_star_glob_claims(c, 0, "shadowplay"@, leaf, full);
    }
}

/// A file whose name mentions `ansel`, in any letter case, is claimed by the
/// `AnselCamera` component. (A name that also holds a literal `*`, which no
/// Windows file name can, is left out.)
pub proof fn lemma_ansel_camera_files_claimed(leaf: Seq<char>, full: Seq<char>)
    requires
        mentions(leaf, "ansel"@),
        !lowercase(leaf).contains('*'),
    ensures
        catalog()[6].key == "AnselCamera"@,
        component_hit(catalog()[6], leaf, full),
{
    let c = catalog()[6];
    reveal_strlit("*Ansel*");
    reveal_strlit("ansel");
    assert(c.key == "AnselCamera"@);
    if mentions(leaf, "ansel"@) {
        assert(c.leaf_globs[1] == "*Ansel*"@);
        lemma_lower_star_glob("*Ansel*"@, "ansel"@);
        lemma_star_glob_claims(c, 1, "ansel"@, leaf, full);
    }
}

/// A file whose name mentions `frameview` or `presentmon`, in any letter
/// case, is claimed by the `FrameView` component. (A name that also holds a
/// literal `*`, which no Windows file name can, is left out.)
pub proof fn lemma_frameview_files_claimed(leaf: Seq<char>, full: Seq<char>)
    requires
        mentions(leaf, "frameview"@) || mentions(leaf, "presentmon"@),
        !lowercase(leaf).contains('*'),
    ensures
        catalog()[7].key == "FrameView"@,
        component_hit(catalog()[7], leaf, full),
{
    let c = catalog()[7];
    reveal_strlit("*FrameView*");
    reveal_strlit("frameview");
    reveal_strlit("*PresentMon*");
    reveal_strlit("presentmon");
    assert(c.key == "FrameView"@);
    if mentions(leaf, "frameview"@) {
        assert(c.leaf_globs[0] == "*FrameView*"@);
        lemma_lower_star_glob("*FrameView*"@, "frameview"@);
        lemma_star_glob_claims(c, 0, "frameview"@, leaf, full);
    } else if mentions(leaf, "presentmon"@) {
        assert(c.leaf_globs[1] == "*PresentMon*"@);
        lemma_lower_star_glob("*PresentMon*"@, "presentmon"@);
        lemma_star_glob_claims(c, 1, "presentmon"@, leaf, full);
    }
}

/// A file whose name mentions `nvstream`, `shield` or `wirelesscontroller`,
/// in any letter case, is claimed by the `Shield` component. (A name that
/// also holds a literal `*`, which no Windows file name can, is left out.)
pub proof fn lemma_shield_files_claimed(leaf: Seq<char>, full: Seq<char>)
    requires
        mentions(leaf, "nvstream"@) || mentions(leaf, "shield"@)
            || mentions(leaf, "wirelesscontroller"@),
        !lowercase(leaf).contains('*'),
    ensures
        catalog()[8].key == "Shield"@,
        component_hit(catalog()[8], leaf, full),
{
    let c = catalog()[8];
    reveal_strlit("*NvStream*");
    reveal_strlit("nvstream");
    reveal_strlit("*Shield*");
    reveal_strlit("shield");
    reveal_strlit("*WirelessController*");
    reveal_strlit("wirelesscontroller");
    assert(c.key == "Shield"@);
    if mentions(leaf, "nvstream"@) {
        assert(c.leaf_globs[0] == "*NvStream*"@);
        lemma_lower_star_glob("*NvStream*"@, "nvstream"@);
        lemma_star_glob_claims(c, 0, "nvstream"@, leaf, full);
    } else if mentions(leaf, "shield"@) {
        assert(c.leaf_globs[1] == "*Shield*"@);
        lemma_lower_star_glob("*Shield*"@, "shield"@);
        lemma_star_glob_claims(c, 1, "shield"@, leaf, full);
    } else if mentions(leaf, "wirelesscontroller"@) {
        assert(c.leaf_globs[3] == "*WirelessController*"@);
        lemma_lower_star_glob("*WirelessController*"@, "wirelesscontroller"@);
        lemma_star_glob_claims(c, 3, "wirelesscontroller"@, leaf, full);
    }
}

/// A file whose name mentions `usb-c`, `nvusb`, `nvvhci` or `nvppc`, in any
/// letter case, is claimed by the `USBTypeC` component. (A name that also
/// holds a literal `*`, which no Windows file name can, is left out.)
pub proof fn lemma_usb_type_c_files_claimed(leaf: Seq<char>, full: Seq<char>)
    requires
        mentions(leaf, "usb-c"@) || mentions(leaf, "nvusb"@) || mentions(leaf, "nvvhci"@)
            || mentions(leaf, "nvppc"@),
        !lowercase(leaf).contains('*'),
    ensures
        catalog()[10].key == "USBTypeC"@,
        component_hit(catalog()[10], leaf, full),
{
    let c = catalog()[10];
    reveal_strlit("*USB-C*");
    reveal_strlit("usb-c");
    reveal_strlit("*NvUSB*");
    reveal_strlit("nvusb");
    reveal_strlit("*NvvHCI*");
    reveal_strlit("nvvhci");
    reveal_strlit("*nvppc*");
    reveal_strlit("nvppc");
    assert(c.key == "USBTypeC"@);
    if mentions(leaf, "usb-c"@) {
        assert(c.leaf_globs[0] == "*USB-C*"@);
        lemma_lower_star_glob("*USB-C*"@, "usb-c"@);
        lemma_star_glob_claims(c, 0, "usb-c"@, leaf, full);
    } else if mentions(leaf, "nvusb"@) {
        assert(c.leaf_globs[1] == "*NvUSB*"@);
        lemma_lower_star_glob("*NvUSB*"@, "nvusb"@);
        lemma_star_glob_claims(c, 1, "nvusb"@, leaf, full);
    } else if mentions(leaf, "nvvhci"@) {
        assert(c.leaf_globs[2] == "*NvvHCI*"@);
        lemma_lower_star_glob("*NvvHCI*"@, "nvvhci"@);
        lemma_star_glob_claims(c, 2, "nvvhci"@, leaf, full);
    } else if mentions(leaf, "nvppc"@) {
        assert(c.leaf_globs[5] == "*nvppc*"@);
        lemma_lower_star_glob("*nvppc*"@, "nvppc"@);
        lemma_star_glob_claims(c, 5, "nvppc"@, leaf, full);
    }
}

/// A file whose name mentions `3d vision` or `stereo`, in any letter case, is
/// claimed by the `Legacy3DVisionVR` component. (A name that also holds a
/// literal `*`, which no Windows file name can, is left out.)
pub proof fn lemma_legacy_3d_vision_files_claimed(leaf: Seq<char>, full: Seq<char>)
    requires
        mentions(leaf, "3d vision"@) || mentions(leaf, "stereo"@),
        !lowercase(leaf).contains('*'),
    ensures
        catalog()[11].key == "Legacy3DVisionVR"@,
        component_hit(catalog()[11], leaf, full),
{
    let c = catalog()[11];
    reveal_strlit("*3D Vision*");
    reveal_strlit("3d vision");
    reveal_strlit("*Stereo*");
    reveal_strlit("stereo");
    assert(c.key == "Legacy3DVisionVR"@);
    if mentions(leaf, "3d vision"@) {
        assert(c.leaf_globs[0] == "*3D Vision*"@);
        lemma_lower_star_glob("*3D Vision*"@, "3d vision"@);
        lemma_star_glob_claims(c, 0, "3d vision"@, leaf, full);
    } else if mentions(leaf, "stereo"@) {
        assert(c.leaf_globs[1] == "*Stereo*"@);
        lemma_lower_star_glob("*Stereo*"@, "stereo"@);
        lemma_star_glob_claims(c, 1, "stereo"@, leaf, full);
    }
}

/// A file whose name mentions `ngx`, in any letter case, is claimed by the
/// `NGX` component. (A name that also holds a literal `*`, which no Windows
/// file name can, is left out.)
pub proof fn lemma_ngx_files_claimed(leaf: Seq<char>, full: Seq<char>)
    requires
        mentions(leaf, "ngx"@),
        !lowercase(leaf).contains('*'),
    ensures
        catalog()[13].key == "NGX"@,
        component_hit(catalog()[13], leaf, full),
{
    let c = catalog()[13];
    reveal_strlit("*NGX*");
    reveal_strlit("ngx");
    assert(c.key == "NGX"@);
    if mentions(leaf, "ngx"@) {
        assert(c.leaf_globs[1] == "*NGX*"@);
        lemma_lower_star_glob("*NGX*"@, "ngx"@);
        lemma_star_glob_claims(c, 1, "ngx"@, leaf, full);
    }
}

/// A file whose name mentions `hdaudio`, `hd audio` or `nvhda`, in any letter
/// case, is claimed by the `HDAudio` component. (A name that also holds a
/// literal `*`, which no Windows file name can, is left out.)
pub proof fn lemma_hd_audio_files_claimed(leaf: Seq<char>, full: Seq<char>)
    requires
        mentions(leaf, "hdaudio"@) || mentions(leaf, "hd audio"@) || mentions(leaf, "nvhda"@),
        !lowercase(leaf).contains('*'),
    ensures
        catalog()[14].key == "HDAudio"@,
        component_hit(catalog()[14], leaf, full),
{
    let c = catalog()[14];
    reveal_strlit("*HDAudio*");
    reveal_strlit("hdaudio");
    reveal_strlit("*HD Audio*");
    reveal_strlit("hd audio");
    reveal_strlit("*NvHDA*");
    reveal_strlit("nvhda");
    assert(c.key == "HDAudio"@);
    if mentions(leaf, "hdaudio"@) {
        assert(c.leaf_globs[2] == "*HDAudio*"@);
        lemma_lower_star_glob("*HDAudio*"@, "hdaudio"@);
        lemma_star_glob_claims(c, 2, "hdaudio"@, leaf, full);
    } else if mentions(leaf, "hd audio"@) {
        assert(c.leaf_globs[3] == "*HD Audio*"@);
        lemma_lower_star_glob("*HD Audio*"@, "hd audio"@);
        lemma_star_glob_claims(c, 3, "hd audio"@, leaf, full);
    } else if mentions(leaf, "nvhda"@) {
        assert(c.leaf_globs[4] == "*NvHDA*"@);
        lemma_lower_star_glob("*NvHDA*"@, "nvhda"@);
        lemma_star_glob_claims(c, 4, "nvhda"@, leaf, full);
    }
}

/// A file whose name mentions `physx`, in any letter case, is claimed by the
/// `PhysX` component. (A name that also holds a literal `*`, which no Windows
/// file name can, is left out.)
pub proof fn lemma_physx_files_claimed(leaf: Seq<char>, full: Seq<char>)
    requires
        mentions(leaf, "physx"@),
        !lowercase(leaf).contains('*'),
    ensures
        catalog()[15].key == "PhysX"@,
        component_hit(catalog()[15], leaf, full),
{
    let c = catalog()[15];
    reveal_strlit("*PhysX*");
    reveal_strlit("physx");
    assert(c.key == "PhysX"@);
    if mentions(leaf, "physx"@) {
        assert(c.leaf_globs[0] == "*PhysX*"@);
        lemma_lower_star_glob("*PhysX*"@, "physx"@);
        lemma_star_glob_claims(c, 0, "physx"@, leaf, full);
    }
}

/// A file whose name mentions `optimus`, `nvoptimus` or `nvmsi`, in any
/// letter case, is claimed by the `NotebookOptimus` component. (A name that
/// also holds a literal `*`, which no Windows file name can, is left out.)
pub proof fn lemma_notebook_optimus_files_claimed(leaf: Seq<char>, full: Seq<char>)
    requires
        mentions(leaf, "optimus"@) || mentions(leaf, "nvoptimus"@) || mentions(leaf, "nvmsi"@),
        !lowercase(leaf).contains('*'),
    ensures
        catalog()[16].key == "NotebookOptimus"@,
        component_hit(catalog()[16], leaf, full),
{
    let c = catalog()[16];
    reveal_strlit("*Optimus*");
    reveal_strlit("optimus");
    reveal_strlit("*NvOptimus*");
    reveal_strlit("nvoptimus");
    reveal_strlit("*NvMsi*");
    reveal_strlit("nvmsi");
    assert(c.key == "NotebookOptimus"@);
    if mentions(leaf, "optimus"@) {
        assert(c.leaf_globs[0] == "*Optimus*"@);
        lemma_lower_star_glob("*Optimus*"@, "optimus"@);
        lemma_star_glob_claims(c, 0, "optimus"@, leaf, full);
    } else if mentions(leaf, "nvoptimus"@) {
        assert(c.leaf_globs[1] == "*NvOptimus*"@);
        lemma_lower_star_glob("*NvOptimus*"@, "nvoptimus"@);
        lemma_star_glob_claims(c, 1, "nvoptimus"@, leaf, full);
    } else if mentions(leaf, "nvmsi"@) {
        assert(c.leaf_globs[3] == "*NvMsi*"@);
        lemma_lower_star_glob("*NvMsi*"@, "nvmsi"@);
        lemma_star_glob_claims(c, 3, "nvmsi"@, leaf, full);
    }
}

} // verus!
