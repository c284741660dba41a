//! The bloat-component catalog: keys, display names, defaults, leaf globs
//! and exact leaf names of every component the tool knows.

use vstd::prelude::*;
use crate::text::views;
use crate::types::{Component, ComponentView};

verus! {

/// Character sequences of string literals.
pub open spec fn literal_views(s: Seq<&str>) -> Seq<Seq<char>> {
    s.map_values(|x: &str| x@)
}

/// View of one catalog entry built from literals.
pub open spec fn component_view(
    key: &str,
    display_name: &str,
    default_enabled: bool,
    optional: bool,
    leaf_globs: Seq<&str>,
    exact_leaf_names: Seq<&str>,
) -> ComponentView {
    ComponentView {
        key: key@,
        display_name: display_name@,
        default_enabled,
        optional,
        leaf_globs: literal_views(leaf_globs),
        exact_leaf_names: literal_views(exact_leaf_names),
    }
}

/// The catalog, in its fixed order.
pub open spec fn catalog() -> Seq<ComponentView> {
    seq![
        component_view("Telemetry", "Telemetry, DisplayDriverRAS, container telemetry plugins", true, false, seq!["*Telemetry*", "_DisplayDriverRAS.dll", "_NvMsgBusBroadcast.dll", "_nvtopps.dll", "_NvGSTPlugin.dll", "NvTelemetry*.dll", "NvTelemetry*.exe"], seq!["DisplayDriverRAS", "GameSessionTelemetry", "NvTelemetry"]),
        component_view("UpdateAndProfileUpdater", "Driver update and profile-updater components", true, false, seq!["nvprofileupdaterplugin.dll", "*ProfileUpdater*", "*DriverUpdate*", "*NvOTA*", "*NvBackend*", "*NvModuleTracker*", "*NvGFTrayPlugin*", "*NvNodeLauncher*"], seq!["Display.Update", "Update.Core", "NvProfileUpdaterPlugin", "NvBackend", "NvDriverUpdateCheck", "NvModuleTracker", "NvOTA"]),
        component_view("Installer2Cache", "Installer2 unpacked installer cache", true, false, Seq::<&str>::empty(), seq!["Installer2"]),
        component_view("GeForceExperienceAndNvidiaApp", "NVIDIA App / GeForce Experience userland extras", true, false, seq!["*GeForce Experience*", "*GFExperience*", "*NVIDIA Web Helper*", "NVIDIA App*.exe", "*NvBackend*"], seq!["NVIDIA App", "NVIDIA GeForce Experience", "GeForce Experience", "GFExperience"]),
        component_view("ShadowPlayShare", "ShadowPlay / NVIDIA Share userland extras", true, false, seq!["*ShadowPlay*", "NVIDIA Share*.exe", "nvsphelper*.exe"], seq!["ShadowPlay", "NVIDIA Share"]),
        component_view("CaptureSDK", "NvFBC / NvIFR capture SDK runtime components", false, true, seq!["NvIFR*.dll", "NvFBC*.dll"], Seq::<&str>::empty()),
        component_view("AnselCamera", "Ansel / NvCamera", true, false, seq!["NvCamera*.dll", "*Ansel*"], seq!["NvCamera", "Ansel"]),
        component_view("FrameView", "FrameView SDK / PresentMon extras", true, false, seq!["*FrameView*", "*PresentMon*", "NvFv*.dll", "NvFrameView*.dll"], seq!["FrameViewSDK", "FrameView", "PresentMon"]),
        component_view("Shield", "SHIELD / streaming / wireless controller support", true, false, seq!["*NvStream*", "*Shield*", "*SHIELD*", "*WirelessController*"], seq!["NvStream", "SHIELD", "Shield", "WirelessController"]),
        component_view("VirtualAudio", "NVIDIA virtual audio device", false, true, seq!["NvVAD*.dll", "NvVAD*.exe", "NvVAD*.sys", "nvvad*.sys"], seq!["NvVAD"]),
        component_view("USBTypeC", "USB-C / virtual host controller support", true, false, seq!["*USB-C*", "*NvUSB*", "*NvvHCI*", "nvvhci*.inf", "nvvhci*.sys", "*nvppc*"], seq!["NvvHCI", "USB-C", "NvUSB"]),
        component_view("Legacy3DVisionVR", "Legacy 3D Vision / Stereo extras", true, false, seq!["*3D Vision*", "*Stereo*", "nvst*.dll"], seq!["3D Vision", "Stereo"]),
        component_view("NvWMI", "NVIDIA WMI management interface", false, true, seq!["nvwmi*.dll", "nvwmi*.exe", "nvwmi*.mof"], seq!["NVWMI"]),
        component_view("NGX", "NGX / DLSS runtime cache and plugins", false, true, seq!["nvngx*.dll", "*NGX*"], seq!["NGX", "NvNGX"]),
        component_view("HDAudio", "NVIDIA HD Audio", false, true, seq!["nvhda*.inf", "nvhda*.sys", "*HDAudio*", "*HD Audio*", "*NvHDA*"], seq!["HDAudio", "HD Audio", "NvHDA"]),
        component_view("PhysX", "NVIDIA PhysX", false, true, seq!["*PhysX*"], seq!["PhysX"]),
        component_view("NotebookOptimus", "Notebook/Optimus/MSI helper components", false, true, seq!["*Optimus*", "*NvOptimus*", "nvdmi*.inf", "*NvMsi*"], seq!["Optimus", "NvOptimus", "NvMsi"]),
    ]
}

/// Views of a list of components.
pub open spec fn component_views(v: Seq<Component>) -> Seq<ComponentView> {
    v.map_values(|c: Component| c@)
}

fn strings_of(strs: &[&str]) -> (r: Vec<String>)
    ensures
        views(r@) == literal_views(strs@),
{
    let mut r: Vec<String> = Vec::new();
    let mut i: usize = 0;
    while i < strs.len()
        invariant
            i <= strs.len(),
            views(r@) == literal_views(strs@).take(i as int),
        decreases strs.len() - i,
    {
        let ghost before = views(r@);
        r.push(String::from_str(strs[i]));
        assert(views(r@) =~= before.push(strs@[i as int]@));
        assert(literal_views(strs@).take(i + 1) =~= literal_views(strs@).take(i as int).push(
            strs@[i as int]@,
        ));
        i = i + 1;
    }
    assert(literal_views(strs@).take(strs@.len() as int) =~= literal_views(strs@));
    r
}

fn c(
    key: &str,
    display_name: &str,
    default_enabled: bool,
    optional: bool,
    leaf_globs: &[&str],
    exact_leaf_names: &[&str],
) -> (r: Component)
    ensures
        r@ == component_view(key, display_name, default_enabled, optional, leaf_globs@, exact_leaf_names@),
{
    Component {
        key: String::from_str(key),
        display_name: String::from_str(display_name),
        default_enabled,
        optional,
        leaf_globs: strings_of(leaf_globs),
        exact_leaf_names: strings_of(exact_leaf_names),
    }
}

/// The catalog of bloat components, in its fixed order.
pub fn build_components() -> (r: Vec<Component>)
    ensures
        component_views(r@) == catalog(),
{
    let mut v: Vec<Component> = Vec::new();
    let g: [&str; 7] = ["*Telemetry*", "_DisplayDriverRAS.dll", "_NvMsgBusBroadcast.dll", "_nvtopps.dll", "_NvGSTPlugin.dll", "NvTelemetry*.dll", "NvTelemetry*.exe"];
    let e: [&str; 3] = ["DisplayDriverRAS", "GameSessionTelemetry", "NvTelemetry"];
    proof {
        assert(g@ =~= seq!["*Telemetry*", "_DisplayDriverRAS.dll", "_NvMsgBusBroadcast.dll", "_nvtopps.dll", "_NvGSTPlugin.dll", "NvTelemetry*.dll", "NvTelemetry*.exe"]);
        assert(e@ =~= seq!["DisplayDriverRAS", "GameSessionTelemetry", "NvTelemetry"]);
    }
    v.push(c("Telemetry", "Telemetry, DisplayDriverRAS, container telemetry plugins", true, false, &g, &e));
    let g: [&str; 8] = ["nvprofileupdaterplugin.dll", "*ProfileUpdater*", "*DriverUpdate*", "*NvOTA*", "*NvBackend*", "*NvModuleTracker*", "*NvGFTrayPlugin*", "*NvNodeLauncher*"];
    let e: [&str; 7] = ["Display.Update", "Update.Core", "NvProfileUpdaterPlugin", "NvBackend", "NvDriverUpdateCheck", "NvModuleTracker", "NvOTA"];
    proof {
        assert(g@ =~= seq!["nvprofileupdaterplugin.dll", "*ProfileUpdater*", "*DriverUpdate*", "*NvOTA*", "*NvBackend*", "*NvModuleTracker*", "*NvGFTrayPlugin*", "*NvNodeLauncher*"]);
        assert(e@ =~= seq!["Display.Update", "Update.Core", "NvProfileUpdaterPlugin", "NvBackend", "NvDriverUpdateCheck", "NvModuleTracker", "NvOTA"]);
    }
    v.push(c("UpdateAndProfileUpdater", "Driver update and profile-updater components", true, false, &g, &e));
    let g: [&str; 0] = [];
    let e: [&str; 1] = ["Installer2"];
    proof {
        assert(g@ =~= Seq::<&str>::empty());
        assert(e@ =~= seq!["Installer2"]);
    }
    v.push(c("Installer2Cache", "Installer2 unpacked installer cache", true, false, &g, &e));
    let g: [&str; 5] = ["*GeForce Experience*", "*GFExperience*", "*NVIDIA Web Helper*", "NVIDIA App*.exe", "*NvBackend*"];
    let e: [&str; 4] = ["NVIDIA App", "NVIDIA GeForce Experience", "GeForce Experience", "GFExperience"];
    proof {
        assert(g@ =~= seq!["*GeForce Experience*", "*GFExperience*", "*NVIDIA Web Helper*", "NVIDIA App*.exe", "*NvBackend*"]);
        assert(e@ =~= seq!["NVIDIA App", "NVIDIA GeForce Experience", "GeForce Experience", "GFExperience"]);
    }
    v.push(c("GeForceExperienceAndNvidiaApp", "NVIDIA App / GeForce Experience userland extras", true, false, &g, &e));
    let g: [&str; 3] = ["*ShadowPlay*", "NVIDIA Share*.exe", "nvsphelper*.exe"];
    let e: [&str; 2] = ["ShadowPlay", "NVIDIA Share"];
    proof {
        assert(g@ =~= seq!["*ShadowPlay*", "NVIDIA Share*.exe", "nvsphelper*.exe"]);
        assert(e@ =~= seq!["ShadowPlay", "NVIDIA Share"]);
    }
    v.push(c("ShadowPlayShare", "ShadowPlay / NVIDIA Share userland extras", true, false, &g, &e));
    let g: [&str; 2] = ["NvIFR*.dll", "NvFBC*.dll"];
    let e: [&str; 0] = [];
    proof {
        assert(g@ =~= seq!["NvIFR*.dll", "NvFBC*.dll"]);
        assert(e@ =~= Seq::<&str>::empty());
    }
    v.push(c("CaptureSDK", "NvFBC / NvIFR capture SDK runtime components", false, true, &g, &e));
    let g: [&str; 2] = ["NvCamera*.dll", "*Ansel*"];
    let e: [&str; 2] = ["NvCamera", "Ansel"];
    proof {
        assert(g@ =~= seq!["NvCamera*.dll", "*Ansel*"]);
        assert(e@ =~= seq!["NvCamera", "Ansel"]);
    }
    v.push(c("AnselCamera", "Ansel / NvCamera", true, false, &g, &e));
    let g: [&str; 4] = ["*FrameView*", "*PresentMon*", "NvFv*.dll", "NvFrameView*.dll"];
    let e: [&str; 3] = ["FrameViewSDK", "FrameView", "PresentMon"];
    proof {
        assert(g@ =~= seq!["*FrameView*", "*PresentMon*", "NvFv*.dll", "NvFrameView*.dll"]);
        assert(e@ =~= seq!["FrameViewSDK", "FrameView", "PresentMon"]);
    }
    v.push(c("FrameView", "FrameView SDK / PresentMon extras", true, false, &g, &e));
    let g: [&str; 4] = ["*NvStream*", "*Shield*", "*SHIELD*", "*WirelessController*"];
    let e: [&str; 4] = ["NvStream", "SHIELD", "Shield", "WirelessController"];
    proof {
        assert(g@ =~= seq!["*NvStream*", "*Shield*", "*SHIELD*", "*WirelessController*"]);
        assert(e@ =~= seq!["NvStream", "SHIELD", "Shield", "WirelessController"]);
    }
    v.push(c("Shield", "SHIELD / streaming / wireless controller support", true, false, &g, &e));
    let g: [&str; 4] = ["NvVAD*.dll", "NvVAD*.exe", "NvVAD*.sys", "nvvad*.sys"];
    let e: [&str; 1] = ["NvVAD"];
    proof {
        assert(g@ =~= seq!["NvVAD*.dll", "NvVAD*.exe", "NvVAD*.sys", "nvvad*.sys"]);
        assert(e@ =~= seq!["NvVAD"]);
    }
    v.push(c("VirtualAudio", "NVIDIA virtual audio device", false, true, &g, &e));
    let g: [&str; 6] = ["*USB-C*", "*NvUSB*", "*NvvHCI*", "nvvhci*.inf", "nvvhci*.sys", "*nvppc*"];
    let e: [&str; 3] = ["NvvHCI", "USB-C", "NvUSB"];
    proof {
        assert(g@ =~= seq!["*USB-C*", "*NvUSB*", "*NvvHCI*", "nvvhci*.inf", "nvvhci*.sys", "*nvppc*"]);
        assert(e@ =~= seq!["NvvHCI", "USB-C", "NvUSB"]);
    }
    v.push(c("USBTypeC", "USB-C / virtual host controller support", true, false, &g, &e));
    let g: [&str; 3] = ["*3D Vision*", "*Stereo*", "nvst*.dll"];
    let e: [&str; 2] = ["3D Vision", "Stereo"];
    proof {
        assert(g@ =~= seq!["*3D Vision*", "*Stereo*", "nvst*.dll"]);
        assert(e@ =~= seq!["3D Vision", "Stereo"]);
    }
    v.push(c("Legacy3DVisionVR", "Legacy 3D Vision / Stereo extras", true, false, &g, &e));
    let g: [&str; 3] = ["nvwmi*.dll", "nvwmi*.exe", "nvwmi*.mof"];
    let e: [&str; 1] = ["NVWMI"];
    proof {
        assert(g@ =~= seq!["nvwmi*.dll", "nvwmi*.exe", "nvwmi*.mof"]);
        assert(e@ =~= seq!["NVWMI"]);
    }
    v.push(c("NvWMI", "NVIDIA WMI management interface", false, true, &g, &e));
    let g: [&str; 2] = ["nvngx*.dll", "*NGX*"];
    let e: [&str; 2] = ["NGX", "NvNGX"];
    proof {
        assert(g@ =~= seq!["nvngx*.dll", "*NGX*"]);
        assert(e@ =~= seq!["NGX", "NvNGX"]);
    }
    v.push(c("NGX", "NGX / DLSS runtime cache and plugins", false, true, &g, &e));
    let g: [&str; 5] = ["nvhda*.inf", "nvhda*.sys", "*HDAudio*", "*HD Audio*", "*NvHDA*"];
    let e: [&str; 3] = ["HDAudio", "HD Audio", "NvHDA"];
    proof {
        assert(g@ =~= seq!["nvhda*.inf", "nvhda*.sys", "*HDAudio*", "*HD Audio*", "*NvHDA*"]);
        assert(e@ =~= seq!["HDAudio", "HD Audio", "NvHDA"]);
    }
    v.push(c("HDAudio", "NVIDIA HD Audio", false, true, &g, &e));
    let g: [&str; 1] = ["*PhysX*"];
    let e: [&str; 1] = ["PhysX"];
    proof {
        assert(g@ =~= seq!["*PhysX*"]);
        assert(e@ =~= seq!["PhysX"]);
    }
    v.push(c("PhysX", "NVIDIA PhysX", false, true, &g, &e));
    let g: [&str; 4] = ["*Optimus*", "*NvOptimus*", "nvdmi*.inf", "*NvMsi*"];
    let e: [&str; 3] = ["Optimus", "NvOptimus", "NvMsi"];
    proof {
        assert(g@ =~= seq!["*Optimus*", "*NvOptimus*", "nvdmi*.inf", "*NvMsi*"]);
        assert(e@ =~= seq!["Optimus", "NvOptimus", "NvMsi"]);
    }
    v.push(c("NotebookOptimus", "Notebook/Optimus/MSI helper components", false, true, &g, &e));
    assert(component_views(v@) =~= catalog());
    v
}

} // verus!
