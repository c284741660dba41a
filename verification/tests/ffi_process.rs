use rusty_butter_knife::targets::{
    has_strong_nvidia_named_target_context, process_image_is_nvidia_owned,
    process_name_is_explicitly_killable,
};

#[test]
fn process_name_allowlist_has_no_generic_substring_fallback() {
    assert!(process_name_is_explicitly_killable("NvTelemetryContainer.exe"));
    assert!(process_name_is_explicitly_killable("PresentMon.exe"));
    assert!(!process_name_is_explicitly_killable("TelemetryAgent.exe"));
    assert!(!process_name_is_explicitly_killable("MyFrameViewTool.exe"));
}

#[test]
fn process_image_requires_matching_leaf_and_known_nvidia_root() {
    assert!(process_image_is_nvidia_owned(
        r"C:\Program Files\NVIDIA Corporation\FrameViewSDK\PresentMon.exe",
        "presentmon.exe"
    ));
    assert!(process_image_is_nvidia_owned(
        r"D:\ProgramData\NVIDIA Corporation\Telemetry\NvTelemetryContainer.exe",
        "NvTelemetryContainer.exe"
    ));
    assert!(!process_image_is_nvidia_owned(
        r"C:\Tools\PresentMon.exe",
        "presentmon.exe"
    ));
    assert!(!process_image_is_nvidia_owned(
        r"C:\Malware\NVIDIA Corporation\PresentMon.exe",
        "presentmon.exe"
    ));
    assert!(!process_image_is_nvidia_owned(
        r"C:\Program Files\NVIDIA Corporation\FrameViewSDK\Other.exe",
        "presentmon.exe"
    ));
}

#[test]
fn service_task_context_rejects_arbitrary_nv_plus_generic_term() {
    assert!(has_strong_nvidia_named_target_context(
        "NvProfileUpdater NVIDIA Profile Updater"
    ));
    assert!(has_strong_nvidia_named_target_context(
        r"\NvTmRep\NVIDIA Telemetry Task"
    ));
    assert!(!has_strong_nvidia_named_target_context("NvBackup Update"));
    assert!(!has_strong_nvidia_named_target_context(r"\NvCache\Share cleanup"));
}
