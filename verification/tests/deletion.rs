use rusty_butter_knife::deletion::{
    delete_step, extended_length_path, file_delete_retry_wanted, takeown_letter_order,
    treat_as_directory, unsafe_recursive_directory_decision, unsafe_recursive_directory_target,
    DeleteStep,
};
use rusty_butter_knife::fsutil::{attrs_are_reparse, kind_from_metadata, PathKind};

fn decision(is_dir: bool, full: &str, parent: &str, leaf: &str) -> bool {
    unsafe_recursive_directory_decision(is_dir, full, parent, leaf)
}

#[test]
fn files_are_never_unsafe_recursive_targets() {
    assert!(!decision(
        false,
        "c:\\windows\\system32\\driverstore\\filerepository\\nv_dispi.inf_amd64_0373",
        "c:\\windows\\system32\\driverstore\\filerepository",
        "nv_dispi.inf_amd64_0373"
    ));
}

#[test]
fn package_roots_always_blocked() {
    assert!(decision(
        true,
        "c:\\windows\\system32\\driverstore\\filerepository\\nv_dispi.inf_amd64_0373",
        "c:\\windows\\system32\\driverstore\\filerepository",
        "nv_dispi.inf_amd64_0373"
    ));
    assert!(decision(
        true,
        "c:\\windows\\system32\\driverstore\\filerepository\\nvhda.inf_arm64_9074",
        "c:\\windows\\system32\\driverstore\\filerepository",
        "nvhda.inf_arm64_9074"
    ));
}

#[test]
fn non_allowlisted_driver_store_dirs_blocked() {
    assert!(decision(
        true,
        "c:\\windows\\system32\\driverstore\\filerepository\\nv_dispi.inf_amd64_0373\\DisplayDriver",
        "c:\\windows\\system32\\driverstore\\filerepository\\nv_dispi.inf_amd64_0373",
        "DisplayDriver"
    ));
    assert!(decision(
        true,
        "c:\\windows\\system32\\driverstore\\filerepository\\nv_dispi.inf_amd64_0373\\system32",
        "c:\\windows\\system32\\driverstore\\filerepository\\nv_dispi.inf_amd64_0373",
        "system32"
    ));
}

#[test]
fn allowlisted_driver_store_dirs_permitted() {
    assert!(!decision(true, "c:\\windows\\system32\\driverstore\\filerepository\\nv_dispi.inf_amd64_0373\\nvwmi", "c:\\windows\\system32\\driverstore\\filerepository\\nv_dispi.inf_amd64_0373", "nvwmi"), "nvwmi");
    assert!(!decision(true, "c:\\windows\\system32\\driverstore\\filerepository\\nv_dispi.inf_amd64_0373\\display.update", "c:\\windows\\system32\\driverstore\\filerepository\\nv_dispi.inf_amd64_0373", "display.update"), "display.update");
    assert!(!decision(true, "c:\\windows\\system32\\driverstore\\filerepository\\nv_dispi.inf_amd64_0373\\update.core", "c:\\windows\\system32\\driverstore\\filerepository\\nv_dispi.inf_amd64_0373", "update.core"), "update.core");
    assert!(!decision(true, "c:\\windows\\system32\\driverstore\\filerepository\\nv_dispi.inf_amd64_0373\\ansel", "c:\\windows\\system32\\driverstore\\filerepository\\nv_dispi.inf_amd64_0373", "ansel"), "ansel");
    assert!(!decision(true, "c:\\windows\\system32\\driverstore\\filerepository\\nv_dispi.inf_amd64_0373\\nvcamera", "c:\\windows\\system32\\driverstore\\filerepository\\nv_dispi.inf_amd64_0373", "nvcamera"), "nvcamera");
    // Verify case-insensitivity on allowlisted directories
    assert!(!decision(true, "c:\\windows\\system32\\driverstore\\filerepository\\nv_dispi.inf_amd64_0373\\NvCamera", "c:\\windows\\system32\\driverstore\\filerepository\\nv_dispi.inf_amd64_0373", "NvCamera"), "NvCamera mixed case");
}

#[test]
fn ordinary_dirs_outside_driver_store_permitted() {
    assert!(!decision(
        true,
        "C:\\Program Files\\NVIDIA Corporation\\Installer2",
        "C:\\Program Files\\NVIDIA Corporation",
        "Installer2"
    ));
}

#[test]
fn unsafe_target_from_path_and_probe() {
    let root = "C:\\Windows\\System32\\DriverStore\\FileRepository\\nv_dispi.inf_amd64_0373";
    assert!(unsafe_recursive_directory_target(root, Some(PathKind::Directory)));
    // An unreadable probe fails closed: treated as a directory.
    assert!(unsafe_recursive_directory_target(root, None));
    assert!(unsafe_recursive_directory_target(root, Some(PathKind::Reparse)));
    assert!(!unsafe_recursive_directory_target(root, Some(PathKind::File)));
    assert!(!unsafe_recursive_directory_target(root, Some(PathKind::Missing)));
    let allowed = "C:\\Windows\\System32\\DriverStore\\FileRepository\\nv_dispi.inf_amd64_0373\\NvCamera";
    assert!(!unsafe_recursive_directory_target(allowed, Some(PathKind::Directory)));
    let payload = "C:\\Windows\\System32\\DriverStore\\FileRepository\\nv_dispi.inf_amd64_0373\\Display.NvContainer";
    assert!(unsafe_recursive_directory_target(payload, Some(PathKind::Directory)));
}

#[test]
fn extended_length_forms() {
    assert_eq!(extended_length_path("C:\\a\\b"), "\\\\?\\C:\\a\\b");
    assert_eq!(extended_length_path("\\\\?\\C:\\a"), "\\\\?\\C:\\a");
    assert_eq!(extended_length_path("\\\\server\\share\\x"), "\\\\server\\share\\x");
    assert_eq!(extended_length_path("relative\\x"), "relative\\x");
    assert_eq!(extended_length_path("é:\\x"), "é:\\x");
    assert_eq!(extended_length_path(""), "");
}

#[test]
fn delete_steps_check_safety_first() {
    assert_eq!(delete_step(true, false, false, true), DeleteStep::Abort);
    assert_eq!(delete_step(false, true, true, true), DeleteStep::SkipMissing);
    assert_eq!(delete_step(false, false, true, true), DeleteStep::SkipUnsafe);
    assert_eq!(delete_step(false, false, false, false), DeleteStep::DryRun);
    assert_eq!(delete_step(false, false, false, true), DeleteStep::Delete);
    assert!(treat_as_directory(Some(PathKind::Reparse), false));
    assert!(treat_as_directory(Some(PathKind::Directory), false));
    assert!(!treat_as_directory(Some(PathKind::File), true));
    assert!(treat_as_directory(None, true));
    assert!(!treat_as_directory(None, false));
    assert!(file_delete_retry_wanted(5));
    assert!(file_delete_retry_wanted(6009));
    assert!(!file_delete_retry_wanted(2));
}

#[test]
fn takeown_letters_rotate_from_last_winner() {
    assert_eq!(takeown_letter_order(0), vec![0, 1, 2, 3]);
    assert_eq!(takeown_letter_order(2), vec![2, 3, 0, 1]);
    assert_eq!(takeown_letter_order(9), vec![3, 0, 1, 2]);
}

#[test]
fn reparse_attribute_wins() {
    assert!(attrs_are_reparse(0x410));
    assert!(!attrs_are_reparse(0x10));
    assert_eq!(kind_from_metadata(0x400, true), PathKind::Reparse);
    assert_eq!(kind_from_metadata(0x10, true), PathKind::Directory);
    assert_eq!(kind_from_metadata(0x20, false), PathKind::File);
}
