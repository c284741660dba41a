use rusty_butter_knife::discovery::{
    candidates_section, collapse_nested_candidates, discovery_summary, driver_store_repository,
    install_root_candidates, is_driver_store_root_leaf, is_earlier_log, is_parent_of_or_equal,
    is_skipped_profile, path_lower, profile_root_candidates, sort_unique_roots, system_drive,
    tally_log_text, users_root, HistoryTally,
};
use rusty_butter_knife::types::Candidate;

fn cand(key: &str, path: &str, dir: bool) -> Candidate {
    Candidate {
        path: path.to_string(),
        component_key: key.to_string(),
        component_name: key.to_string(),
        is_directory: dir,
    }
}

fn lowered(cs: &[Candidate]) -> Vec<String> {
    cs.iter().map(|c| c.path.to_lowercase()).collect()
}

#[test]
fn root_helpers() {
    assert_eq!(path_lower("C:\\ProgramData\\NVIDIA Corporation"), "c:\\programdata\\nvidia corporation");
    assert!(is_driver_store_root_leaf("nv_dispi.inf_amd64_3a1b"));
    assert!(is_driver_store_root_leaf("NVHDA.INF_ARM64_77"));
    assert!(!is_driver_store_root_leaf("nv_dispi.inf_x86_3a1b"));
    assert!(!is_driver_store_root_leaf("iigd_dch.inf_amd64_1"));
    assert!(is_skipped_profile("Default User"));
    assert!(is_skipped_profile("PUBLIC"));
    assert!(is_skipped_profile("All Users"));
    assert!(!is_skipped_profile("alice"));
    assert_eq!(system_drive(None), "C:");
    assert_eq!(system_drive(Some("D:")), "D:");
    assert_eq!(system_drive(Some("E:\\")), "E:");
    assert_eq!(system_drive(Some("X")), "C:");
    assert_eq!(system_drive(Some("é:")), "C:");
    assert_eq!(
        sort_unique_roots(&vec!["b".to_string(), "a".to_string(), "b".to_string(), "B".to_string()]),
        vec!["B", "a", "b"]
    );
}

#[test]
fn parent_or_equal_needs_a_separator_boundary() {
    assert!(is_parent_of_or_equal("c:\\a", "c:\\a"));
    assert!(is_parent_of_or_equal("c:\\a", "c:\\a\\b"));
    assert!(is_parent_of_or_equal("c:\\a\\", "c:\\a\\b"));
    assert!(!is_parent_of_or_equal("c:\\a", "c:\\ab"));
    assert!(!is_parent_of_or_equal("c:\\a\\b", "c:\\a"));
}

#[test]
fn nested_candidates_collapse_into_directories() {
    let cands = vec![
        cand("Telemetry", "C:\\P\\NVIDIA\\Tele\\x.dll", false),
        cand("Telemetry", "C:\\P\\NVIDIA\\Tele", true),
        cand("FrameView", "C:\\P\\NVIDIA\\Other.dll", false),
        cand("Telemetry", "C:\\P\\NVIDIA\\TELE", false),
    ];
    let canon = lowered(&cands);
    let kept = collapse_nested_candidates(&cands, &canon);
    let paths: Vec<&str> = kept.iter().map(|c| c.path.as_str()).collect();
    assert_eq!(paths, vec!["C:\\P\\NVIDIA\\TELE", "C:\\P\\NVIDIA\\Tele", "C:\\P\\NVIDIA\\Other.dll"]);

    // A file never swallows anything, and the order is by length then text.
    let files = vec![
        cand("A", "C:\\bb", false),
        cand("A", "C:\\a", false),
        cand("A", "C:\\a\\z", false),
    ];
    let kept = collapse_nested_candidates(&files, &lowered(&files));
    let paths: Vec<&str> = kept.iter().map(|c| c.path.as_str()).collect();
    assert_eq!(paths, vec!["C:\\a", "C:\\bb", "C:\\a\\z"]);
}

#[test]
fn discovery_summary_lists_every_component() {
    let cands = vec![
        cand("Telemetry", "C:\\a", true),
        cand("Telemetry", "C:\\b", false),
        cand("NGX", "C:\\c", false),
    ];
    let (block, line) = discovery_summary(&cands);
    assert!(block.starts_with(
        "\n==== Discovery summary by component ====\nTelemetry: 2\nUpdateAndProfileUpdater: 0\n"
    ));
    assert!(block.contains("\nNGX: 1\n"));
    assert!(block.ends_with("NotebookOptimus: 0\n"));
    assert_eq!(block.lines().count(), 19);
    assert!(line.starts_with("Discovered per component: Telemetry=2, UpdateAndProfileUpdater=0, "));
    assert!(line.contains(", NGX=1, "));
    assert!(line.ends_with("NotebookOptimus=0"));
    let (_, empty_line) = discovery_summary(&Vec::new());
    assert!(empty_line.starts_with("Discovered per component: Telemetry=0, "));
}

#[test]
fn candidates_section_rows() {
    let cands = vec![
        cand("Telemetry", "C:\\P\\NVIDIA\\Tele", true),
        cand("NGX", "C:\\n.dll", false),
    ];
    assert_eq!(
        candidates_section(&cands),
        "==== Candidates (2 total) ====\ncomponent,path,type\nTelemetry,\"C:\\P\\NVIDIA\\Tele\",directory\nNGX,\"C:\\n.dll\",file\n"
    );
    assert_eq!(
        candidates_section(&Vec::new()),
        "==== Candidates (0 total) ====\ncomponent,path,type\n"
    );
}

#[test]
fn earlier_logs_and_their_tallies() {
    assert!(is_earlier_log("debloat-1.log", "C:\\d\\debloat-1.log", "C:\\d\\debloat-2.log"));
    assert!(is_earlier_log("DEBLOAT-1.LOG", "C:\\d\\DEBLOAT-1.LOG", "C:\\d\\debloat-2.log"));
    assert!(!is_earlier_log("debloat-2.log", "C:\\D\\DEBLOAT-2.LOG", "c:\\d\\debloat-2.log"));
    assert!(!is_earlier_log("other.log", "C:\\d\\other.log", "C:\\d\\debloat-2.log"));
    assert!(!is_earlier_log("debloat-1.txt", "C:\\d\\debloat-1.txt", "C:\\d\\debloat-2.log"));

    let text = "[t] [INFO] ==== NVIDIA post-install debloat run header ====\r\n\
                [t] [INFO] Candidate count: 12\n\
                noise\n\
                [t] [INFO] ==== NVIDIA post-install debloat run header ====\n\
                [t] [INFO] Candidate count:   -3  \n\
                [t] [INFO] Candidate count: +4\n\
                [t] [INFO] Candidate count: many\n";
    assert_eq!(tally_log_text(text), (2, 13));
    assert_eq!(tally_log_text(""), (0, 0));

    let mut h = HistoryTally::new();
    assert_eq!(
        h.history_line(),
        "Previous-run history: no earlier debloat-*.log files beside the executable."
    );
    h.add_log(text);
    h.add_log("Candidate count: 1\n");
    assert_eq!((h.log_files, h.runs, h.candidates), (2, 2, 14));
    assert_eq!(
        h.history_line(),
        "Previous-run history: 2 earlier log file(s), 2 recorded run(s), 14 candidate paths discovered across them (see those logs for the exact paths)."
    );
}

#[test]
fn search_root_paths_are_built_from_the_environment() {
    assert_eq!(
        install_root_candidates(Some("C:\\Program Files"), Some(""), Some("C:\\ProgramData\\")),
        vec![
            "C:\\Program Files\\NVIDIA Corporation".to_string(),
            "C:\\ProgramData\\NVIDIA".to_string(),
            "C:\\ProgramData\\NVIDIA Corporation".to_string(),
        ]
    );
    assert!(install_root_candidates(None, None, None).is_empty());
    assert_eq!(
        driver_store_repository("C:\\Windows"),
        "C:\\Windows\\System32\\DriverStore\\FileRepository"
    );
    assert_eq!(users_root("D:"), "D:\\Users");
    assert_eq!(
        profile_root_candidates("C:\\Users\\me"),
        vec![
            "C:\\Users\\me\\AppData\\Local\\NVIDIA".to_string(),
            "C:\\Users\\me\\AppData\\Local\\NVIDIA Corporation".to_string(),
            "C:\\Users\\me\\AppData\\Roaming\\NVIDIA".to_string(),
            "C:\\Users\\me\\AppData\\Roaming\\NVIDIA Corporation".to_string(),
        ]
    );
}
