use rusty_butter_knife::menu::{
    apply_menu_command, execute_confirmed, menu_command, menu_components_text, menu_status_text,
    MenuCommand,
};
use rusty_butter_knife::options::initialize_component_selection;
use rusty_butter_knife::types::Options;

#[test]
fn menu_commands_are_read_trimmed_in_any_case() {
    assert_eq!(menu_command("", 17), MenuCommand::Empty);
    assert_eq!(menu_command("   ", 17), MenuCommand::Empty);
    assert_eq!(menu_command(" Q ", 17), MenuCommand::Quit);
    assert_eq!(menu_command("y", 17), MenuCommand::Start);
    assert_eq!(menu_command("E", 17), MenuCommand::ToggleExecute);
    assert_eq!(menu_command("k", 17), MenuCommand::ToggleKillLockers);
    assert_eq!(menu_command("s", 17), MenuCommand::ToggleDisableServices);
    assert_eq!(menu_command("d", 17), MenuCommand::ToggleDisableTasks);
    assert_eq!(menu_command("T", 17), MenuCommand::ToggleDeleteTasks);
    assert_eq!(menu_command("r", 17), MenuCommand::ToggleRebootDelete);
    assert_eq!(menu_command("c", 17), MenuCommand::TogglePreserveContainers);
    assert_eq!(menu_command("1", 17), MenuCommand::ToggleComponent(0));
    assert_eq!(menu_command(" 17\r\n", 17), MenuCommand::ToggleComponent(16));
    assert_eq!(menu_command("3abc", 17), MenuCommand::ToggleComponent(2));
    assert_eq!(menu_command("18", 17), MenuCommand::Unknown);
    assert_eq!(menu_command("0", 17), MenuCommand::Unknown);
    assert_eq!(menu_command("-2", 17), MenuCommand::Unknown);
    assert_eq!(menu_command("quit", 17), MenuCommand::Unknown);
}

#[test]
fn toggles_change_one_switch_and_twice_restores() {
    let mut opts = Options::default();
    let mut enabled = initialize_component_selection(&opts);
    apply_menu_command(&mut opts, &mut enabled, &MenuCommand::ToggleExecute);
    assert!(opts.execute);
    apply_menu_command(&mut opts, &mut enabled, &MenuCommand::TogglePreserveContainers);
    assert!(!opts.preserve_nv_containers);
    apply_menu_command(&mut opts, &mut enabled, &MenuCommand::ToggleComponent(0));
    assert_eq!(enabled.get("Telemetry"), Some(false));
    apply_menu_command(&mut opts, &mut enabled, &MenuCommand::ToggleComponent(5));
    assert_eq!(enabled.get("CaptureSDK"), Some(true));
    apply_menu_command(&mut opts, &mut enabled, &MenuCommand::ToggleComponent(0));
    assert_eq!(enabled.get("Telemetry"), Some(true));
    apply_menu_command(&mut opts, &mut enabled, &MenuCommand::ToggleExecute);
    assert!(!opts.execute);
    apply_menu_command(&mut opts, &mut enabled, &MenuCommand::Start);
    assert!(!opts.execute);
    assert!(!opts.preserve_nv_containers);
}

#[test]
fn execute_needs_exact_confirmation_word() {
    assert!(execute_confirmed(Some("EXECUTE")));
    assert!(execute_confirmed(Some("  EXECUTE \r\n")));
    assert!(!execute_confirmed(Some("execute")));
    assert!(!execute_confirmed(Some("EXECUTE NOW")));
    assert!(!execute_confirmed(Some("")));
    assert!(!execute_confirmed(None));
}

#[test]
fn menu_screen_texts() {
    let opts = Options::default();
    assert_eq!(
        menu_status_text(&opts),
        "Mode: DRY RUN\nPreserve NVIDIA Container processes: yes\nKill lockers: no\nDisable services: no\n\
         Disable scheduled tasks: yes\nDelete scheduled tasks: no\nSchedule locked files for reboot deletion: no\n\n"
    );
    let enabled = initialize_component_selection(&opts);
    let text = menu_components_text(&enabled);
    let lines: Vec<&str> = text.lines().collect();
    assert_eq!(lines.len(), 17);
    assert_eq!(
        lines[0],
        " 1) [x] Telemetry - Telemetry, DisplayDriverRAS, container telemetry plugins"
    );
    assert_eq!(
        lines[5],
        " 6) [ ] CaptureSDK - NvFBC / NvIFR capture SDK runtime components (optional)"
    );
    assert_eq!(
        lines[16],
        "17) [ ] NotebookOptimus - Notebook/Optimus/MSI helper components (optional)"
    );
}
