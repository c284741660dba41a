use rusty_butter_knife::actions::{desired_access_for_ops, SERVICE_DELETE_RIGHT};
use windows_sys::Win32::System::Services::{SERVICE_CHANGE_CONFIG, SERVICE_QUERY_STATUS, SERVICE_STOP};

#[test]
fn query_status_is_always_requested() {
    assert_eq!(
        desired_access_for_ops(false, false, false),
        SERVICE_QUERY_STATUS
    );
}

#[test]
fn disable_only_needs_change_config_without_delete() {
    let mask = desired_access_for_ops(false, true, false);
    assert_eq!(mask, SERVICE_QUERY_STATUS | SERVICE_CHANGE_CONFIG);
    assert_eq!(
        mask & SERVICE_DELETE_RIGHT,
        0,
        "disable-only must NOT require DELETE"
    );
    assert_eq!(mask & SERVICE_STOP, 0);
}

#[test]
fn delete_only_needs_delete_without_change_config() {
    let mask = desired_access_for_ops(false, false, true);
    assert_eq!(mask, SERVICE_QUERY_STATUS | SERVICE_DELETE_RIGHT);
    assert_eq!(
        mask & SERVICE_CHANGE_CONFIG,
        0,
        "delete-only must NOT require CHANGE_CONFIG"
    );
}

#[test]
fn stop_only_needs_stop_and_query() {
    let mask = desired_access_for_ops(true, false, false);
    assert_eq!(mask, SERVICE_QUERY_STATUS | SERVICE_STOP);
    assert_eq!(mask & SERVICE_DELETE_RIGHT, 0);
    assert_eq!(mask & SERVICE_CHANGE_CONFIG, 0);
}

#[test]
fn full_stack_combines_independent_bits() {
    let mask = desired_access_for_ops(true, true, true);
    assert_eq!(
        mask,
        SERVICE_QUERY_STATUS | SERVICE_STOP | SERVICE_CHANGE_CONFIG | SERVICE_DELETE_RIGHT
    );
}

#[test]
fn access_mask_exact_values() {
    assert_eq!(desired_access_for_ops(false, false, false), 0x4);
    assert_eq!(desired_access_for_ops(true, true, true), 0x4 | 0x20 | 0x2 | 0x10000);
}
