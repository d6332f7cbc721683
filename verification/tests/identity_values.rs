use windows_hook::{Module, SysError, ThreadId, WH};

#[test]
fn wh_raw_values() {
    assert_eq!(WH::keyboard_ll().raw(), 13);
    assert_eq!(WH::mouse_ll().raw(), 14);
    assert_eq!(WH::from_raw(7).raw(), 7);
    assert_eq!(WH::from_raw(13), WH::keyboard_ll());
}

#[test]
fn sys_error_round_trip() {
    let err = SysError::from_raw(1404);
    assert_eq!(err.raw(), 1404);
    assert_eq!(err, SysError::from_raw(1404));
    assert_ne!(err, SysError::from_raw(5));
}

#[test]
fn module_sentinels_are_distinct() {
    let null = Module::from_raw(0);
    assert!(null.is_null());
    assert!(!null.is_invalid());

    let invalid = Module::invalid();
    assert!(invalid.is_invalid());
    assert!(!invalid.is_null());

    assert_ne!(Module::null(), Module::invalid());

    let plain = Module::from_raw(0x1000);
    assert!(!plain.is_null());
    assert!(!plain.is_invalid());
}

#[test]
fn display_string_edge_values() {
    assert_eq!(ThreadId::from(0).display_string(), "0");
    assert_eq!(ThreadId::from(10).display_string(), "10");
    assert_eq!(ThreadId::from(305419896).display_string(), "305419896");
    assert_eq!(ThreadId::from(u32::MAX).display_string(), "4294967295");
}
