use windows_hook::{Module, SysError, ThreadId, WindowsHook, WH};

// Dummy hook procedure for testing; only its address is handed to the
// library.
fn dummy_hook_proc(_code: i32, _wparam: usize, _lparam: isize) -> isize {
    0
}

// A plausible raw hook handle, standing in for what a successful OS
// registration would return.
const RAW_HANDLE: usize = 0x0001_c0de;

#[test]
fn hook_creation_sets_state() {
    let hook = WindowsHook::set_new(
        WH::keyboard_ll(),
        dummy_hook_proc as usize,
        Module::null(),
        ThreadId::none(),
        Ok(RAW_HANDLE),
    )
    .expect("Failed to set hook");
    assert!(hook.state().is_set());
}

#[test]
fn hook_unset_transitions_state() {
    let mut hook = WindowsHook::set_new(
        WH::keyboard_ll(),
        dummy_hook_proc as usize,
        Module::null(),
        ThreadId::none(),
        Ok(RAW_HANDLE),
    )
    .expect("Failed to set hook");
    let previous = hook.unset(Ok(())).expect("Failed to unset hook");
    assert!(previous.is_set());
    assert!(hook.state().is_unset());
}

#[test]
fn unset_twice_is_safe() {
    let mut hook = WindowsHook::set_new(
        WH::keyboard_ll(),
        dummy_hook_proc as usize,
        Module::null(),
        ThreadId::none(),
        Ok(RAW_HANDLE),
    )
    .expect("Failed to set hook");
    hook.unset(Ok(())).expect("First unset failed");
    let second = hook.unset(Ok(())).expect("Second unset failed");
    assert!(second.is_unset());
}

#[test]
fn default_hook_is_unset() {
    let hook = WindowsHook::default();
    assert!(hook.state().is_unset());
}

#[test]
fn failed_registration_surfaces_error() {
    let err = SysError::from_raw(1404);
    let result = WindowsHook::set_new(
        WH::keyboard_ll(),
        dummy_hook_proc as usize,
        Module::null(),
        ThreadId::none(),
        Err(err),
    );
    assert_eq!(result.unwrap_err(), err);
}

#[test]
fn failed_removal_keeps_state_for_retry() {
    let mut hook = WindowsHook::set_new(
        WH::keyboard_ll(),
        dummy_hook_proc as usize,
        Module::null(),
        ThreadId::none(),
        Ok(RAW_HANDLE),
    )
    .expect("Failed to set hook");
    let err = SysError::from_raw(1404);
    let result = hook.unset(Err(err));
    assert_eq!(result.unwrap_err(), err);
    assert!(hook.state().is_set());
    assert_eq!(hook.pending_handle(), Some(RAW_HANDLE));
    // The retry can still succeed.
    let previous = hook.unset(Ok(())).expect("Retry failed");
    assert!(previous.is_set());
    assert!(hook.state().is_unset());
}

#[test]
fn release_handle_surrenders_exactly_once() {
    let mut hook = WindowsHook::set_new(
        WH::mouse_ll(),
        dummy_hook_proc as usize,
        Module::null(),
        ThreadId::none(),
        Ok(RAW_HANDLE),
    )
    .expect("Failed to set hook");
    assert_eq!(hook.release_handle(), Some(RAW_HANDLE));
    assert!(hook.state().is_unset());
    assert_eq!(hook.release_handle(), None);
    assert_eq!(hook.pending_handle(), None);
}
