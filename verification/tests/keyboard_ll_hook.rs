use windows_hook::KeyboardLLHook;

// A dummy hook procedure; a real one would forward the event to the next
// hook in the chain. Only its address is handed to the library.
fn dummy_hook_proc(code: i32, _wparam: usize, _lparam: isize) -> isize {
    code as isize
}

// A plausible raw hook handle, standing in for what a successful OS
// registration would return.
const RAW_HANDLE: usize = 0x0003_c0de;

#[test]
fn keyboard_ll_hook_set_and_state() {
    let hook = KeyboardLLHook::set_new(dummy_hook_proc as usize, Ok(RAW_HANDLE))
        .expect("Failed to set keyboard low-level hook");

    assert!(hook.state().is_set());
}

#[test]
fn keyboard_ll_hook_fixes_kind_and_scope() {
    let hook = KeyboardLLHook::set_new(dummy_hook_proc as usize, Ok(RAW_HANDLE))
        .expect("Failed to set keyboard low-level hook");

    assert_eq!(hook.hook.id.value, 13);
    assert_eq!(hook.hook.proc, dummy_hook_proc as usize);
    assert!(hook.hook.module.is_null());
    assert!(hook.hook.thread_id.is_none());
}
