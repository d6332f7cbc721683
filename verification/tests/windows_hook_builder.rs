use windows_hook::{Module, ThreadId, WindowsHookBuilder, WH};

fn dummy_hook_proc(_code: i32, _wparam: usize, _lparam: isize) -> isize {
    0
}

// A plausible raw hook handle, standing in for what a successful OS
// registration would return.
const RAW_HANDLE: usize = 0x0002_c0de;

#[test]
fn new_builder_defaults() {
    let builder = WindowsHookBuilder::new(WH::keyboard_ll(), dummy_hook_proc as usize);

    assert_eq!(builder.id, WH::keyboard_ll(), "Hook id should match");
    assert_eq!(
        builder.proc, dummy_hook_proc as usize,
        "Hook proc should match"
    );
    assert!(builder.module.is_null(), "Module should be null");
    assert!(builder.thread_id.is_none(), "Thread id should be none");
}

#[test]
fn with_module_sets_module() {
    let module = Module::null();
    let builder =
        WindowsHookBuilder::new(WH::mouse_ll(), dummy_hook_proc as usize).with_module(module);

    assert_eq!(builder.module, module, "Module should match");
}

#[test]
fn with_thread_id_sets_thread_id() {
    let builder =
        WindowsHookBuilder::new(WH::mouse_ll(), dummy_hook_proc as usize).with_thread_id(1234);

    assert_eq!(
        builder.thread_id,
        ThreadId::from(1234),
        "Thread id should match"
    );
}

#[test]
fn chained_builder_methods() {
    let module = Module::null();
    let builder = WindowsHookBuilder::new(WH::keyboard_ll(), dummy_hook_proc as usize)
        .with_module(module)
        .with_thread_id(42);

    assert_eq!(builder.id, WH::keyboard_ll(), "Hook id should match");
    assert_eq!(builder.module, module, "Module should match");
    assert_eq!(
        builder.thread_id,
        ThreadId::from(42),
        "Thread id should match"
    );
}

#[test]
fn build_and_set_creates_hook() {
    assert!(
        WindowsHookBuilder::new(WH::keyboard_ll(), dummy_hook_proc as usize)
            .build_and_set(Ok(RAW_HANDLE))
            .expect("Failed to build and set hook")
            .state()
            .is_set(),
        "Hook should be in set state"
    );
}

#[test]
fn with_thread_id_zero_is_none() {
    let builder =
        WindowsHookBuilder::new(WH::keyboard_ll(), dummy_hook_proc as usize).with_thread_id(0);
    assert!(builder.thread_id.is_none());
    assert_eq!(builder.thread_id, ThreadId::none());
}
