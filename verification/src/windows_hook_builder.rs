use vstd::prelude::*;
use crate::module::Module;
use crate::sys_error::SysError;
use crate::thread_id::ThreadId;
use crate::wh::WH;
use crate::hook_state::HookState;
use crate::windows_hook::WindowsHook;

verus! {

/// Accumulates a hook's configuration before committing to registration.
///
/// The hook kind and callback are mandatory construction arguments and are
/// never defaulted; the scope defaults to the null module (current process
/// image) and no thread (global). Each configuration step is pure and
/// overwrites exactly the targeted field — last write wins — and the
/// builder is consumed exactly once by [`WindowsHookBuilder::build_and_set`],
/// leaving no residual builder state to reuse.
#[derive(Clone, Copy, PartialEq, Eq, Structural, Debug)]
pub struct WindowsHookBuilder {
    /// The hook-kind identifier to register.
    pub id: WH,
    /// The raw address of the callback entry point.
    pub proc: usize,
    /// The owning module identity; defaults to null.
    pub module: Module,
    /// The owning thread identity; defaults to none (global).
    pub thread_id: ThreadId,
}

impl WindowsHookBuilder {
    /// A builder for the given kind and callback, with the default scope:
    /// null module and no thread.
    pub fn new(id: WH, proc: usize) -> (r: WindowsHookBuilder)
        ensures
            r.id == id,
            r.proc == proc,
            r.module == Module::spec_null(),
            r.thread_id == ThreadId::spec_none(),
    {
        WindowsHookBuilder { id, proc, module: Module::null(), thread_id: ThreadId::none() }
    }

    /// Overwrites the module scope and nothing else.
    pub fn with_module(self, module: Module) -> (r: WindowsHookBuilder)
        ensures
            r.module == module,
            r.id == self.id,
            r.proc == self.proc,
            r.thread_id == self.thread_id,
    {
        WindowsHookBuilder { module, ..self }
    }

    /// Overwrites the thread scope with the given raw id — `0` meaning no
    /// thread — and nothing else.
    pub fn with_thread_id(self, thread_id: u32) -> (r: WindowsHookBuilder)
        ensures
            r.thread_id == (ThreadId { value: thread_id }),
            r.id == self.id,
            r.proc == self.proc,
            r.module == self.module,
    {
        WindowsHookBuilder { thread_id: ThreadId::from(thread_id), ..self }
    }

    /// Consumes the builder and commits its accumulated fields, taking in
    /// the outcome of the OS registration primitive for them. Same
    /// contract as [`WindowsHook::set_new`]: a hook in the `Installed` (set)
    /// state on success, the surfaced error and no hook on failure.
    pub fn build_and_set(self, registration: Result<usize, SysError>) -> (r: Result<
        WindowsHook,
        SysError,
    >)
        ensures
            registration matches Ok(handle) ==> r matches Ok(hook) && hook.id == self.id
                && hook.proc == self.proc && hook.module == self.module && hook.thread_id
                == self.thread_id && hook.spec_state() == HookState::Installed(handle),
            registration matches Err(e) ==> r == Result::<WindowsHook, SysError>::Err(e),
    {
        WindowsHook::set_new(self.id, self.proc, self.module, self.thread_id, registration)
    }
}

} // verus!
