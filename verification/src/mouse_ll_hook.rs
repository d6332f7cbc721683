use vstd::prelude::*;
use crate::hook_state::HookState;
use crate::module::Module;
use crate::sys_error::SysError;
use crate::thread_id::ThreadId;
use crate::wh::WH;
use crate::windows_hook::spec_unset_transition;
use crate::windows_hook::WindowsHook;

verus! {

/// A hook of the low-level mouse kind, registered globally: null module
/// scope and no owning thread. A thin specialization that fixes the kind
/// and delegates all lifecycle logic to [`WindowsHook`].
#[derive(Debug)]
pub struct MouseLLHook {
    /// The underlying hook, whose kind is the low-level mouse id.
    pub hook: WindowsHook,
}

impl MouseLLHook {
    /// Takes in the outcome of the OS registration primitive for a global
    /// low-level mouse hook with the given callback address, and produces
    /// the hook that owns it; on failure the error is surfaced and no
    /// hook exists.
    pub fn set_new(proc: usize, registration: Result<usize, SysError>) -> (r: Result<
        MouseLLHook,
        SysError,
    >)
        ensures
            registration matches Ok(handle) ==> r matches Ok(m)
                && m.hook.id == WH::spec_mouse_ll() && m.hook.proc == proc
                && m.hook.module == Module::spec_null()
                && m.hook.thread_id == ThreadId::spec_none()
                && m.hook.spec_state() == HookState::Installed(handle),
            registration matches Err(e) ==> r == Result::<MouseLLHook, SysError>::Err(e),
    {
        match WindowsHook::set_new(
            WH::mouse_ll(),
            proc,
            Module::null(),
            ThreadId::none(),
            registration,
        ) {
            Ok(hook) => Ok(MouseLLHook { hook }),
            Err(e) => Err(e),
        }
    }

    /// A read-only view of the current lifecycle state.
    pub fn state(&self) -> (r: HookState)
        ensures
            r == self.hook.spec_state(),
    {
        self.hook.state()
    }

    /// Applies one removal step; see [`WindowsHook::unset`].
    pub fn unset(&mut self, removal: Result<(), SysError>) -> (r: Result<HookState, SysError>)
        ensures
            (final(self).hook.spec_state(), r) == spec_unset_transition(
                old(self).hook.spec_state(),
                removal,
            ),
            final(self).hook.id == old(self).hook.id,
            final(self).hook.proc == old(self).hook.proc,
            final(self).hook.module == old(self).hook.module,
            final(self).hook.thread_id == old(self).hook.thread_id,
    {
        self.hook.unset(removal)
    }
}

} // verus!
