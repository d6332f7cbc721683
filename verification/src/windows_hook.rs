use vstd::prelude::*;
use crate::hook_state::HookState;
use crate::module::Module;
use crate::sys_error::SysError;
use crate::thread_id::ThreadId;
use crate::wh::WH;

verus! {

/// What one removal step does to a hook's state.
///
/// `removal` is the outcome of the OS removal primitive for the pending
/// handle, as performed by the embedding layer; it is consulted only when
/// a registration is active. From `Unset`, removal is an idempotent no-op
/// that owes no OS call and reports `Ok(Unset)`. From `Installed(h)`, a
/// successful removal moves to `Unset` and reports the prior
/// `Installed(h)` state; a failed one surfaces the error and leaves the state unchanged,
/// so a retry is possible and no handle is leaked or silently dropped.
pub open spec fn spec_unset_transition(
    state: HookState,
    removal: Result<(), SysError>,
) -> (HookState, Result<HookState, SysError>) {
    match state {
        HookState::Unset => (HookState::Unset, Ok(HookState::Unset)),
        HookState::Installed(h) => match removal {
            Ok(_) => (HookState::Unset, Ok(HookState::Installed(h))),
            Err(e) => (HookState::Installed(h), Err(e)),
        },
    }
}

/// What surrendering the pending handle does to a hook's state: the state
/// always becomes `Unset`, and the handle of an active registration — if
/// there was one — is moved out to the caller.
pub open spec fn spec_release_transition(state: HookState) -> (HookState, Option<usize>) {
    (HookState::Unset, state.spec_handle())
}

/// An owned hook registration: the immutable configuration it was (or
/// would be) registered with, plus its current lifecycle state.
///
/// The raw OS hook handle inside an `Installed` state is exclusively owned by
/// its hook: it is never duplicated, and it leaves the hook exactly once,
/// either through a successful [`WindowsHook::unset`] or through
/// [`WindowsHook::release_handle`]. The OS registration and removal entry
/// points themselves are performed by the embedding layer, which hands
/// their outcomes in as plain values.
#[derive(Debug)]
pub struct WindowsHook {
    /// The hook-kind identifier this hook was registered with.
    pub id: WH,
    /// The raw address of the callback entry point. The crate treats it
    /// as an opaque value; keeping it a genuine, ABI-correct entry point
    /// for the hook's lifetime is the caller's obligation, not a checked
    /// condition.
    pub proc: usize,
    /// The owning module identity the registration was scoped with.
    pub module: Module,
    /// The owning thread identity; none means a global hook.
    pub thread_id: ThreadId,
    /// The current lifecycle state. Managed by the lifecycle operations;
    /// writing it directly would forfeit the at-most-once release
    /// guarantee they maintain.
    pub state: HookState,
}

impl WindowsHook {
    /// The current lifecycle state.
    pub open spec fn spec_state(&self) -> HookState {
        self.state
    }

    /// Takes in the outcome of the OS registration primitive for
    /// `(id, proc, module, thread_id)` and produces the hook that owns
    /// it. On success the hook starts in the `Installed` (set) state holding
    /// exactly the returned handle; on failure the error is surfaced and no hook
    /// exists, so there is no resource to track.
    pub fn set_new(
        id: WH,
        proc: usize,
        module: Module,
        thread_id: ThreadId,
        registration: Result<usize, SysError>,
    ) -> (r: Result<WindowsHook, SysError>)
        ensures
            registration matches Ok(handle) ==> r matches Ok(hook) && hook.id == id
                && hook.proc == proc && hook.module == module && hook.thread_id == thread_id
                && hook.spec_state() == HookState::Installed(handle),
            registration matches Err(e) ==> r == Result::<WindowsHook, SysError>::Err(e),
    {
        match registration {
            Ok(handle) => Ok(
                WindowsHook { id, proc, module, thread_id, state: HookState::Installed(handle) },
            ),
            Err(e) => Err(e),
        }
    }

    /// A read-only view of the current lifecycle state.
    pub fn state(&self) -> (r: HookState)
        ensures
            r == self.spec_state(),
    {
        self.state
    }

    /// The raw handle the embedding layer must pass to the OS removal
    /// primitive before reporting its outcome to [`WindowsHook::unset`]:
    /// the handle of the active registration, or nothing — in which case
    /// no OS call is owed.
    pub fn pending_handle(&self) -> (r: Option<usize>)
        ensures
            r == self.spec_state().spec_handle(),
    {
        self.state.handle()
    }

    /// Applies one removal step, taking in the outcome of the OS removal
    /// primitive for the pending handle (ignored when none is pending).
    /// See [`spec_unset_transition`] for the full behaviour: idempotent
    /// no-op from `Unset`, prior state returned on success, state kept
    /// for retry on failure. The configuration fields never change.
    pub fn unset(&mut self, removal: Result<(), SysError>) -> (r: Result<HookState, SysError>)
        ensures
            (final(self).spec_state(), r) == spec_unset_transition(
                old(self).spec_state(),
                removal,
            ),
            final(self).id == old(self).id,
            final(self).proc == old(self).proc,
            final(self).module == old(self).module,
            final(self).thread_id == old(self).thread_id,
    {
        match self.state {
            HookState::Unset => Ok(HookState::Unset),
            HookState::Installed(h) => match removal {
                Ok(_) => {
                    self.state = HookState::Unset;
                    Ok(HookState::Installed(h))
                },
                Err(e) => Err(e),
            },
        }
    }

    /// Surrenders the pending handle for end-of-scope release: the hook
    /// becomes `Unset` and the handle of an active registration — if any —
    /// is moved out exactly once. The embedding layer passes it to the OS
    /// removal primitive on a best-effort basis; a failure there has no
    /// caller to report to and the registration is deliberately leaked
    /// rather than released twice.
    pub fn release_handle(&mut self) -> (r: Option<usize>)
        ensures
            (final(self).spec_state(), r) == spec_release_transition(old(self).spec_state()),
            final(self).id == old(self).id,
            final(self).proc == old(self).proc,
            final(self).module == old(self).module,
            final(self).thread_id == old(self).thread_id,
    {
        let r = self.state.handle();
        self.state = HookState::Unset;
        r
    }
}

impl Default for WindowsHook {
    /// A hook that was never registered: inert configuration (kind `0`,
    /// null callback address, null module, no thread) in the `Unset`
    /// state.
    fn default() -> (r: WindowsHook)
        ensures
            r.spec_state() is Unset,
            r.id == (WH { value: 0 }),
            r.proc == 0,
            r.module == Module::spec_null(),
            r.thread_id == ThreadId::spec_none(),
    {
        WindowsHook {
            id: WH { value: 0 },
            proc: 0,
            module: Module::null(),
            thread_id: ThreadId::none(),
            state: HookState::Unset,
        }
    }
}

/// Removing an active registration returns the prior `Installed` state and
/// leaves the hook `Unset`; removing again after that is a no-op that
/// reports `Ok(Unset)` whatever outcome is handed in, because no OS call
/// is owed any more.
pub proof fn lemma_unset_idempotent(h: usize, removal2: Result<(), SysError>)
    ensures
        spec_unset_transition(HookState::Installed(h), Ok(())) == (
            HookState::Unset,
            Ok::<HookState, SysError>(HookState::Installed(h)),
        ),
        spec_unset_transition(spec_unset_transition(HookState::Installed(h), Ok(())).0, removal2) == (
            HookState::Unset,
            Ok::<HookState, SysError>(HookState::Unset),
        ),
{
}

/// On a hook with no active registration, removal is a safe no-op: the
/// state stays `Unset` and `Ok(Unset)` is reported, whatever outcome is
/// handed in.
pub proof fn lemma_unset_noop(removal: Result<(), SysError>)
    ensures
        spec_unset_transition(HookState::Unset, removal) == (
            HookState::Unset,
            Ok::<HookState, SysError>(HookState::Unset),
        ),
{
}

/// A failed removal surfaces the OS error and leaves the registration
/// intact, so the handle is neither leaked nor silently dropped and a
/// retry remains possible.
pub proof fn lemma_unset_failure_keeps_state(h: usize, e: SysError)
    ensures
        spec_unset_transition(HookState::Installed(h), Err(e)) == (
            HookState::Installed(h),
            Err::<HookState, SysError>(e),
        ),
{
}

/// The handle of an active registration is surrendered at most once:
/// releasing yields exactly the pending handle, and releasing again — or
/// after a successful removal — yields nothing.
pub proof fn lemma_release_at_most_once(state: HookState)
    ensures
        spec_release_transition(state).1 == state.spec_handle(),
        spec_release_transition(spec_release_transition(state).0).1 == None::<usize>,
        spec_release_transition(spec_unset_transition(state, Ok(())).0).1 == None::<usize>,
{
}

} // verus!
