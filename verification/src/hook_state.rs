use vstd::prelude::*;

verus! {

/// The lifecycle state of a hook: either no registration is active, or
/// one is, identified by the raw handle the OS returned for it.
///
/// An `Installed` state's handle is always a value a successful registration
/// returned and that has not yet been passed to the removal primitive; an
/// `Unset` state holds no handle at all, stale or otherwise.
#[derive(Clone, Copy, PartialEq, Eq, Structural, Debug)]
pub enum HookState {
    /// No active registration.
    Unset,
    /// An active registration, with the raw hook handle the OS returned.
    Installed(usize),
}

impl HookState {
    /// The raw handle owed to the removal primitive: the handle of an
    /// active registration, or nothing.
    pub open spec fn spec_handle(&self) -> Option<usize> {
        match *self {
            HookState::Unset => None,
            HookState::Installed(h) => Some(h),
        }
    }

    /// Returns `true` if a registration is active.
    pub fn is_set(&self) -> (r: bool)
        ensures
            r == (*self is Installed),
    {
        match *self {
            HookState::Unset => false,
            HookState::Installed(_) => true,
        }
    }

    /// Returns `true` if no registration is active.
    pub fn is_unset(&self) -> (r: bool)
        ensures
            r == (*self is Unset),
    {
        match *self {
            HookState::Unset => true,
            HookState::Installed(_) => false,
        }
    }

    /// The raw handle of the active registration, if there is one.
    pub fn handle(&self) -> (r: Option<usize>)
        ensures
            r == self.spec_handle(),
    {
        match *self {
            HookState::Unset => None,
            HookState::Installed(h) => Some(h),
        }
    }
}

} // verus!
