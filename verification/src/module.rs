use vstd::prelude::*;

verus! {

/// The reserved raw value of the invalid module sentinel, the OS's
/// all-ones invalid handle.
pub open spec fn spec_invalid_module_value() -> usize {
    usize::MAX
}

/// An identity for a loaded executable or library image, used to scope a
/// hook's ownership. It wraps the raw value of the image's OS handle.
///
/// The null identity (raw value `0`) is valid and inert: it means "no
/// module / use the current process image". The reserved invalid sentinel
/// (the OS's all-ones invalid-handle value) must never be treated as
/// usable and is distinct from null. Module identities are borrowed
/// references to already-loaded images, never owned resources; equality is
/// by raw value.
#[derive(Clone, Copy, PartialEq, Eq, Structural, Hash, Debug)]
pub struct Module {
    /// The raw value of the underlying OS module handle.
    pub value: usize,
}

impl Module {
    /// The null module identity, as a spec value.
    pub open spec fn spec_null() -> Module {
        Module { value: 0 }
    }

    /// The invalid module sentinel, as a spec value.
    pub open spec fn spec_invalid() -> Module {
        Module { value: spec_invalid_module_value() }
    }

    /// True exactly when this is the null identity.
    pub open spec fn spec_is_null(&self) -> bool {
        self.value == 0
    }

    /// True exactly when this is the reserved invalid sentinel.
    pub open spec fn spec_is_invalid(&self) -> bool {
        self.value == spec_invalid_module_value()
    }

    /// The null module identity: no module, or the current process image.
    pub fn null() -> (r: Module)
        ensures
            r == Module::spec_null(),
    {
        Module { value: 0 }
    }

    /// The reserved invalid module sentinel, never a usable identity.
    pub fn invalid() -> (r: Module)
        ensures
            r == Module::spec_invalid(),
    {
        Module { value: usize::MAX }
    }

    /// Wraps an arbitrary raw handle value, with no validation. The caller
    /// asserts that the value is either null or a genuine module handle.
    pub fn from_raw(value: usize) -> (r: Module)
        ensures
            r == (Module { value }),
    {
        Module { value }
    }

    /// Returns `true` if this is the null identity, `false` otherwise.
    pub fn is_null(&self) -> (r: bool)
        ensures
            r == self.spec_is_null(),
    {
        self.value == 0
    }

    /// Returns `true` only for the reserved invalid sentinel, never for
    /// null.
    pub fn is_invalid(&self) -> (r: bool)
        ensures
            r == self.spec_is_invalid(),
    {
        self.value == usize::MAX
    }

    /// The raw value of the underlying OS module handle.
    pub fn ptr(&self) -> (r: usize)
        ensures
            r == self.value,
    {
        self.value
    }
}

impl From<usize> for Module {
    /// Wraps an arbitrary raw handle value, with no validation.
    fn from(value: usize) -> (r: Module)
        ensures
            r == (Module { value }),
    {
        Module { value }
    }
}

impl vstd::std_specs::convert::FromSpecImpl<usize> for Module {
    open spec fn obeys_from_spec() -> bool {
        true
    }

    open spec fn from_spec(v: usize) -> Module {
        Module { value: v }
    }
}

/// Null and the invalid sentinel are distinguishable: null is never
/// invalid, the invalid sentinel is never null, and wrapping a raw value
/// marks it invalid exactly when it is the reserved sentinel.
pub proof fn lemma_null_invalid_distinct(value: usize)
    ensures
        Module::spec_null().spec_is_null(),
        !Module::spec_null().spec_is_invalid(),
        Module::spec_invalid().spec_is_invalid(),
        !Module::spec_invalid().spec_is_null(),
        Module::spec_null() != Module::spec_invalid(),
        (Module { value }).spec_is_invalid() <==> value == spec_invalid_module_value(),
        (Module { value }).spec_is_null() <==> value == 0,
{
    assert(usize::MAX != 0);
}

} // verus!
