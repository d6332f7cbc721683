use vstd::prelude::*;

verus! {

/// The raw OS identifier of the low-level keyboard hook kind.
pub open spec fn spec_keyboard_ll_value() -> i32 {
    13
}

/// The raw OS identifier of the low-level mouse hook kind.
pub open spec fn spec_mouse_ll_value() -> i32 {
    14
}

/// A hook-kind identifier: the category of event a hook observes. It
/// wraps the raw numeric id the OS assigns to each kind; the two kinds
/// this crate names explicitly are the low-level keyboard and low-level
/// mouse hooks.
#[derive(Clone, Copy, PartialEq, Eq, Structural, Hash, Debug)]
pub struct WH {
    /// The raw OS hook-kind id.
    pub value: i32,
}

impl WH {
    /// The low-level keyboard hook kind, as a spec value.
    pub open spec fn spec_keyboard_ll() -> WH {
        WH { value: spec_keyboard_ll_value() }
    }

    /// The low-level mouse hook kind, as a spec value.
    pub open spec fn spec_mouse_ll() -> WH {
        WH { value: spec_mouse_ll_value() }
    }

    /// The low-level keyboard hook kind.
    pub fn keyboard_ll() -> (r: WH)
        ensures
            r == WH::spec_keyboard_ll(),
    {
        WH { value: 13 }
    }

    /// The low-level mouse hook kind.
    pub fn mouse_ll() -> (r: WH)
        ensures
            r == WH::spec_mouse_ll(),
    {
        WH { value: 14 }
    }

    /// Wraps a raw hook-kind id.
    pub fn from_raw(value: i32) -> (r: WH)
        ensures
            r == (WH { value }),
    {
        WH { value }
    }

    /// The raw OS hook-kind id.
    pub fn raw(&self) -> (r: i32)
        ensures
            r == self.value,
    {
        self.value
    }
}

} // verus!
