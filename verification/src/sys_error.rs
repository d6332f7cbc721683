use vstd::prelude::*;

verus! {

/// An operating-system error code, as surfaced by the OS's last-error
/// mechanism. Every fallible operation in this crate reports failure with
/// one of these; the crate itself introduces no error kinds of its own.
///
/// The value is opaque beyond equality and inspection of the raw code.
#[derive(Clone, Copy, PartialEq, Eq, Structural, Hash, Debug)]
pub struct SysError {
    /// The raw numeric error code.
    pub code: u32,
}

impl SysError {
    /// Wraps a raw OS error code.
    pub fn from_raw(code: u32) -> (r: SysError)
        ensures
            r.code == code,
    {
        SysError { code }
    }

    /// The raw numeric error code.
    pub fn raw(&self) -> (r: u32)
        ensures
            r == self.code,
    {
        self.code
    }
}

} // verus!
