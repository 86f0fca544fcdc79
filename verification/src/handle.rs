//! The opaque foreign reference every other component builds on.

use vstd::prelude::*;

verus! {

/// An opaque, copyable reference to an engine-managed object.
///
/// A handle never owns memory by itself; ownership disciplines (reference
/// counting, context scoping) are layered on top of it.  The raw value `0`
/// is the "null" sentinel the engine uses for "no object".
#[derive(Clone, Copy, PartialEq, Eq, Structural, Debug)]
pub struct Handle {
    pub raw: usize,
}

impl Handle {
    /// Wraps a raw pointer-sized value handed back by an engine call.
    pub fn from_raw(raw: usize) -> (h: Handle)
        ensures
            h.raw == raw,
    {
        Handle { raw }
    }

    /// The "no object" sentinel.
    pub fn null() -> (h: Handle)
        ensures
            h.raw == 0,
            h.is_null_spec(),
    {
        Handle { raw: 0 }
    }

    /// Whether this handle is the null sentinel.
    pub open spec fn is_null_spec(self) -> bool {
        self.raw == 0
    }

    /// Whether this handle is the null sentinel.
    pub fn is_null(&self) -> (r: bool)
        ensures
            r == self.is_null_spec(),
    {
        self.raw == 0
    }

    /// The raw pointer-sized value, for handing back to an engine call.
    pub fn as_raw(&self) -> (r: usize)
        ensures
            r == self.raw,
    {
        self.raw
    }
}

} // verus!
