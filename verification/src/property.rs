//! Interned property identifiers.
//!
//! A property identifier is an immutable, reference-counted engine handle
//! naming a property key.  Creating one from the same name against the
//! same runtime yields the same identifier, so repeated creation is a
//! lookup rather than an allocation — that interning lives in the engine;
//! this layer only carries the handle, under the same reference-counting
//! discipline as every other handle.

use vstd::prelude::*;

use crate::codes::JsPropertyIdType;
use crate::handle::Handle;

verus! {

/// A property identifier used with objects.
#[derive(Clone, Copy, PartialEq, Eq, Structural, Debug)]
pub struct Property {
    /// The engine handle of the interned identifier.
    pub handle: Handle,
    /// Whether the identifier names a string property or a symbol
    /// property, as the engine reports it.
    pub id_type: JsPropertyIdType,
}

impl Property {
    /// Wraps a raw property identifier handle handed back by an engine
    /// call, with the identifier kind the engine reports for it.
    pub fn from_raw(handle: Handle, id_type: JsPropertyIdType) -> (p: Property)
        ensures
            p == (Property { handle, id_type }),
    {
        Property { handle, id_type }
    }

    /// The underlying engine handle.
    pub fn as_raw(&self) -> (h: Handle)
        ensures
            h == self.handle,
    {
        self.handle
    }

    /// Whether the identifier names a string property.
    pub fn is_string_property(&self) -> (r: bool)
        ensures
            r == (self.id_type is String),
    {
        self.id_type == JsPropertyIdType::String
    }
}

} // verus!
