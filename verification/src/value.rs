//! The type hierarchy reconstructed over an untyped engine handle.
//!
//! An engine value is an opaque handle together with a runtime type tag the
//! engine reports for it (and, for objects, whether the object carries
//! external data).  A script value never changes its type, so the tag and
//! the external-data flag are fixed for the lifetime of the handle; the
//! unverified shim queries them once when a raw handle crosses into owned
//! territory and builds a [`Value`] from the plain parts.
//!
//! [`Value`] is the universal supertype.  [`Object`] refines it by a
//! tag-set membership check; [`Array`], [`Function`], [`Error`],
//! [`External`], [`Promise`] and [`ArrayBuffer`] refine [`Object`].  Every
//! refinement is a zero-copy reinterpretation of the same handle: upcasts
//! are total, downcasts are runtime-checked and fail without mutating or
//! losing the value.

use vstd::prelude::*;

use crate::codes::JsValueType;
use crate::handle::Handle;

verus! {

/// A script value: an engine handle with its fixed runtime type tag.
#[derive(Clone, Copy, PartialEq, Eq, Structural, Debug)]
pub struct Value {
    /// The engine handle.
    pub handle: Handle,
    /// The type tag the engine reports for this handle.
    pub tag: JsValueType,
    /// Whether the engine reports external data attached to this handle;
    /// meaningful only for values with an object-family tag.
    pub has_external_data: bool,
}

/// Whether a type tag belongs to the object family: every such value is a
/// valid object.
pub open spec fn is_object_tag(tag: JsValueType) -> bool {
    match tag {
        JsValueType::Object => true,
        JsValueType::Function => true,
        JsValueType::Error => true,
        JsValueType::Array => true,
        JsValueType::ArrayBuffer => true,
        JsValueType::TypedArray => true,
        JsValueType::DataView => true,
        _ => false,
    }
}

impl Value {
    /// Builds a value from the plain parts the shim reads off the engine:
    /// the raw handle, its reported type tag, and its external-data flag.
    pub fn from_parts(handle: Handle, tag: JsValueType, has_external_data: bool) -> (v: Value)
        ensures
            v == (Value { handle, tag, has_external_data }),
    {
        Value { handle, tag, has_external_data }
    }

    /// The underlying engine handle.
    pub fn as_raw(&self) -> (h: Handle)
        ensures
            h == self.handle,
    {
        self.handle
    }

    /// The runtime type of the value, as the engine reports it.  This does
    /// not know about refinements the engine's tag does not distinguish,
    /// such as external objects.
    pub fn get_type(&self) -> (t: JsValueType)
        ensures
            t == self.tag,
    {
        self.tag
    }

    /// Returns true if this value is `undefined`.
    pub fn is_undefined(&self) -> (r: bool)
        ensures
            r == (self.tag is Undefined),
    {
        self.tag == JsValueType::Undefined
    }

    /// Returns true if this value is `null`.
    pub fn is_null(&self) -> (r: bool)
        ensures
            r == (self.tag is Null),
    {
        self.tag == JsValueType::Null
    }

    /// Returns true if this value is a number.
    pub fn is_number(&self) -> (r: bool)
        ensures
            r == (self.tag is Number),
    {
        self.tag == JsValueType::Number
    }

    /// Returns true if this value is a string.
    pub fn is_string(&self) -> (r: bool)
        ensures
            r == (self.tag is String),
    {
        self.tag == JsValueType::String
    }

    /// Returns true if this value is a boolean.
    pub fn is_boolean(&self) -> (r: bool)
        ensures
            r == (self.tag is Boolean),
    {
        self.tag == JsValueType::Boolean
    }

    /// Returns true if this value is an object.
    pub fn is_object(&self) -> (r: bool)
        ensures
            r == is_object_tag(self.tag),
    {
        Object::is_same(self)
    }

    /// Returns true if this value is an object carrying external data.
    pub fn is_external(&self) -> (r: bool)
        ensures
            r == External::is_same_spec(*self),
    {
        External::is_same(self)
    }

    /// Returns true if this value is a function.
    pub fn is_function(&self) -> (r: bool)
        ensures
            r == (self.tag is Function),
    {
        self.tag == JsValueType::Function
    }

    /// Returns true if this value is an array.
    pub fn is_array(&self) -> (r: bool)
        ensures
            r == (self.tag is Array),
    {
        self.tag == JsValueType::Array
    }

    /// Returns true if this value is an array buffer.
    pub fn is_array_buffer(&self) -> (r: bool)
        ensures
            r == (self.tag is ArrayBuffer),
    {
        self.tag == JsValueType::ArrayBuffer
    }

    /// Represents the value as a [`Number`], if it is one.
    pub fn into_number(self) -> (r: Option<Number>)
        ensures
            match r {
                Some(n) => self.tag is Number && n.wf() && n.as_value_spec() == self,
                None => !(self.tag is Number),
            },
    {
        if self.tag == JsValueType::Number {
            Some(Number { inner: self })
        } else {
            None
        }
    }

    /// Represents the value as a [`JsString`], if it is one.
    pub fn into_string(self) -> (r: Option<JsString>)
        ensures
            match r {
                Some(s) => self.tag is String && s.wf() && s.as_value_spec() == self,
                None => !(self.tag is String),
            },
    {
        if self.tag == JsValueType::String {
            Some(JsString { inner: self })
        } else {
            None
        }
    }

    /// Represents the value as a [`Boolean`], if it is one.
    pub fn into_boolean(self) -> (r: Option<Boolean>)
        ensures
            match r {
                Some(b) => self.tag is Boolean && b.wf() && b.as_value_spec() == self,
                None => !(self.tag is Boolean),
            },
    {
        if self.tag == JsValueType::Boolean {
            Some(Boolean { inner: self })
        } else {
            None
        }
    }

    /// Represents the value as an [`Object`].  The downcast succeeds
    /// exactly when the tag belongs to the object family; it never touches
    /// the engine, and a failure leaves nothing changed.
    pub fn into_object(self) -> (r: Option<Object>)
        ensures
            match r {
                Some(o) => is_object_tag(self.tag) && o.wf() && o.as_value_spec() == self,
                None => !is_object_tag(self.tag),
            },
    {
        if Object::is_same(&self) {
            Some(Object { inner: self })
        } else {
            None
        }
    }

    /// Represents the value as a [`Function`], if it is one.
    pub fn into_function(self) -> (r: Option<Function>)
        ensures
            match r {
                Some(f) => self.tag is Function && f.wf() && f.as_value_spec() == self,
                None => !(self.tag is Function),
            },
    {
        if self.tag == JsValueType::Function {
            Some(Function { inner: self })
        } else {
            None
        }
    }

    /// Represents the value as an [`Array`], if it is one.
    pub fn into_array(self) -> (r: Option<Array>)
        ensures
            match r {
                Some(a) => self.tag is Array && a.wf() && a.as_value_spec() == self,
                None => !(self.tag is Array),
            },
    {
        if self.tag == JsValueType::Array {
            Some(Array { inner: self })
        } else {
            None
        }
    }

    /// Represents the value as an [`ArrayBuffer`], if it is one.
    pub fn into_array_buffer(self) -> (r: Option<ArrayBuffer>)
        ensures
            match r {
                Some(b) => self.tag is ArrayBuffer && b.wf() && b.as_value_spec() == self,
                None => !(self.tag is ArrayBuffer),
            },
    {
        if self.tag == JsValueType::ArrayBuffer {
            Some(ArrayBuffer { inner: self })
        } else {
            None
        }
    }

    /// Represents the value as an [`Error`], if it is one.
    pub fn into_error(self) -> (r: Option<Error>)
        ensures
            match r {
                Some(e) => self.tag is Error && e.wf() && e.as_value_spec() == self,
                None => !(self.tag is Error),
            },
    {
        if self.tag == JsValueType::Error {
            Some(Error { inner: self })
        } else {
            None
        }
    }

    /// Represents the value as an [`External`], if it is an object carrying
    /// external data.
    pub fn into_external(self) -> (r: Option<External>)
        ensures
            match r {
                Some(e) => External::is_same_spec(self) && e.wf() && e.as_value_spec() == self,
                None => !External::is_same_spec(self),
            },
    {
        if External::is_same(&self) {
            Some(External { inner: self })
        } else {
            None
        }
    }
}

/// A script number value.
#[derive(Clone, Copy, PartialEq, Eq, Structural, Debug)]
pub struct Number {
    inner: Value,
}

impl Number {
    /// The value this number refines.
    pub closed spec fn as_value_spec(self) -> Value {
        self.inner
    }

    /// The refinement's invariant.
    pub closed spec fn wf(self) -> bool {
        self.inner.tag is Number
    }

    /// Returns true if the value is a number.
    pub fn is_same(value: &Value) -> (r: bool)
        ensures
            r == (value.tag is Number),
    {
        value.tag == JsValueType::Number
    }

    /// The total, zero-cost upcast back to [`Value`].
    pub fn as_value(&self) -> (v: Value)
        ensures
            v == self.as_value_spec(),
    {
        self.inner
    }

    /// The underlying engine handle.
    pub fn as_raw(&self) -> (h: Handle)
        ensures
            h == self.as_value_spec().handle,
    {
        self.inner.handle
    }
}

/// A script string value.
#[derive(Clone, Copy, PartialEq, Eq, Structural, Debug)]
pub struct JsString {
    inner: Value,
}

impl JsString {
    /// The value this string refines.
    pub closed spec fn as_value_spec(self) -> Value {
        self.inner
    }

    /// The refinement's invariant.
    pub closed spec fn wf(self) -> bool {
        self.inner.tag is String
    }

    /// Returns true if the value is a string.
    pub fn is_same(value: &Value) -> (r: bool)
        ensures
            r == (value.tag is String),
    {
        value.tag == JsValueType::String
    }

    /// The total, zero-cost upcast back to [`Value`].
    pub fn as_value(&self) -> (v: Value)
        ensures
            v == self.as_value_spec(),
    {
        self.inner
    }

    /// The underlying engine handle.
    pub fn as_raw(&self) -> (h: Handle)
        ensures
            h == self.as_value_spec().handle,
    {
        self.inner.handle
    }
}

/// A script boolean value.
#[derive(Clone, Copy, PartialEq, Eq, Structural, Debug)]
pub struct Boolean {
    inner: Value,
}

impl Boolean {
    /// The value this boolean refines.
    pub closed spec fn as_value_spec(self) -> Value {
        self.inner
    }

    /// The refinement's invariant.
    pub closed spec fn wf(self) -> bool {
        self.inner.tag is Boolean
    }

    /// Returns true if the value is a boolean.
    pub fn is_same(value: &Value) -> (r: bool)
        ensures
            r == (value.tag is Boolean),
    {
        value.tag == JsValueType::Boolean
    }

    /// The total, zero-cost upcast back to [`Value`].
    pub fn as_value(&self) -> (v: Value)
        ensures
            v == self.as_value_spec(),
    {
        self.inner
    }

    /// The underlying engine handle.
    pub fn as_raw(&self) -> (h: Handle)
        ensures
            h == self.as_value_spec().handle,
    {
        self.inner.handle
    }
}

/// A script object: a [`Value`] whose tag belongs to the object family.
#[derive(Clone, Copy, PartialEq, Eq, Structural, Debug)]
pub struct Object {
    inner: Value,
}

impl Object {
    /// The value this object refines.
    pub closed spec fn as_value_spec(self) -> Value {
        self.inner
    }

    /// The refinement's invariant: the tag belongs to the object family.
    pub closed spec fn wf(self) -> bool {
        is_object_tag(self.inner.tag)
    }

    /// Returns true if the value is an object.
    pub fn is_same(value: &Value) -> (r: bool)
        ensures
            r == is_object_tag(value.tag),
    {
        match value.tag {
            JsValueType::Object => true,
            JsValueType::Function => true,
            JsValueType::Error => true,
            JsValueType::Array => true,
            JsValueType::ArrayBuffer => true,
            JsValueType::TypedArray => true,
            JsValueType::DataView => true,
            _ => false,
        }
    }

    /// The total, zero-cost upcast back to [`Value`].
    pub fn as_value(&self) -> (v: Value)
        ensures
            v == self.as_value_spec(),
    {
        self.inner
    }

    /// The underlying engine handle.
    pub fn as_raw(&self) -> (h: Handle)
        ensures
            h == self.as_value_spec().handle,
    {
        self.inner.handle
    }
}

/// A script function object.
#[derive(Clone, Copy, PartialEq, Eq, Structural, Debug)]
pub struct Function {
    inner: Value,
}

impl Function {
    /// The value this function refines.
    pub closed spec fn as_value_spec(self) -> Value {
        self.inner
    }

    /// The refinement's invariant.
    pub closed spec fn wf(self) -> bool {
        self.inner.tag is Function
    }

    /// Returns true if the value is a function.
    pub fn is_same(value: &Value) -> (r: bool)
        ensures
            r == (value.tag is Function),
    {
        value.tag == JsValueType::Function
    }

    /// The total, zero-cost upcast to [`Object`]: every function is an
    /// object.
    pub fn as_object(&self) -> (o: Object)
        requires
            self.wf(),
        ensures
            o.wf(),
            o.as_value_spec() == self.as_value_spec(),
    {
        Object { inner: self.inner }
    }

    /// The total, zero-cost upcast back to [`Value`].
    pub fn as_value(&self) -> (v: Value)
        ensures
            v == self.as_value_spec(),
    {
        self.inner
    }

    /// The underlying engine handle.
    pub fn as_raw(&self) -> (h: Handle)
        ensures
            h == self.as_value_spec().handle,
    {
        self.inner.handle
    }
}

/// A script array object.
#[derive(Clone, Copy, PartialEq, Eq, Structural, Debug)]
pub struct Array {
    inner: Value,
}

impl Array {
    /// The value this array refines.
    pub closed spec fn as_value_spec(self) -> Value {
        self.inner
    }

    /// The refinement's invariant.
    pub closed spec fn wf(self) -> bool {
        self.inner.tag is Array
    }

    /// Returns true if the value is an array.
    pub fn is_same(value: &Value) -> (r: bool)
        ensures
            r == (value.tag is Array),
    {
        value.tag == JsValueType::Array
    }

    /// The total, zero-cost upcast to [`Object`]: every array is an object.
    pub fn as_object(&self) -> (o: Object)
        requires
            self.wf(),
        ensures
            o.wf(),
            o.as_value_spec() == self.as_value_spec(),
    {
        Object { inner: self.inner }
    }

    /// The total, zero-cost upcast back to [`Value`].
    pub fn as_value(&self) -> (v: Value)
        ensures
            v == self.as_value_spec(),
    {
        self.inner
    }

    /// The underlying engine handle.
    pub fn as_raw(&self) -> (h: Handle)
        ensures
            h == self.as_value_spec().handle,
    {
        self.inner.handle
    }
}

/// A script array buffer object.
#[derive(Clone, Copy, PartialEq, Eq, Structural, Debug)]
pub struct ArrayBuffer {
    inner: Value,
}

impl ArrayBuffer {
    /// The value this array buffer refines.
    pub closed spec fn as_value_spec(self) -> Value {
        self.inner
    }

    /// The refinement's invariant.
    pub closed spec fn wf(self) -> bool {
        self.inner.tag is ArrayBuffer
    }

    /// Returns true if the value is an array buffer.
    pub fn is_same(value: &Value) -> (r: bool)
        ensures
            r == (value.tag is ArrayBuffer),
    {
        value.tag == JsValueType::ArrayBuffer
    }

    /// The size in bytes of a buffer of `len` elements of `element_size`
    /// bytes each, or `None` where it does not fit in a machine word.  The
    /// shim must hand the engine this exact size when it wraps host memory
    /// in a buffer.
    pub fn byte_size_of(len: usize, element_size: usize) -> (r: Option<usize>)
        ensures
            match r {
                Some(n) => n == len * element_size,
                None => len * element_size > usize::MAX,
            },
    {
        len.checked_mul(element_size)
    }

    /// The total, zero-cost upcast to [`Object`]: every array buffer is an
    /// object.
    pub fn as_object(&self) -> (o: Object)
        requires
            self.wf(),
        ensures
            o.wf(),
            o.as_value_spec() == self.as_value_spec(),
    {
        Object { inner: self.inner }
    }

    /// The total, zero-cost upcast back to [`Value`].
    pub fn as_value(&self) -> (v: Value)
        ensures
            v == self.as_value_spec(),
    {
        self.inner
    }

    /// The underlying engine handle.
    pub fn as_raw(&self) -> (h: Handle)
        ensures
            h == self.as_value_spec().handle,
    {
        self.inner.handle
    }
}

/// A script error object.
#[derive(Clone, Copy, PartialEq, Eq, Structural, Debug)]
pub struct Error {
    inner: Value,
}

impl Error {
    /// The value this error refines.
    pub closed spec fn as_value_spec(self) -> Value {
        self.inner
    }

    /// The refinement's invariant.
    pub closed spec fn wf(self) -> bool {
        self.inner.tag is Error
    }

    /// Returns true if the value is an error object.
    pub fn is_same(value: &Value) -> (r: bool)
        ensures
            r == (value.tag is Error),
    {
        value.tag == JsValueType::Error
    }

    /// The total, zero-cost upcast to [`Object`]: every error is an object.
    pub fn as_object(&self) -> (o: Object)
        requires
            self.wf(),
        ensures
            o.wf(),
            o.as_value_spec() == self.as_value_spec(),
    {
        Object { inner: self.inner }
    }

    /// The total, zero-cost upcast back to [`Value`].
    pub fn as_value(&self) -> (v: Value)
        ensures
            v == self.as_value_spec(),
    {
        self.inner
    }

    /// The underlying engine handle.
    pub fn as_raw(&self) -> (h: Handle)
        ensures
            h == self.as_value_spec().handle,
    {
        self.inner.handle
    }
}

/// A script object carrying external (host-owned) data.
#[derive(Clone, Copy, PartialEq, Eq, Structural, Debug)]
pub struct External {
    inner: Value,
}

impl External {
    /// The value this external object refines.
    pub closed spec fn as_value_spec(self) -> Value {
        self.inner
    }

    /// Whether a value is an external object: a plain object the engine
    /// reports external data for.  The engine's tag does not distinguish
    /// externals, so the external-data flag decides.
    pub open spec fn is_same_spec(value: Value) -> bool {
        value.tag is Object && value.has_external_data
    }

    /// The refinement's invariant.
    pub closed spec fn wf(self) -> bool {
        External::is_same_spec(self.inner)
    }

    /// Returns true if the value is an external object.
    pub fn is_same(value: &Value) -> (r: bool)
        ensures
            r == External::is_same_spec(*value),
    {
        value.tag == JsValueType::Object && value.has_external_data
    }

    /// The total, zero-cost upcast to [`Object`]: every external is an
    /// object.
    pub fn as_object(&self) -> (o: Object)
        requires
            self.wf(),
        ensures
            o.wf(),
            o.as_value_spec() == self.as_value_spec(),
    {
        Object { inner: self.inner }
    }

    /// The total, zero-cost upcast back to [`Value`].
    pub fn as_value(&self) -> (v: Value)
        ensures
            v == self.as_value_spec(),
    {
        self.inner
    }

    /// The underlying engine handle.
    pub fn as_raw(&self) -> (h: Handle)
        ensures
            h == self.as_value_spec().handle,
    {
        self.inner.handle
    }
}

/// A script promise object.
///
/// The engine's tag does not distinguish promises, and recognising one
/// takes a script-level instance check that only the engine can make; the
/// shim makes that check and hands its verdict in.
#[derive(Clone, Copy, PartialEq, Eq, Structural, Debug)]
pub struct Promise {
    inner: Value,
}

impl Promise {
    /// The value this promise refines.
    pub closed spec fn as_value_spec(self) -> Value {
        self.inner
    }

    /// The refinement's invariant: a promise is at least an object.
    pub closed spec fn wf(self) -> bool {
        is_object_tag(self.inner.tag)
    }

    /// Refines an object into a promise, given the engine's verdict of the
    /// script-level instance check on that object.
    pub fn from_instance_check(object: Object, is_promise_instance: bool) -> (r: Option<Promise>)
        requires
            object.wf(),
        ensures
            match r {
                Some(p) => is_promise_instance && p.wf() && p.as_value_spec()
                    == object.as_value_spec(),
                None => !is_promise_instance,
            },
    {
        if is_promise_instance {
            Some(Promise { inner: object.as_value() })
        } else {
            None
        }
    }

    /// The total, zero-cost upcast to [`Object`]: every promise is an
    /// object.
    pub fn as_object(&self) -> (o: Object)
        requires
            self.wf(),
        ensures
            o.wf(),
            o.as_value_spec() == self.as_value_spec(),
    {
        Object { inner: self.inner }
    }

    /// The total, zero-cost upcast back to [`Value`].
    pub fn as_value(&self) -> (v: Value)
        ensures
            v == self.as_value_spec(),
    {
        self.inner
    }

    /// The underlying engine handle.
    pub fn as_raw(&self) -> (h: Handle)
        ensures
            h == self.as_value_spec().handle,
    {
        self.inner.handle
    }
}

/// Downcasting is exact and lossless: for every value, the object downcast
/// succeeds exactly on the object family, the refined result carries the
/// same handle, and a failed downcast leaves the value as it was, so it can
/// still be used as what it is.
pub proof fn lemma_downcast_exact(v: Value)
    ensures
        is_object_tag(v.tag) ==> exists|o: Object| o.wf() && o.as_value_spec() == v,
        !is_object_tag(v.tag) ==> forall|o: Object| o.wf() ==> o.as_value_spec() != v,
        v.tag is Number ==> !is_object_tag(v.tag),
{
    if is_object_tag(v.tag) {
        let o = Object { inner: v };
        assert(o.wf() && o.as_value_spec() == v);
    }
}

} // verus!
