//! Marshalling of native-callback data across the foreign boundary.
//!
//! The engine re-enters the host through fixed-signature trampolines.  The
//! trampolines themselves (raw pointers, double-boxed closure state) live
//! in the unverified shim; what is verified here is every decision they
//! make: how the raw argument vector of a function call becomes a
//! [`CallbackInfo`], how a host callback's result is turned into the
//! handle the engine expects together with the set-exception decision, and
//! how a host-side call's `this` and arguments are packed into the raw
//! vector the engine's call entry point takes.

use vstd::prelude::*;

use crate::handle::Handle;
use crate::value::Value;

verus! {

/// The information passed to function callbacks.
#[derive(Clone, Debug)]
pub struct CallbackInfo {
    /// Whether it is a constructor call.
    pub is_construct_call: bool,
    /// The arguments supplied by the caller.
    pub arguments: Vec<Value>,
    /// The function object being called.
    pub callee: Value,
    /// The function's `this` binding.
    pub this: Value,
}

impl CallbackInfo {
    /// Builds the callback information from the raw argument vector of an
    /// engine function call.
    ///
    /// The engine always passes the `this` binding as argument zero, so
    /// the vector is never empty; the caller-supplied arguments are
    /// everything after it, in order.
    pub fn from_arguments(is_construct_call: bool, callee: Value, raw_arguments: Vec<Value>) -> (r:
        CallbackInfo)
        requires
            raw_arguments@.len() >= 1,
        ensures
            r.is_construct_call == is_construct_call,
            r.callee == callee,
            r.this == raw_arguments@[0],
            r.arguments@ == raw_arguments@.drop_first(),
    {
        let mut arguments = raw_arguments;
        let this = arguments.remove(0);
        proof {
            assert(arguments@ =~= raw_arguments@.drop_first());
        }
        CallbackInfo { is_construct_call, arguments, callee, this }
    }
}

/// What a trampoline hands back to the engine after the host callback
/// returned: the result handle, and whether the engine's pending-exception
/// state must be set to that handle first.
#[derive(Clone, Copy, PartialEq, Eq, Structural, Debug)]
pub struct CallbackReturn {
    /// The handle returned to the engine.
    pub handle: Handle,
    /// Whether the engine's pending exception must be set to that handle
    /// before returning, so the engine treats the call as having thrown.
    pub set_exception: bool,
}

/// Decides what the trampoline returns to the engine for a host
/// callback's result: a success hands its value's handle straight back; a
/// failure hands back the error value's handle and directs the shim to
/// set the engine's pending exception to it first.
pub fn callback_return(result: Result<Value, Value>) -> (r: CallbackReturn)
    ensures
        match result {
            Ok(value) => r == (CallbackReturn { handle: value.handle, set_exception: false }),
            Err(error) => r == (CallbackReturn { handle: error.handle, set_exception: true }),
        },
{
    match result {
        Ok(value) => CallbackReturn { handle: value.handle, set_exception: false },
        Err(error) => CallbackReturn { handle: error.handle, set_exception: true },
    }
}

/// Packs a call's `this` binding and arguments into the raw handle vector
/// the engine's call and construct entry points take: `this` first, then
/// every argument in order.
///
/// The engine takes the vector's length as a 16-bit count, so the packed
/// vector must fit one.
pub fn pack_call_arguments(this: &Value, arguments: &Vec<Value>) -> (r: Vec<Handle>)
    requires
        arguments@.len() < 0xFFFF,
    ensures
        r@.len() == 1 + arguments@.len(),
        r@[0] == this.handle,
        forall|i: int| 0 <= i < arguments@.len() ==> r@[i + 1] == arguments@[i].handle,
{
    let mut packed: Vec<Handle> = Vec::new();
    packed.push(this.handle);
    let mut i: usize = 0;
    while i < arguments.len()
        invariant
            i <= arguments@.len(),
            packed@.len() == 1 + i,
            packed@[0] == this.handle,
            forall|j: int| 0 <= j < i ==> packed@[j + 1] == arguments@[j].handle,
        decreases arguments@.len() - i,
    {
        packed.push(arguments[i].handle);
        i = i + 1;
    }
    packed
}

} // verus!
