//! A host-side safety layer over the hosting interface of an embeddable,
//! garbage-collected scripting engine.
//!
//! The engine itself (parser, JIT, garbage collector) is an external
//! component reached through a fixed set of foreign entry points; it is not
//! modelled here.  What this crate provides, and proves, is the wrapper
//! discipline that makes such a handle-based, manually reference-counted,
//! thread-affine interface usable as a safe object model:
//!
//! - translation of engine status codes into structured errors,
//! - stack-discipline scoping of the "current context",
//! - reference-count bookkeeping for engine handles,
//! - the type hierarchy reconstructed over an untyped handle,
//! - the per-context side-table (promise task queue and typed user data),
//! - marshalling of native-callback data,
//! - runtime construction attributes and idle-task rate limiting.
//!
//! Every function that decides something is verified; the foreign calls
//! themselves are performed by a thin unverified shim that feeds their raw
//! results (status codes, handles, type tags, clock readings) into the
//! verified logic as plain values.

pub mod callback;
mod codes;
pub mod context;
pub mod error;
mod handle;
mod property;
pub mod refcount;
pub mod runtime;
pub mod script;
pub mod store;
pub mod value;

pub use codes::ErrorCategory;
pub use codes::JsErrorCode;
pub use codes::JsMemoryEventType;
pub use codes::JsPropertyIdType;
pub use codes::JsTypedArrayType;
pub use codes::JsValueType;
pub use context::Context;
pub use context::ContextGuard;
pub use handle::Handle;
pub use property::Property;
pub use runtime::Builder;
pub use runtime::Runtime;
