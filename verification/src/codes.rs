//! The fixed vocabulary of the engine's hosting interface: status codes and
//! enumerations, together with their numeric wire values.
//!
//! The engine reports every call's outcome as a status code from a fixed
//! taxonomy (success; usage, engine, script, fatal and diagnostics
//! categories).  The unverified shim converts the raw integers coming over
//! the foreign boundary into these enums through the `from_u32` functions,
//! whose contracts pin the mapping down exactly and are proved to round-trip
//! with the `as_u32` direction.

use vstd::prelude::*;

verus! {

/// A status code returned by every engine hosting call.
#[derive(Clone, Copy, PartialEq, Eq, Structural, Debug)]
pub enum JsErrorCode {
    /// The call succeeded.
    NoError,
    /// Base of the category of incorrect-usage errors.
    CategoryUsage,
    /// An argument to a hosting call was invalid.
    InvalidArgument,
    /// An argument to a hosting call was null where null is not allowed.
    NullArgument,
    /// The hosting call requires a current context, but none is current.
    NoCurrentContext,
    /// The engine is in an exception state until the exception is cleared.
    InExceptionState,
    /// The hosting call is not implemented.
    NotImplemented,
    /// The hosting call was made on the wrong thread.
    WrongThread,
    /// A runtime that is still in use cannot be disposed.
    RuntimeInUse,
    /// A bad serialized script was used.
    BadSerializedScript,
    /// The runtime is in a disabled state.
    InDisabledState,
    /// The runtime does not support reliable script interruption.
    CannotDisableExecution,
    /// A heap enumeration is underway in the script context.
    HeapEnumInProgress,
    /// A hosting call that operates on objects was given a non-object.
    ArgumentNotObject,
    /// The script context is in the middle of a profile callback.
    InProfileCallback,
    /// A thread service callback is underway.
    InThreadServiceCallback,
    /// Scripts cannot be serialized in debug contexts.
    CannotSerializeDebugScript,
    /// The context is already in a debug state.
    AlreadyDebuggingContext,
    /// The context is already profiling.
    AlreadyProfilingContext,
    /// Idle notification was given without idle processing enabled.
    IdleNotEnabled,
    /// The context did not accept the enqueue callback.
    CannotSetProjectionEnqueueCallback,
    /// Projection could not be started.
    CannotStartProjection,
    /// The operation is not supported inside a before-collect callback.
    InObjectBeforeCollectCallback,
    /// The object cannot be unwrapped to an inspectable pointer.
    ObjectNotInspectable,
    /// A symbol-property call was given a non-symbol property identifier.
    PropertyNotSymbol,
    /// A string-property call was given a non-string property identifier.
    PropertyNotString,
    /// Module evaluation was requested in the wrong context.
    InvalidContext,
    /// An invalid module host info kind was given.
    InvalidModuleHostInfoKind,
    /// The module was already parsed.
    ModuleParsed,
    /// The module was already evaluated.
    ModuleEvaluated,
    /// Base of the category of failures inside the engine itself.
    CategoryEngine,
    /// The engine has run out of memory.
    OutOfMemory,
    /// The engine failed to set the floating point unit state.
    BadFPUState,
    /// Base of the category of errors raised by a script.
    CategoryScript,
    /// An exception occurred while running a script.
    ScriptException,
    /// A script failed to compile.
    ScriptCompile,
    /// A script was terminated due to a suspension request.
    ScriptTerminated,
    /// A script tried to use `eval` or `function` while eval was disabled.
    ScriptEvalDisabled,
    /// Base of the category of fatal failures.
    CategoryFatal,
    /// A fatal error occurred in the engine.
    Fatal,
    /// A hosting call was given an object from a different runtime.
    WrongRuntime,
    /// Base of the category of diagnostic-operation failures.
    CategoryDiagError,
    /// The runtime is already in debug mode.
    DiagAlreadyInDebugMode,
    /// The debugging call requires the runtime to be in debug mode.
    DiagNotInDebugMode,
    /// The debugging call requires the runtime to be at a break.
    DiagNotAtBreak,
    /// A debugging call was given an invalid handle.
    DiagInvalidHandle,
    /// The object the debugging call asked for was not found.
    DiagObjectNotFound,
    /// The runtime was unable to perform the requested debug action.
    DiagUnableToPerformAction,
}

/// The category a status code belongs to, per the engine's taxonomy.
#[derive(Clone, Copy, PartialEq, Eq, Structural, Debug)]
pub enum ErrorCategory {
    /// The call succeeded.
    Success,
    /// Incorrect usage of the hosting interface.
    Usage,
    /// A failure inside the engine itself.
    Engine,
    /// An error raised by a script: exception, compile failure, termination.
    Script,
    /// A fatal failure of the engine.
    Fatal,
    /// A failure of a diagnostic (debugger) operation.
    Diagnostics,
}

impl JsErrorCode {
    /// The numeric value of this status code on the foreign boundary.
    pub open spec fn as_u32_spec(self) -> u32 {
        match self {
            JsErrorCode::NoError => 0,
            JsErrorCode::CategoryUsage => 0x10000,
            JsErrorCode::InvalidArgument => 0x10001,
            JsErrorCode::NullArgument => 0x10002,
            JsErrorCode::NoCurrentContext => 0x10003,
            JsErrorCode::InExceptionState => 0x10004,
            JsErrorCode::NotImplemented => 0x10005,
            JsErrorCode::WrongThread => 0x10006,
            JsErrorCode::RuntimeInUse => 0x10007,
            JsErrorCode::BadSerializedScript => 0x10008,
            JsErrorCode::InDisabledState => 0x10009,
            JsErrorCode::CannotDisableExecution => 0x1000A,
            JsErrorCode::HeapEnumInProgress => 0x1000B,
            JsErrorCode::ArgumentNotObject => 0x1000C,
            JsErrorCode::InProfileCallback => 0x1000D,
            JsErrorCode::InThreadServiceCallback => 0x1000E,
            JsErrorCode::CannotSerializeDebugScript => 0x1000F,
            JsErrorCode::AlreadyDebuggingContext => 0x10010,
            JsErrorCode::AlreadyProfilingContext => 0x10011,
            JsErrorCode::IdleNotEnabled => 0x10012,
            JsErrorCode::CannotSetProjectionEnqueueCallback => 0x10013,
            JsErrorCode::CannotStartProjection => 0x10014,
            JsErrorCode::InObjectBeforeCollectCallback => 0x10015,
            JsErrorCode::ObjectNotInspectable => 0x10016,
            JsErrorCode::PropertyNotSymbol => 0x10017,
            JsErrorCode::PropertyNotString => 0x10018,
            JsErrorCode::InvalidContext => 0x10019,
            JsErrorCode::InvalidModuleHostInfoKind => 0x1001A,
            JsErrorCode::ModuleParsed => 0x1001B,
            JsErrorCode::ModuleEvaluated => 0x1001C,
            JsErrorCode::CategoryEngine => 0x20000,
            JsErrorCode::OutOfMemory => 0x20001,
            JsErrorCode::BadFPUState => 0x20002,
            JsErrorCode::CategoryScript => 0x30000,
            JsErrorCode::ScriptException => 0x30001,
            JsErrorCode::ScriptCompile => 0x30002,
            JsErrorCode::ScriptTerminated => 0x30003,
            JsErrorCode::ScriptEvalDisabled => 0x30004,
            JsErrorCode::CategoryFatal => 0x40000,
            JsErrorCode::Fatal => 0x40001,
            JsErrorCode::WrongRuntime => 0x40002,
            JsErrorCode::CategoryDiagError => 0x50000,
            JsErrorCode::DiagAlreadyInDebugMode => 0x50001,
            JsErrorCode::DiagNotInDebugMode => 0x50002,
            JsErrorCode::DiagNotAtBreak => 0x50003,
            JsErrorCode::DiagInvalidHandle => 0x50004,
            JsErrorCode::DiagObjectNotFound => 0x50005,
            JsErrorCode::DiagUnableToPerformAction => 0x50006,
        }
    }

    /// The numeric value of this status code on the foreign boundary.
    pub fn as_u32(self) -> (r: u32)
        ensures
            r == self.as_u32_spec(),
    {
        match self {
            JsErrorCode::NoError => 0,
            JsErrorCode::CategoryUsage => 0x10000,
            JsErrorCode::InvalidArgument => 0x10001,
            JsErrorCode::NullArgument => 0x10002,
            JsErrorCode::NoCurrentContext => 0x10003,
            JsErrorCode::InExceptionState => 0x10004,
            JsErrorCode::NotImplemented => 0x10005,
            JsErrorCode::WrongThread => 0x10006,
            JsErrorCode::RuntimeInUse => 0x10007,
            JsErrorCode::BadSerializedScript => 0x10008,
            JsErrorCode::InDisabledState => 0x10009,
            JsErrorCode::CannotDisableExecution => 0x1000A,
            JsErrorCode::HeapEnumInProgress => 0x1000B,
            JsErrorCode::ArgumentNotObject => 0x1000C,
            JsErrorCode::InProfileCallback => 0x1000D,
            JsErrorCode::InThreadServiceCallback => 0x1000E,
            JsErrorCode::CannotSerializeDebugScript => 0x1000F,
            JsErrorCode::AlreadyDebuggingContext => 0x10010,
            JsErrorCode::AlreadyProfilingContext => 0x10011,
            JsErrorCode::IdleNotEnabled => 0x10012,
            JsErrorCode::CannotSetProjectionEnqueueCallback => 0x10013,
            JsErrorCode::CannotStartProjection => 0x10014,
            JsErrorCode::InObjectBeforeCollectCallback => 0x10015,
            JsErrorCode::ObjectNotInspectable => 0x10016,
            JsErrorCode::PropertyNotSymbol => 0x10017,
            JsErrorCode::PropertyNotString => 0x10018,
            JsErrorCode::InvalidContext => 0x10019,
            JsErrorCode::InvalidModuleHostInfoKind => 0x1001A,
            JsErrorCode::ModuleParsed => 0x1001B,
            JsErrorCode::ModuleEvaluated => 0x1001C,
            JsErrorCode::CategoryEngine => 0x20000,
            JsErrorCode::OutOfMemory => 0x20001,
            JsErrorCode::BadFPUState => 0x20002,
            JsErrorCode::CategoryScript => 0x30000,
            JsErrorCode::ScriptException => 0x30001,
            JsErrorCode::ScriptCompile => 0x30002,
            JsErrorCode::ScriptTerminated => 0x30003,
            JsErrorCode::ScriptEvalDisabled => 0x30004,
            JsErrorCode::CategoryFatal => 0x40000,
            JsErrorCode::Fatal => 0x40001,
            JsErrorCode::WrongRuntime => 0x40002,
            JsErrorCode::CategoryDiagError => 0x50000,
            JsErrorCode::DiagAlreadyInDebugMode => 0x50001,
            JsErrorCode::DiagNotInDebugMode => 0x50002,
            JsErrorCode::DiagNotAtBreak => 0x50003,
            JsErrorCode::DiagInvalidHandle => 0x50004,
            JsErrorCode::DiagObjectNotFound => 0x50005,
            JsErrorCode::DiagUnableToPerformAction => 0x50006,
        }
    }

    /// Decodes a raw status value coming over the foreign boundary.
    ///
    /// Returns the unique status code with that numeric value, or `None`
    /// for a value outside the engine's vocabulary.
    pub fn from_u32(raw: u32) -> (r: Option<JsErrorCode>)
        ensures
            match r {
                Some(code) => code.as_u32_spec() == raw,
                None => forall|code: JsErrorCode| code.as_u32_spec() != raw,
            },
    {
        match raw {
            0 => Some(JsErrorCode::NoError),
            0x10000 => Some(JsErrorCode::CategoryUsage),
            0x10001 => Some(JsErrorCode::InvalidArgument),
            0x10002 => Some(JsErrorCode::NullArgument),
            0x10003 => Some(JsErrorCode::NoCurrentContext),
            0x10004 => Some(JsErrorCode::InExceptionState),
            0x10005 => Some(JsErrorCode::NotImplemented),
            0x10006 => Some(JsErrorCode::WrongThread),
            0x10007 => Some(JsErrorCode::RuntimeInUse),
            0x10008 => Some(JsErrorCode::BadSerializedScript),
            0x10009 => Some(JsErrorCode::InDisabledState),
            0x1000A => Some(JsErrorCode::CannotDisableExecution),
            0x1000B => Some(JsErrorCode::HeapEnumInProgress),
            0x1000C => Some(JsErrorCode::ArgumentNotObject),
            0x1000D => Some(JsErrorCode::InProfileCallback),
            0x1000E => Some(JsErrorCode::InThreadServiceCallback),
            0x1000F => Some(JsErrorCode::CannotSerializeDebugScript),
            0x10010 => Some(JsErrorCode::AlreadyDebuggingContext),
            0x10011 => Some(JsErrorCode::AlreadyProfilingContext),
            0x10012 => Some(JsErrorCode::IdleNotEnabled),
            0x10013 => Some(JsErrorCode::CannotSetProjectionEnqueueCallback),
            0x10014 => Some(JsErrorCode::CannotStartProjection),
            0x10015 => Some(JsErrorCode::InObjectBeforeCollectCallback),
            0x10016 => Some(JsErrorCode::ObjectNotInspectable),
            0x10017 => Some(JsErrorCode::PropertyNotSymbol),
            0x10018 => Some(JsErrorCode::PropertyNotString),
            0x10019 => Some(JsErrorCode::InvalidContext),
            0x1001A => Some(JsErrorCode::InvalidModuleHostInfoKind),
            0x1001B => Some(JsErrorCode::ModuleParsed),
            0x1001C => Some(JsErrorCode::ModuleEvaluated),
            0x20000 => Some(JsErrorCode::CategoryEngine),
            0x20001 => Some(JsErrorCode::OutOfMemory),
            0x20002 => Some(JsErrorCode::BadFPUState),
            0x30000 => Some(JsErrorCode::CategoryScript),
            0x30001 => Some(JsErrorCode::ScriptException),
            0x30002 => Some(JsErrorCode::ScriptCompile),
            0x30003 => Some(JsErrorCode::ScriptTerminated),
            0x30004 => Some(JsErrorCode::ScriptEvalDisabled),
            0x40000 => Some(JsErrorCode::CategoryFatal),
            0x40001 => Some(JsErrorCode::Fatal),
            0x40002 => Some(JsErrorCode::WrongRuntime),
            0x50000 => Some(JsErrorCode::CategoryDiagError),
            0x50001 => Some(JsErrorCode::DiagAlreadyInDebugMode),
            0x50002 => Some(JsErrorCode::DiagNotInDebugMode),
            0x50003 => Some(JsErrorCode::DiagNotAtBreak),
            0x50004 => Some(JsErrorCode::DiagInvalidHandle),
            0x50005 => Some(JsErrorCode::DiagObjectNotFound),
            0x50006 => Some(JsErrorCode::DiagUnableToPerformAction),
            _ => None,
        }
    }

    /// The category this status code belongs to.
    pub open spec fn category_spec(self) -> ErrorCategory {
        if self == JsErrorCode::NoError {
            ErrorCategory::Success
        } else if self.as_u32_spec() < 0x20000 {
            ErrorCategory::Usage
        } else if self.as_u32_spec() < 0x30000 {
            ErrorCategory::Engine
        } else if self.as_u32_spec() < 0x40000 {
            ErrorCategory::Script
        } else if self.as_u32_spec() < 0x50000 {
            ErrorCategory::Fatal
        } else {
            ErrorCategory::Diagnostics
        }
    }

    /// The category this status code belongs to.
    pub fn category(self) -> (r: ErrorCategory)
        ensures
            r == self.category_spec(),
    {
        let raw = self.as_u32();
        if raw == 0 {
            ErrorCategory::Success
        } else if raw < 0x20000 {
            ErrorCategory::Usage
        } else if raw < 0x30000 {
            ErrorCategory::Engine
        } else if raw < 0x40000 {
            ErrorCategory::Script
        } else if raw < 0x50000 {
            ErrorCategory::Fatal
        } else {
            ErrorCategory::Diagnostics
        }
    }
}

/// Decoding a status code is the inverse of encoding it: every code survives
/// a round trip over the foreign boundary unchanged.
pub proof fn lemma_error_code_round_trip(code: JsErrorCode)
    ensures
        forall|other: JsErrorCode|
            other.as_u32_spec() == code.as_u32_spec() ==> other == code,
{
}

/// The runtime type tag of an engine value.
#[derive(Clone, Copy, PartialEq, Eq, Structural, Debug)]
pub enum JsValueType {
    /// The `undefined` value.
    Undefined,
    /// The `null` value.
    Null,
    /// A number value.
    Number,
    /// A string value.
    String,
    /// A boolean value.
    Boolean,
    /// A plain object value.
    Object,
    /// A function object value.
    Function,
    /// An error object value.
    Error,
    /// An array object value.
    Array,
    /// A symbol value.
    Symbol,
    /// An array buffer object value.
    ArrayBuffer,
    /// A typed array object value.
    TypedArray,
    /// A data view object value.
    DataView,
}

impl JsValueType {
    /// The numeric value of this type tag on the foreign boundary.
    pub open spec fn as_u32_spec(self) -> u32 {
        match self {
            JsValueType::Undefined => 0,
            JsValueType::Null => 1,
            JsValueType::Number => 2,
            JsValueType::String => 3,
            JsValueType::Boolean => 4,
            JsValueType::Object => 5,
            JsValueType::Function => 6,
            JsValueType::Error => 7,
            JsValueType::Array => 8,
            JsValueType::Symbol => 9,
            JsValueType::ArrayBuffer => 10,
            JsValueType::TypedArray => 11,
            JsValueType::DataView => 12,
        }
    }

    /// The numeric value of this type tag on the foreign boundary.
    pub fn as_u32(self) -> (r: u32)
        ensures
            r == self.as_u32_spec(),
    {
        match self {
            JsValueType::Undefined => 0,
            JsValueType::Null => 1,
            JsValueType::Number => 2,
            JsValueType::String => 3,
            JsValueType::Boolean => 4,
            JsValueType::Object => 5,
            JsValueType::Function => 6,
            JsValueType::Error => 7,
            JsValueType::Array => 8,
            JsValueType::Symbol => 9,
            JsValueType::ArrayBuffer => 10,
            JsValueType::TypedArray => 11,
            JsValueType::DataView => 12,
        }
    }

    /// Decodes a raw type tag coming over the foreign boundary.
    pub fn from_u32(raw: u32) -> (r: Option<JsValueType>)
        ensures
            match r {
                Some(tag) => tag.as_u32_spec() == raw,
                None => forall|tag: JsValueType| tag.as_u32_spec() != raw,
            },
    {
        match raw {
            0 => Some(JsValueType::Undefined),
            1 => Some(JsValueType::Null),
            2 => Some(JsValueType::Number),
            3 => Some(JsValueType::String),
            4 => Some(JsValueType::Boolean),
            5 => Some(JsValueType::Object),
            6 => Some(JsValueType::Function),
            7 => Some(JsValueType::Error),
            8 => Some(JsValueType::Array),
            9 => Some(JsValueType::Symbol),
            10 => Some(JsValueType::ArrayBuffer),
            11 => Some(JsValueType::TypedArray),
            12 => Some(JsValueType::DataView),
            _ => None,
        }
    }
}

/// The element kind of a typed array.
#[derive(Clone, Copy, PartialEq, Eq, Structural, Debug)]
pub enum JsTypedArrayType {
    /// Signed 8-bit elements.
    Int8,
    /// Unsigned 8-bit elements.
    Uint8,
    /// Unsigned 8-bit elements, clamped on write.
    Uint8Clamped,
    /// Signed 16-bit elements.
    Int16,
    /// Unsigned 16-bit elements.
    Uint16,
    /// Signed 32-bit elements.
    Int32,
    /// Unsigned 32-bit elements.
    Uint32,
    /// 32-bit floating point elements.
    Float32,
    /// 64-bit floating point elements.
    Float64,
}

impl JsTypedArrayType {
    /// The width in bytes of one element of this kind.
    pub open spec fn element_size_spec(self) -> usize {
        match self {
            JsTypedArrayType::Int8 => 1,
            JsTypedArrayType::Uint8 => 1,
            JsTypedArrayType::Uint8Clamped => 1,
            JsTypedArrayType::Int16 => 2,
            JsTypedArrayType::Uint16 => 2,
            JsTypedArrayType::Int32 => 4,
            JsTypedArrayType::Uint32 => 4,
            JsTypedArrayType::Float32 => 4,
            JsTypedArrayType::Float64 => 8,
        }
    }

    /// The width in bytes of one element of this kind.
    pub fn element_size(self) -> (r: usize)
        ensures
            r == self.element_size_spec(),
    {
        match self {
            JsTypedArrayType::Int8 => 1,
            JsTypedArrayType::Uint8 => 1,
            JsTypedArrayType::Uint8Clamped => 1,
            JsTypedArrayType::Int16 => 2,
            JsTypedArrayType::Uint16 => 2,
            JsTypedArrayType::Int32 => 4,
            JsTypedArrayType::Uint32 => 4,
            JsTypedArrayType::Float32 => 4,
            JsTypedArrayType::Float64 => 8,
        }
    }
}

/// The kind of a memory event reported to an allocation callback.
#[derive(Clone, Copy, PartialEq, Eq, Structural, Debug)]
pub enum JsMemoryEventType {
    /// The engine requests a memory allocation.
    Allocate,
    /// The engine frees memory.
    Free,
    /// An allocation failed.
    Failure,
}

/// The kind of a property identifier.
#[derive(Clone, Copy, PartialEq, Eq, Structural, Debug)]
pub enum JsPropertyIdType {
    /// A property named by a string.
    String,
    /// A property named by a symbol.
    Symbol,
}

impl JsPropertyIdType {
    /// The numeric value of this identifier kind on the foreign boundary.
    pub open spec fn as_u32_spec(self) -> u32 {
        match self {
            JsPropertyIdType::String => 0,
            JsPropertyIdType::Symbol => 1,
        }
    }

    /// The numeric value of this identifier kind on the foreign boundary.
    pub fn as_u32(self) -> (r: u32)
        ensures
            r == self.as_u32_spec(),
    {
        match self {
            JsPropertyIdType::String => 0,
            JsPropertyIdType::Symbol => 1,
        }
    }

    /// Decodes a raw identifier kind coming over the foreign boundary.
    pub fn from_u32(raw: u32) -> (r: Option<JsPropertyIdType>)
        ensures
            match r {
                Some(kind) => kind.as_u32_spec() == raw,
                None => forall|kind: JsPropertyIdType| kind.as_u32_spec() != raw,
            },
    {
        match raw {
            0 => Some(JsPropertyIdType::String),
            1 => Some(JsPropertyIdType::Symbol),
            _ => None,
        }
    }
}

} // verus!
