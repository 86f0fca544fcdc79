//! Script execution and parsing: everything around the engine's run and
//! parse entry points that does not itself touch the engine.
//!
//! The shim wraps the source text in an immutable buffer, hands it to the
//! engine's run or parse call together with a source-context identifier,
//! and feeds the resulting status code — with the pending exception's
//! message, where one must be retrieved — into the outcome functions
//! here, which perform the verified translation into the layer's result
//! types.

use vstd::prelude::*;

use crate::codes::JsErrorCode;
use crate::error::Error;
use crate::error::translate;
use crate::error::translate_spec;
use crate::value::Function;
use crate::value::Value;

verus! {

/// Generates a source-context identifier for a script.
///
/// The identifier only serves debugger and serialization bookkeeping; this
/// layer reuses one constant — the largest representable identifier — for
/// every script, trading debugging correlation away for simplicity.
pub fn generate_source_context() -> (r: usize)
    ensures
        r == usize::MAX,
{
    usize::MAX
}

/// Translates the outcome of an evaluation: on success the resulting
/// value, otherwise exactly the translated error, with the exception
/// message carried through for the script-category statuses.
pub fn eval_outcome(code: JsErrorCode, exception_message: String, result: Value) -> (r: Result<
    Value,
    Error,
>)
    ensures
        code is NoError ==> r == Result::<Value, Error>::Ok(result),
        !(code is NoError) ==> r == Result::<Value, Error>::Err(
            translate_spec(code, exception_message)->Err_0,
        ),
{
    match translate(code, exception_message) {
        Ok(_) => Ok(result),
        Err(error) => Err(error),
    }
}

/// Translates the outcome of a parse: on success the resulting value as a
/// callable, otherwise exactly the translated error.
///
/// A successful parse always yields a callable — that is the engine's
/// guarantee, and the shim's obligation when it hands the result in.
pub fn parse_outcome(code: JsErrorCode, exception_message: String, result: Value) -> (r: Result<
    Function,
    Error,
>)
    requires
        code is NoError ==> result.tag is Function,
    ensures
        code is NoError ==> r is Ok && r->Ok_0.wf() && r->Ok_0.as_value_spec() == result,
        !(code is NoError) ==> r == Result::<Function, Error>::Err(
            translate_spec(code, exception_message)->Err_0,
        ),
{
    match translate(code, exception_message) {
        Ok(_) => {
            match result.into_function() {
                Some(function) => Ok(function),
                None => Err(Error::JsrtCall(JsErrorCode::InvalidArgument)),
            }
        },
        Err(error) => Err(error),
    }
}

} // verus!
