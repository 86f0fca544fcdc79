//! Translation of engine status codes into structured errors.
//!
//! Script-category failures (an exception thrown while running, or a compile
//! failure) are the only errors expected in normal operation; they carry the
//! message of the engine's pending exception, which the caller must retrieve
//! and clear before translating, because the engine stays disabled until the
//! exception is cleared.  Every other non-success status becomes a call
//! error carrying the raw status code.

use vstd::prelude::*;

use crate::codes::JsErrorCode;

verus! {

/// A structured error of this layer.
#[derive(Clone, Debug)]
pub enum Error {
    /// An exception was thrown while a script ran; carries the exception's
    /// string representation.
    ScriptException(String),
    /// A script failed to compile; carries the compile error's string
    /// representation.
    ScriptCompilation(String),
    /// Any other hosting call failure, carrying the raw status code.
    JsrtCall(JsErrorCode),
}

impl Error {
    /// Whether this error came from a script (exception or compile failure)
    /// rather than from misuse of the hosting interface.
    pub open spec fn is_script_error_spec(self) -> bool {
        self is ScriptException || self is ScriptCompilation
    }

    /// Whether this error came from a script (exception or compile failure)
    /// rather than from misuse of the hosting interface.
    pub fn is_script_error(&self) -> (r: bool)
        ensures
            r == self.is_script_error_spec(),
    {
        match self {
            Error::ScriptException(_) => true,
            Error::ScriptCompilation(_) => true,
            Error::JsrtCall(_) => false,
        }
    }

    /// The exception or compile-error message, for script errors.
    pub fn message(&self) -> (r: Option<&String>)
        ensures
            match r {
                Some(m) => (*self matches Error::ScriptException(s) && m == s)
                    || (*self matches Error::ScriptCompilation(s) && m == s),
                None => *self is JsrtCall,
            },
    {
        match self {
            Error::ScriptException(m) => Some(m),
            Error::ScriptCompilation(m) => Some(m),
            Error::JsrtCall(_) => None,
        }
    }
}

/// Turns a raw status code into a result, without touching the engine.
///
/// This is the check placed directly after a hosting call whose failure
/// needs no exception retrieval: success passes through, any other status
/// comes back unchanged as the error.
pub fn jstry(code: JsErrorCode) -> (r: Result<(), JsErrorCode>)
    ensures
        r == if code is NoError {
            Result::<(), JsErrorCode>::Ok(())
        } else {
            Result::<(), JsErrorCode>::Err(code)
        },
{
    if code == JsErrorCode::NoError {
        Ok(())
    } else {
        Err(code)
    }
}

/// Whether translating this status requires the engine's pending exception.
///
/// Exactly the two script-category statuses that leave a pending exception
/// behind need it; for those the caller must retrieve and clear the
/// exception (the engine stays disabled until it is cleared) and hand its
/// message to [`translate`].
pub fn needs_exception_fetch(code: JsErrorCode) -> (r: bool)
    ensures
        r == (code is ScriptException || code is ScriptCompile),
{
    match code {
        JsErrorCode::ScriptException => true,
        JsErrorCode::ScriptCompile => true,
        _ => false,
    }
}

/// What [`translate`] returns for a given status and exception message.
pub open spec fn translate_spec(code: JsErrorCode, exception_message: String) -> Result<
    (),
    Error,
> {
    match code {
        JsErrorCode::NoError => Ok(()),
        JsErrorCode::ScriptException => Err(Error::ScriptException(exception_message)),
        JsErrorCode::ScriptCompile => Err(Error::ScriptCompilation(exception_message)),
        _ => Err(Error::JsrtCall(code)),
    }
}

/// The single entry point of error translation.
///
/// Success translates to success.  The two script-category statuses that
/// carry a pending exception translate to the script errors, wrapping the
/// message that was retrieved from the exception; `exception_message` is
/// ignored for every other status.  Any other failure becomes a call error
/// carrying the raw status code.
pub fn translate(code: JsErrorCode, exception_message: String) -> (r: Result<(), Error>)
    ensures
        r == translate_spec(code, exception_message),
        r is Ok <==> code is NoError,
{
    match code {
        JsErrorCode::NoError => Ok(()),
        JsErrorCode::ScriptException => Err(Error::ScriptException(exception_message)),
        JsErrorCode::ScriptCompile => Err(Error::ScriptCompilation(exception_message)),
        _ => Err(Error::JsrtCall(code)),
    }
}

/// Translation succeeds exactly on the success status, yields a script
/// error carrying the retrieved message exactly for the two script-category
/// statuses that leave a pending exception, and otherwise reports the raw
/// status: no failure is swallowed and no message is lost.
pub proof fn lemma_translate_exact(code: JsErrorCode, exception_message: String)
    ensures
        translate_spec(code, exception_message) is Ok <==> code is NoError,
        code is ScriptException ==> translate_spec(code, exception_message) == Result::<
            (),
            Error,
        >::Err(Error::ScriptException(exception_message)),
        code is ScriptCompile ==> translate_spec(code, exception_message) == Result::<
            (),
            Error,
        >::Err(Error::ScriptCompilation(exception_message)),
        !(code is NoError || code is ScriptException || code is ScriptCompile)
            ==> translate_spec(code, exception_message) == Result::<(), Error>::Err(
            Error::JsrtCall(code),
        ),
{
}

} // verus!
