use jsrt::error::Error;
use jsrt::error::jstry;
use jsrt::error::needs_exception_fetch;
use jsrt::error::translate;
use jsrt::ErrorCategory;
use jsrt::JsErrorCode;

#[test]
fn translate_success_is_ok() {
    assert!(translate(JsErrorCode::NoError, String::new()).is_ok());
    assert!(translate(JsErrorCode::NoError, String::from("ignored")).is_ok());
}

#[test]
fn translate_script_exception_carries_message() {
    let r = translate(
        JsErrorCode::ScriptException,
        String::from("Unable to set property '0' of undefined or null reference"),
    );
    match r {
        Err(Error::ScriptException(message)) => {
            assert_eq!(
                message,
                "Unable to set property '0' of undefined or null reference"
            );
            assert!(!message.is_empty());
        }
        other => panic!("expected a script exception, got {:?}", other),
    }
}

#[test]
fn translate_compile_error_carries_message() {
    let r = translate(JsErrorCode::ScriptCompile, String::from("Syntax error"));
    match r {
        Err(Error::ScriptCompilation(message)) => assert_eq!(message, "Syntax error"),
        other => panic!("expected a compile error, got {:?}", other),
    }
}

#[test]
fn translate_other_failures_carry_the_raw_status() {
    let r = translate(JsErrorCode::OutOfMemory, String::new());
    match r {
        Err(Error::JsrtCall(code)) => assert_eq!(code, JsErrorCode::OutOfMemory),
        other => panic!("expected a call error, got {:?}", other),
    }
    let r = translate(JsErrorCode::WrongThread, String::from("ignored"));
    assert!(matches!(r, Err(Error::JsrtCall(JsErrorCode::WrongThread))));
}

#[test]
fn script_errors_are_recognised() {
    let exception = Error::ScriptException(String::from("boom"));
    let compile = Error::ScriptCompilation(String::from("bad"));
    let call = Error::JsrtCall(JsErrorCode::InvalidArgument);
    assert!(exception.is_script_error());
    assert!(compile.is_script_error());
    assert!(!call.is_script_error());
    assert_eq!(exception.message().map(String::as_str), Some("boom"));
    assert_eq!(compile.message().map(String::as_str), Some("bad"));
    assert_eq!(call.message(), None);
}

#[test]
fn jstry_gates_on_success_only() {
    assert_eq!(jstry(JsErrorCode::NoError), Ok(()));
    assert_eq!(
        jstry(JsErrorCode::InvalidArgument),
        Err(JsErrorCode::InvalidArgument)
    );
    assert_eq!(
        jstry(JsErrorCode::ScriptTerminated),
        Err(JsErrorCode::ScriptTerminated)
    );
}

#[test]
fn exception_fetch_is_needed_exactly_for_pending_exceptions() {
    assert!(needs_exception_fetch(JsErrorCode::ScriptException));
    assert!(needs_exception_fetch(JsErrorCode::ScriptCompile));
    assert!(!needs_exception_fetch(JsErrorCode::NoError));
    assert!(!needs_exception_fetch(JsErrorCode::ScriptTerminated));
    assert!(!needs_exception_fetch(JsErrorCode::OutOfMemory));
    assert!(!needs_exception_fetch(JsErrorCode::NoCurrentContext));
}

#[test]
fn categories_follow_the_taxonomy() {
    assert_eq!(JsErrorCode::NoError.category(), ErrorCategory::Success);
    assert_eq!(JsErrorCode::InvalidArgument.category(), ErrorCategory::Usage);
    assert_eq!(JsErrorCode::RuntimeInUse.category(), ErrorCategory::Usage);
    assert_eq!(JsErrorCode::OutOfMemory.category(), ErrorCategory::Engine);
    assert_eq!(JsErrorCode::ScriptException.category(), ErrorCategory::Script);
    assert_eq!(JsErrorCode::ScriptCompile.category(), ErrorCategory::Script);
    assert_eq!(JsErrorCode::Fatal.category(), ErrorCategory::Fatal);
    assert_eq!(
        JsErrorCode::DiagNotAtBreak.category(),
        ErrorCategory::Diagnostics
    );
}
