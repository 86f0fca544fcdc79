use jsrt::Handle;
use jsrt::JsErrorCode;
use jsrt::JsValueType;
use jsrt::error::Error;
use jsrt::script::eval_outcome;
use jsrt::script::generate_source_context;
use jsrt::script::parse_outcome;
use jsrt::value::Value;

fn value(raw: usize, tag: JsValueType) -> Value {
    Value::from_parts(Handle::from_raw(raw), tag, false)
}

#[test]
fn evaluation_success_yields_the_result_value() {
    let result = value(0x50, JsValueType::Number);
    let r = eval_outcome(JsErrorCode::NoError, String::new(), result);
    assert_eq!(r.unwrap(), result);
}

#[test]
fn script_error_round_trip() {
    // A failing evaluation yields a script exception with a non-empty
    // message, and a subsequent successful evaluation still yields its
    // value: translation clears the way instead of wedging the layer.
    let junk = value(0, JsValueType::Undefined);
    let failed = eval_outcome(
        JsErrorCode::ScriptException,
        String::from("Unable to set property '0' of undefined or null reference"),
        junk,
    );
    match failed {
        Err(Error::ScriptException(message)) => assert!(!message.is_empty()),
        other => panic!("expected a script exception, got {:?}", other),
    }

    let ten = value(0x10, JsValueType::Number);
    let ok = eval_outcome(JsErrorCode::NoError, String::new(), ten);
    assert_eq!(ok.unwrap(), ten);
}

#[test]
fn compile_failure_is_a_compilation_error() {
    let junk = value(0, JsValueType::Undefined);
    let r = eval_outcome(
        JsErrorCode::ScriptCompile,
        String::from("Expected identifier"),
        junk,
    );
    assert!(matches!(r, Err(Error::ScriptCompilation(m)) if m == "Expected identifier"));
}

#[test]
fn parse_success_yields_a_callable() {
    let parsed = value(0x60, JsValueType::Function);
    let function = parse_outcome(JsErrorCode::NoError, String::new(), parsed).unwrap();
    assert_eq!(function.as_value(), parsed);
    assert!(function.as_value().is_function());
}

#[test]
fn parse_failure_translates_like_evaluation() {
    let junk = value(0, JsValueType::Undefined);
    let r = parse_outcome(JsErrorCode::ScriptCompile, String::from("bad token"), junk);
    assert!(matches!(r, Err(Error::ScriptCompilation(m)) if m == "bad token"));

    let r = parse_outcome(JsErrorCode::OutOfMemory, String::new(), junk);
    assert!(matches!(r, Err(Error::JsrtCall(JsErrorCode::OutOfMemory))));
}

#[test]
fn source_context_is_one_constant() {
    assert_eq!(generate_source_context(), usize::MAX);
    assert_eq!(generate_source_context(), generate_source_context());
}
