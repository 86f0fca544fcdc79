use jsrt::JsErrorCode;
use jsrt::JsTypedArrayType;
use jsrt::JsValueType;

#[test]
fn error_codes_round_trip_over_the_boundary() {
    let codes = [
        JsErrorCode::NoError,
        JsErrorCode::InvalidArgument,
        JsErrorCode::NullArgument,
        JsErrorCode::NoCurrentContext,
        JsErrorCode::RuntimeInUse,
        JsErrorCode::IdleNotEnabled,
        JsErrorCode::ModuleEvaluated,
        JsErrorCode::OutOfMemory,
        JsErrorCode::ScriptException,
        JsErrorCode::ScriptCompile,
        JsErrorCode::ScriptTerminated,
        JsErrorCode::ScriptEvalDisabled,
        JsErrorCode::Fatal,
        JsErrorCode::WrongRuntime,
        JsErrorCode::DiagUnableToPerformAction,
    ];
    for code in codes {
        assert_eq!(JsErrorCode::from_u32(code.as_u32()), Some(code));
    }
}

#[test]
fn error_code_values_match_the_engine_header() {
    assert_eq!(JsErrorCode::NoError.as_u32(), 0);
    assert_eq!(JsErrorCode::CategoryUsage.as_u32(), 0x10000);
    assert_eq!(JsErrorCode::InvalidArgument.as_u32(), 0x10001);
    assert_eq!(JsErrorCode::NoCurrentContext.as_u32(), 0x10003);
    assert_eq!(JsErrorCode::OutOfMemory.as_u32(), 0x20001);
    assert_eq!(JsErrorCode::ScriptException.as_u32(), 0x30001);
    assert_eq!(JsErrorCode::ScriptCompile.as_u32(), 0x30002);
    assert_eq!(JsErrorCode::Fatal.as_u32(), 0x40001);
    assert_eq!(JsErrorCode::DiagNotAtBreak.as_u32(), 0x50003);
}

#[test]
fn unknown_raw_statuses_are_rejected() {
    assert_eq!(JsErrorCode::from_u32(0x12345), None);
    assert_eq!(JsErrorCode::from_u32(0x1001D), None);
    assert_eq!(JsErrorCode::from_u32(0x60000), None);
}

#[test]
fn value_type_tags_round_trip_over_the_boundary() {
    for raw in 0u32..13 {
        let tag = JsValueType::from_u32(raw).unwrap();
        assert_eq!(tag.as_u32(), raw);
    }
    assert_eq!(JsValueType::from_u32(13), None);
    assert_eq!(JsValueType::from_u32(u32::MAX), None);
}

#[test]
fn value_type_values_match_the_engine_header() {
    assert_eq!(JsValueType::Undefined.as_u32(), 0);
    assert_eq!(JsValueType::Null.as_u32(), 1);
    assert_eq!(JsValueType::Number.as_u32(), 2);
    assert_eq!(JsValueType::Object.as_u32(), 5);
    assert_eq!(JsValueType::Function.as_u32(), 6);
    assert_eq!(JsValueType::DataView.as_u32(), 12);
}

#[test]
fn typed_array_element_sizes() {
    assert_eq!(JsTypedArrayType::Int8.element_size(), 1);
    assert_eq!(JsTypedArrayType::Uint8.element_size(), 1);
    assert_eq!(JsTypedArrayType::Uint8Clamped.element_size(), 1);
    assert_eq!(JsTypedArrayType::Int16.element_size(), 2);
    assert_eq!(JsTypedArrayType::Uint16.element_size(), 2);
    assert_eq!(JsTypedArrayType::Int32.element_size(), 4);
    assert_eq!(JsTypedArrayType::Uint32.element_size(), 4);
    assert_eq!(JsTypedArrayType::Float32.element_size(), 4);
    assert_eq!(JsTypedArrayType::Float64.element_size(), 8);
}
