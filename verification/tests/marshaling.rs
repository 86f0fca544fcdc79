use jsrt::Handle;
use jsrt::JsValueType;
use jsrt::callback::CallbackInfo;
use jsrt::callback::CallbackReturn;
use jsrt::callback::callback_return;
use jsrt::callback::pack_call_arguments;
use jsrt::value::Value;

fn value(raw: usize, tag: JsValueType) -> Value {
    Value::from_parts(Handle::from_raw(raw), tag, false)
}

#[test]
fn callback_info_splits_this_from_arguments() {
    // The engine passes [this, argument, argument]; the callback sees
    // `this` and the two caller-supplied arguments, in order.
    let this = value(0x1, JsValueType::Object);
    let callee = value(0x2, JsValueType::Function);
    let first = value(0x3, JsValueType::Number);
    let second = value(0x4, JsValueType::String);

    let info = CallbackInfo::from_arguments(false, callee, vec![this, first, second]);
    assert!(!info.is_construct_call);
    assert_eq!(info.callee, callee);
    assert_eq!(info.this, this);
    assert_eq!(info.arguments, vec![first, second]);
}

#[test]
fn callback_info_with_no_caller_arguments() {
    let this = value(0x9, JsValueType::Object);
    let callee = value(0xA, JsValueType::Function);
    let info = CallbackInfo::from_arguments(true, callee, vec![this]);
    assert!(info.is_construct_call);
    assert_eq!(info.this, this);
    assert!(info.arguments.is_empty());
}

#[test]
fn successful_callbacks_return_their_value() {
    let result = value(0x10, JsValueType::Number);
    let r = callback_return(Ok(result));
    assert_eq!(
        r,
        CallbackReturn {
            handle: Handle::from_raw(0x10),
            set_exception: false,
        }
    );
}

#[test]
fn failed_callbacks_set_the_exception_and_return_it() {
    let error = value(0x20, JsValueType::Error);
    let r = callback_return(Err(error));
    assert_eq!(
        r,
        CallbackReturn {
            handle: Handle::from_raw(0x20),
            set_exception: true,
        }
    );
}

#[test]
fn call_arguments_are_packed_with_this_first() {
    let this = value(0x1, JsValueType::Object);
    let first = value(0x2, JsValueType::Number);
    let second = value(0x3, JsValueType::Number);

    let packed = pack_call_arguments(&this, &vec![first, second]);
    assert_eq!(
        packed,
        vec![
            Handle::from_raw(0x1),
            Handle::from_raw(0x2),
            Handle::from_raw(0x3)
        ]
    );

    let no_arguments = pack_call_arguments(&this, &Vec::new());
    assert_eq!(no_arguments, vec![Handle::from_raw(0x1)]);
}
