use jsrt::Handle;
use jsrt::JsValueType;
use jsrt::value::External;
use jsrt::value::Object;
use jsrt::value::Value;

fn value(raw: usize, tag: JsValueType) -> Value {
    Value::from_parts(Handle::from_raw(raw), tag, false)
}

#[test]
fn downcast_failure_loses_nothing() {
    // A value holding a number must fail the object downcast without
    // losing the original handle: it can still be read as the number it
    // is afterwards.
    let number = value(0x42, JsValueType::Number);

    assert!(number.clone().into_object().is_none());

    assert_eq!(number.get_type(), JsValueType::Number);
    let as_number = number.into_number().unwrap();
    assert_eq!(as_number.as_raw(), Handle::from_raw(0x42));
}

#[test]
fn object_family_membership() {
    let object_tags = [
        JsValueType::Object,
        JsValueType::Function,
        JsValueType::Error,
        JsValueType::Array,
        JsValueType::ArrayBuffer,
        JsValueType::TypedArray,
        JsValueType::DataView,
    ];
    let non_object_tags = [
        JsValueType::Undefined,
        JsValueType::Null,
        JsValueType::Number,
        JsValueType::String,
        JsValueType::Boolean,
        JsValueType::Symbol,
    ];
    for tag in object_tags {
        let v = value(1, tag);
        assert!(Object::is_same(&v));
        assert!(v.into_object().is_some());
    }
    for tag in non_object_tags {
        let v = value(1, tag);
        assert!(!Object::is_same(&v));
        assert!(v.into_object().is_none());
    }
}

#[test]
fn downcasts_are_tag_exact() {
    let function = value(3, JsValueType::Function);
    assert!(function.is_function());
    assert!(function.is_object());
    assert!(!function.is_array());
    assert!(function.clone().into_function().is_some());
    assert!(function.clone().into_array().is_none());
    assert!(function.clone().into_number().is_none());

    let array = value(4, JsValueType::Array);
    assert!(array.clone().into_array().is_some());
    assert!(array.clone().into_array_buffer().is_none());

    let string = value(5, JsValueType::String);
    assert!(string.is_string());
    assert!(string.clone().into_string().is_some());
    assert!(string.into_object().is_none());

    let boolean = value(6, JsValueType::Boolean);
    assert!(boolean.clone().into_boolean().is_some());
    assert!(boolean.into_object().is_none());

    let error = value(7, JsValueType::Error);
    assert!(error.clone().into_error().is_some());
    assert!(error.into_object().is_some());
}

#[test]
fn upcasts_keep_the_handle() {
    let raw = Handle::from_raw(0x77);
    let array = Value::from_parts(raw, JsValueType::Array, false)
        .into_array()
        .unwrap();
    let object = array.as_object();
    assert_eq!(object.as_raw(), raw);
    assert_eq!(object.as_value().as_raw(), raw);
    assert_eq!(array.as_value().get_type(), JsValueType::Array);
}

#[test]
fn externals_are_objects_with_external_data() {
    let plain = Value::from_parts(Handle::from_raw(1), JsValueType::Object, false);
    let external = Value::from_parts(Handle::from_raw(2), JsValueType::Object, true);
    let tagged_function = Value::from_parts(Handle::from_raw(3), JsValueType::Function, true);

    assert!(!External::is_same(&plain));
    assert!(External::is_same(&external));
    // The external-data refinement is checked on plain objects only.
    assert!(!External::is_same(&tagged_function));

    assert!(plain.into_external().is_none());
    let e = external.into_external().unwrap();
    assert_eq!(e.as_raw(), Handle::from_raw(2));
    assert!(e.as_object().as_value().is_object());
}

#[test]
fn null_handles_are_recognised() {
    assert!(Handle::null().is_null());
    assert!(!Handle::from_raw(5).is_null());
    assert_eq!(Handle::null().as_raw(), 0);
}
