use jsrt::Handle;
use jsrt::JsPropertyIdType;
use jsrt::Property;
use jsrt::value::ArrayBuffer;

#[test]
fn buffer_sizes_are_computed_exactly() {
    assert_eq!(ArrayBuffer::byte_size_of(0, 8), Some(0));
    assert_eq!(ArrayBuffer::byte_size_of(3, 4), Some(12));
    assert_eq!(ArrayBuffer::byte_size_of(1024, 8), Some(8192));
}

#[test]
fn oversized_buffers_are_refused_instead_of_wrapping() {
    assert_eq!(ArrayBuffer::byte_size_of(usize::MAX, 2), None);
    assert_eq!(ArrayBuffer::byte_size_of(usize::MAX / 2 + 1, 2), None);
    assert_eq!(ArrayBuffer::byte_size_of(usize::MAX, 1), Some(usize::MAX));
}

#[test]
fn properties_carry_their_handle_and_kind() {
    let p = Property::from_raw(Handle::from_raw(0x123), JsPropertyIdType::String);
    assert_eq!(p.as_raw(), Handle::from_raw(0x123));
    assert!(p.is_string_property());

    let s = Property::from_raw(Handle::from_raw(0x456), JsPropertyIdType::Symbol);
    assert!(!s.is_string_property());
}
