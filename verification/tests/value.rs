use rmp_rpc::value::values_equal;
use rmp_rpc::{Integer, Utf8String, Value};

#[test]
fn floats_compare_as_numbers() {
    assert_ne!(Value::F64(f64::NAN.to_bits()), Value::F64(f64::NAN.to_bits()));
    assert_ne!(Value::F32(f32::NAN.to_bits()), Value::F32(f32::NAN.to_bits()));
    assert_eq!(Value::F64(0.0f64.to_bits()), Value::F64((-0.0f64).to_bits()));
    assert_eq!(Value::F32(0.0f32.to_bits()), Value::F32((-0.0f32).to_bits()));
    assert_eq!(Value::F64(2.5f64.to_bits()), Value::F64(2.5f64.to_bits()));
    assert_ne!(Value::F64(2.5f64.to_bits()), Value::F64(3.5f64.to_bits()));
    assert_eq!(Value::F32(f32::INFINITY.to_bits()), Value::F32(f32::INFINITY.to_bits()));
    assert_ne!(Value::F32(1.0f32.to_bits()), Value::F64(1.0f64.to_bits()));
}

#[test]
fn nested_values_compare_item_by_item() {
    let a = Value::Array(vec![
        Value::Integer(Integer::from_i64(-4)),
        Value::Mapping(vec![(
            Value::String(Utf8String::from_str("k")),
            Value::F64(0.0f64.to_bits()),
        )]),
    ]);
    let b = Value::Array(vec![
        Value::Integer(Integer::from_i64(-4)),
        Value::Mapping(vec![(
            Value::String(Utf8String::from_str("k")),
            Value::F64((-0.0f64).to_bits()),
        )]),
    ]);
    assert!(values_equal(&a, &b));
    assert_eq!(a, b);
    let c = Value::Array(vec![Value::Integer(Integer::from_i64(-4))]);
    assert_ne!(a, c);
    let d = Value::Array(vec![Value::Array(vec![Value::F64(f64::NAN.to_bits())])]);
    assert_ne!(d, d.clone());
}

#[test]
fn integers_compare_by_number() {
    assert_eq!(Value::Integer(Integer::from_i64(7)), Value::Integer(Integer::from_u64(7)));
    assert_eq!(Value::Integer(Integer::from_u32(7)), Value::Integer(Integer::from_u64(7)));
    assert_ne!(Value::Integer(Integer::from_i64(-1)), Value::Integer(Integer::from_u64(u64::MAX)));
    assert_eq!(Integer::from_i64(-1).as_i64(), Some(-1));
    assert_eq!(Integer::from_i64(-1).as_u64(), None);
    assert_eq!(Integer::from_u64(u64::MAX).as_i64(), None);
}

#[test]
fn strings_and_bytes_compare_by_contents() {
    assert_eq!(Value::String(Utf8String::from_str("a")), Value::String(Utf8String::from_str("a")));
    assert_ne!(Value::String(Utf8String::from_str("a")), Value::String(Utf8String::from_str("b")));
    assert_ne!(Value::String(Utf8String::from_str("a")), Value::Binary(vec![b'a']));
    assert_eq!(Value::Binary(vec![1, 2]), Value::Binary(vec![1, 2]));
    assert_ne!(Value::Binary(vec![1, 2]), Value::Binary(vec![1, 3]));
    assert_ne!(Value::Ext(1, vec![1]), Value::Ext(2, vec![1]));
    assert_eq!(Value::Nil, Value::Nil);
    assert_ne!(Value::Nil, Value::Boolean(false));
}
