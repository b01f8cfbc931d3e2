use nvpair::{decode_nvlist, NvList, NvValue, RawNvList, RawPair, RawValue};

fn pair(name: &str, value: RawValue) -> RawPair {
    RawPair { name: name.as_bytes().to_vec(), value }
}

fn raw_list(pairs: Vec<RawPair>) -> RawNvList {
    RawNvList { pairs }
}

fn one(name: &str, value: RawValue) -> NvList {
    decode_nvlist(&raw_list(vec![pair(name, value)]))
}

fn text(s: &str) -> RawValue {
    RawValue::String(s.as_bytes().to_vec())
}

// ---- Scalar type tests ----

#[test]
fn test_boolean() {
    let result = one("flag", RawValue::Boolean);
    assert_eq!(result.lookup("flag"), Some(&NvValue::Boolean));
}

#[test]
fn test_boolean_value_true() {
    let result = one("enabled", RawValue::BooleanValue(1));
    assert_eq!(result.lookup("enabled"), Some(&NvValue::BooleanValue(true)));
}

#[test]
fn test_boolean_value_false() {
    let result = one("enabled", RawValue::BooleanValue(0));
    assert_eq!(result.lookup("enabled"), Some(&NvValue::BooleanValue(false)));
}

#[test]
fn test_byte() {
    let result = one("b", RawValue::Byte(0xAB));
    assert_eq!(result.lookup("b"), Some(&NvValue::Byte(0xAB)));
}

#[test]
fn test_int8() {
    let result = one("v", RawValue::Int8(i8::MIN));
    assert_eq!(result.lookup("v"), Some(&NvValue::Int8(i8::MIN)));
}

#[test]
fn test_uint8() {
    let result = one("v", RawValue::UInt8(u8::MAX));
    assert_eq!(result.lookup("v"), Some(&NvValue::UInt8(u8::MAX)));
}

#[test]
fn test_int16() {
    let result = one("v", RawValue::Int16(i16::MIN));
    assert_eq!(result.lookup("v"), Some(&NvValue::Int16(i16::MIN)));
}

#[test]
fn test_uint16() {
    let result = one("v", RawValue::UInt16(u16::MAX));
    assert_eq!(result.lookup("v"), Some(&NvValue::UInt16(u16::MAX)));
}

#[test]
fn test_int32() {
    let result = one("v", RawValue::Int32(i32::MIN));
    assert_eq!(result.lookup("v"), Some(&NvValue::Int32(i32::MIN)));
}

#[test]
fn test_uint32() {
    let result = one("v", RawValue::UInt32(u32::MAX));
    assert_eq!(result.lookup("v"), Some(&NvValue::UInt32(u32::MAX)));
}

#[test]
fn test_int64() {
    let result = one("v", RawValue::Int64(i64::MIN));
    assert_eq!(result.lookup("v"), Some(&NvValue::Int64(i64::MIN)));
}

#[test]
fn test_uint64() {
    let result = one("v", RawValue::UInt64(u64::MAX));
    assert_eq!(result.lookup("v"), Some(&NvValue::UInt64(u64::MAX)));
}

#[test]
fn test_double() {
    let result = one("pi", RawValue::Double(std::f64::consts::PI.to_bits()));
    assert_eq!(
        result.lookup("pi"),
        Some(&NvValue::Double(std::f64::consts::PI.to_bits()))
    );
    match result.lookup("pi") {
        Some(NvValue::Double(bits)) => assert_eq!(f64::from_bits(*bits), std::f64::consts::PI),
        other => panic!("expected Double, got {other:?}"),
    }
}

#[test]
fn test_string() {
    let result = one("greeting", text("hello world"));
    assert_eq!(
        result.lookup("greeting"),
        Some(&NvValue::String("hello world".into()))
    );
}

#[test]
fn test_hrtime() {
    let result = one("ts", RawValue::Hrtime(123_456_789));
    assert_eq!(result.lookup("ts"), Some(&NvValue::Hrtime(123_456_789)));
}

// ---- Array type tests ----

#[test]
fn test_boolean_array() {
    let result = one("flags", RawValue::BooleanArray(vec![1, 0, 1]));
    assert_eq!(
        result.lookup("flags"),
        Some(&NvValue::BooleanArray(vec![true, false, true]))
    );
}

#[test]
fn test_byte_array() {
    let result = one("data", RawValue::ByteArray(vec![1, 2, 3]));
    assert_eq!(
        result.lookup("data"),
        Some(&NvValue::ByteArray(vec![1, 2, 3]))
    );
}

#[test]
fn test_int8_array() {
    let result = one("vals", RawValue::Int8Array(vec![i8::MIN, 0, i8::MAX]));
    assert_eq!(
        result.lookup("vals"),
        Some(&NvValue::Int8Array(vec![i8::MIN, 0, i8::MAX]))
    );
}

#[test]
fn test_uint8_array() {
    let result = one("vals", RawValue::UInt8Array(vec![0, 128, u8::MAX]));
    assert_eq!(
        result.lookup("vals"),
        Some(&NvValue::UInt8Array(vec![0, 128, u8::MAX]))
    );
}

#[test]
fn test_int16_array() {
    let result = one("vals", RawValue::Int16Array(vec![i16::MIN, 0, i16::MAX]));
    assert_eq!(
        result.lookup("vals"),
        Some(&NvValue::Int16Array(vec![i16::MIN, 0, i16::MAX]))
    );
}

#[test]
fn test_uint16_array() {
    let result = one("vals", RawValue::UInt16Array(vec![0, u16::MAX]));
    assert_eq!(
        result.lookup("vals"),
        Some(&NvValue::UInt16Array(vec![0, u16::MAX]))
    );
}

#[test]
fn test_int32_array() {
    let result = one("vals", RawValue::Int32Array(vec![i32::MIN, 0, i32::MAX]));
    assert_eq!(
        result.lookup("vals"),
        Some(&NvValue::Int32Array(vec![i32::MIN, 0, i32::MAX]))
    );
}

#[test]
fn test_uint32_array() {
    let result = one("vals", RawValue::UInt32Array(vec![0, u32::MAX]));
    assert_eq!(
        result.lookup("vals"),
        Some(&NvValue::UInt32Array(vec![0, u32::MAX]))
    );
}

#[test]
fn test_int64_array() {
    let result = one("vals", RawValue::Int64Array(vec![i64::MIN, 0, i64::MAX]));
    assert_eq!(
        result.lookup("vals"),
        Some(&NvValue::Int64Array(vec![i64::MIN, 0, i64::MAX]))
    );
}

#[test]
fn test_uint64_array() {
    let result = one("vals", RawValue::UInt64Array(vec![0, u64::MAX]));
    assert_eq!(
        result.lookup("vals"),
        Some(&NvValue::UInt64Array(vec![0, u64::MAX]))
    );
}

#[test]
fn test_string_array() {
    let names = ["alpha", "beta", "gamma"];
    let result = one(
        "names",
        RawValue::StringArray(names.iter().map(|s| s.as_bytes().to_vec()).collect()),
    );
    assert_eq!(
        result.lookup("names"),
        Some(&NvValue::StringArray(vec![
            "alpha".into(),
            "beta".into(),
            "gamma".into(),
        ]))
    );
}

#[test]
fn test_nvlist_array() {
    let child1 = raw_list(vec![pair("name", text("first"))]);
    let child2 = raw_list(vec![pair("name", text("second"))]);

    let result = one("items", RawValue::NvListArray(vec![child1, child2]));
    let items = result.lookup("items").unwrap();
    if let NvValue::NvListArray(arr) = items {
        assert_eq!(arr.len(), 2);
        assert_eq!(arr[0].lookup("name"), Some(&NvValue::String("first".into())));
        assert_eq!(arr[1].lookup("name"), Some(&NvValue::String("second".into())));
    } else {
        panic!("expected NvListArray, got {items:?}");
    }
}

// ---- Structural / edge case tests ----

#[test]
fn test_empty_nvlist() {
    let result = decode_nvlist(&raw_list(vec![]));
    assert!(result.pairs.is_empty());
}

#[test]
fn test_multiple_pairs_in_order() {
    let raw = raw_list(vec![
        pair("first", text("a")),
        pair("second", RawValue::Int32(42)),
        pair("third", RawValue::Boolean),
        pair("fourth", RawValue::UInt64(999)),
        pair("fifth", RawValue::Double(2.5f64.to_bits())),
    ]);

    let result = decode_nvlist(&raw);
    assert_eq!(result.pairs.len(), 5);
    assert_eq!(result.pairs[0].0, "first");
    assert_eq!(result.pairs[1].0, "second");
    assert_eq!(result.pairs[2].0, "third");
    assert_eq!(result.pairs[3].0, "fourth");
    assert_eq!(result.pairs[4].0, "fifth");

    assert_eq!(result.pairs[0].1, NvValue::String("a".into()));
    assert_eq!(result.pairs[1].1, NvValue::Int32(42));
    assert_eq!(result.pairs[2].1, NvValue::Boolean);
    assert_eq!(result.pairs[3].1, NvValue::UInt64(999));
    assert_eq!(result.pairs[4].1, NvValue::Double(2.5f64.to_bits()));
}

#[test]
fn test_nested_nvlist() {
    let inner = raw_list(vec![pair("key", text("value"))]);
    let result = one("child", RawValue::NvList(inner));
    if let Some(NvValue::NvList(child)) = result.lookup("child") {
        assert_eq!(child.lookup("key"), Some(&NvValue::String("value".into())));
    } else {
        panic!("expected nested NvList");
    }
}

#[test]
fn test_deeply_nested_nvlist() {
    let innermost = raw_list(vec![pair("depth", text("three"))]);
    let middle = raw_list(vec![pair("inner", RawValue::NvList(innermost))]);
    let result = one("middle", RawValue::NvList(middle));

    if let Some(NvValue::NvList(mid)) = result.lookup("middle") {
        if let Some(NvValue::NvList(inn)) = mid.lookup("inner") {
            assert_eq!(inn.lookup("depth"), Some(&NvValue::String("three".into())));
        } else {
            panic!("expected inner NvList");
        }
    } else {
        panic!("expected middle NvList");
    }
}

#[test]
fn test_empty_string() {
    let result = one("empty", text(""));
    assert_eq!(result.lookup("empty"), Some(&NvValue::String(String::new())));
}

#[test]
fn test_lookup_missing_key() {
    let result = one("exists", text("yes"));
    assert_eq!(result.lookup("exists"), Some(&NvValue::String("yes".into())));
    assert_eq!(result.lookup("missing"), None);
}
