use nvpair::raw::{
    DATA_TYPE_BOOLEAN, DATA_TYPE_BOOLEAN_ARRAY, DATA_TYPE_BOOLEAN_VALUE, DATA_TYPE_BYTE,
    DATA_TYPE_BYTE_ARRAY, DATA_TYPE_DONTCARE, DATA_TYPE_DOUBLE, DATA_TYPE_HRTIME,
    DATA_TYPE_INT16, DATA_TYPE_INT16_ARRAY, DATA_TYPE_INT32, DATA_TYPE_INT32_ARRAY,
    DATA_TYPE_INT64, DATA_TYPE_INT64_ARRAY, DATA_TYPE_INT8, DATA_TYPE_INT8_ARRAY,
    DATA_TYPE_NVLIST, DATA_TYPE_NVLIST_ARRAY, DATA_TYPE_STRING, DATA_TYPE_STRING_ARRAY,
    DATA_TYPE_UINT16, DATA_TYPE_UINT16_ARRAY, DATA_TYPE_UINT32, DATA_TYPE_UINT32_ARRAY,
    DATA_TYPE_UINT64, DATA_TYPE_UINT64_ARRAY, DATA_TYPE_UINT8, DATA_TYPE_UINT8_ARRAY,
    DATA_TYPE_UNKNOWN,
};
use nvpair::{decode_nvlist, decode_value, read_matches, value_kind, NvValue, RawNvList, RawPair, RawValue, ValueKind};

fn pair(name: &[u8], value: RawValue) -> RawPair {
    RawPair { name: name.to_vec(), value }
}

#[test]
fn value_kind_names_every_known_code() {
    let table = [
        (DATA_TYPE_BOOLEAN, ValueKind::Boolean, 1),
        (DATA_TYPE_BYTE, ValueKind::Byte, 2),
        (DATA_TYPE_INT16, ValueKind::Int16, 3),
        (DATA_TYPE_UINT16, ValueKind::UInt16, 4),
        (DATA_TYPE_INT32, ValueKind::Int32, 5),
        (DATA_TYPE_UINT32, ValueKind::UInt32, 6),
        (DATA_TYPE_INT64, ValueKind::Int64, 7),
        (DATA_TYPE_UINT64, ValueKind::UInt64, 8),
        (DATA_TYPE_STRING, ValueKind::String, 9),
        (DATA_TYPE_BYTE_ARRAY, ValueKind::ByteArray, 10),
        (DATA_TYPE_INT16_ARRAY, ValueKind::Int16Array, 11),
        (DATA_TYPE_UINT16_ARRAY, ValueKind::UInt16Array, 12),
        (DATA_TYPE_INT32_ARRAY, ValueKind::Int32Array, 13),
        (DATA_TYPE_UINT32_ARRAY, ValueKind::UInt32Array, 14),
        (DATA_TYPE_INT64_ARRAY, ValueKind::Int64Array, 15),
        (DATA_TYPE_UINT64_ARRAY, ValueKind::UInt64Array, 16),
        (DATA_TYPE_STRING_ARRAY, ValueKind::StringArray, 17),
        (DATA_TYPE_HRTIME, ValueKind::Hrtime, 18),
        (DATA_TYPE_NVLIST, ValueKind::NvList, 19),
        (DATA_TYPE_NVLIST_ARRAY, ValueKind::NvListArray, 20),
        (DATA_TYPE_BOOLEAN_VALUE, ValueKind::BooleanValue, 21),
        (DATA_TYPE_INT8, ValueKind::Int8, 22),
        (DATA_TYPE_UINT8, ValueKind::UInt8, 23),
        (DATA_TYPE_BOOLEAN_ARRAY, ValueKind::BooleanArray, 24),
        (DATA_TYPE_INT8_ARRAY, ValueKind::Int8Array, 25),
        (DATA_TYPE_UINT8_ARRAY, ValueKind::UInt8Array, 26),
        (DATA_TYPE_DOUBLE, ValueKind::Double, 27),
    ];
    for (code, kind, number) in table {
        assert_eq!(code, number);
        assert_eq!(value_kind(code), kind);
    }
}

#[test]
fn value_kind_unknown_codes() {
    assert_eq!(value_kind(DATA_TYPE_UNKNOWN), ValueKind::Unknown);
    assert_eq!(value_kind(DATA_TYPE_DONTCARE), ValueKind::Unknown);
    assert_eq!(value_kind(28), ValueKind::Unknown);
    assert_eq!(value_kind(i32::MAX), ValueKind::Unknown);
    assert_eq!(value_kind(i32::MIN), ValueKind::Unknown);
}

#[test]
fn unknown_pair_keeps_its_code() {
    let raw = RawNvList { pairs: vec![pair(b"odd", RawValue::Unknown(99))] };
    let result = decode_nvlist(&raw);
    assert_eq!(result.lookup("odd"), Some(&NvValue::Unknown { type_code: 99 }));
}

#[test]
fn nonzero_boolean_is_true() {
    assert_eq!(decode_value(&RawValue::BooleanValue(2)), NvValue::BooleanValue(true));
    assert_eq!(decode_value(&RawValue::BooleanValue(u32::MAX)), NvValue::BooleanValue(true));
    assert_eq!(
        decode_value(&RawValue::BooleanArray(vec![0, 7, 1, 0])),
        NvValue::BooleanArray(vec![false, true, true, false])
    );
}

#[test]
fn invalid_utf8_is_replaced() {
    let raw = RawNvList {
        pairs: vec![pair(b"bad\xff", RawValue::String(b"x\xfe\xffy".to_vec()))],
    };
    let result = decode_nvlist(&raw);
    assert_eq!(result.pairs.len(), 1);
    assert_eq!(result.pairs[0].0, "bad\u{FFFD}");
    assert_eq!(result.pairs[0].1, NvValue::String("x\u{FFFD}\u{FFFD}y".into()));
    assert_eq!(
        decode_value(&RawValue::StringArray(vec![b"ok".to_vec(), b"\xc3".to_vec()])),
        NvValue::StringArray(vec!["ok".into(), "\u{FFFD}".into()])
    );
}

#[test]
fn valid_utf8_is_kept() {
    let raw = RawNvList {
        pairs: vec![pair("naïve".as_bytes(), RawValue::String("日本".as_bytes().to_vec()))],
    };
    let result = decode_nvlist(&raw);
    assert_eq!(result.lookup("naïve"), Some(&NvValue::String("日本".into())));
}

#[test]
fn lookup_finds_first_of_duplicate_names() {
    let raw = RawNvList {
        pairs: vec![
            pair(b"a", RawValue::Int32(1)),
            pair(b"b", RawValue::Int32(2)),
            pair(b"a", RawValue::Int32(3)),
        ],
    };
    let result = decode_nvlist(&raw);
    assert_eq!(result.lookup("a"), Some(&NvValue::Int32(1)));
    assert_eq!(result.lookup("b"), Some(&NvValue::Int32(2)));
    assert_eq!(result.lookup(""), None);
    assert_eq!(result.lookup("A"), None);
}

#[test]
fn lookup_in_empty_list() {
    let result = decode_nvlist(&RawNvList { pairs: vec![] });
    assert_eq!(result.lookup("anything"), None);
}

#[test]
fn nested_arrays_of_lists_decode_deeply() {
    let leaf = RawNvList { pairs: vec![pair(b"n", RawValue::UInt8(5))] };
    let holder = RawNvList { pairs: vec![pair(b"leaves", RawValue::NvListArray(vec![leaf]))] };
    let value = decode_value(&RawValue::NvListArray(vec![holder, RawNvList { pairs: vec![] }]));
    match value {
        NvValue::NvListArray(lists) => {
            assert_eq!(lists.len(), 2);
            assert!(lists[1].pairs.is_empty());
            match lists[0].lookup("leaves") {
                Some(NvValue::NvListArray(inner)) => {
                    assert_eq!(inner[0].lookup("n"), Some(&NvValue::UInt8(5)));
                }
                other => panic!("expected NvListArray, got {other:?}"),
            }
        }
        other => panic!("expected NvListArray, got {other:?}"),
    }
}

#[test]
fn clone_is_a_deep_copy() {
    let inner = RawNvList { pairs: vec![pair(b"k", RawValue::String(b"v".to_vec()))] };
    let raw = RawNvList {
        pairs: vec![
            pair(b"list", RawValue::NvList(inner)),
            pair(b"nums", RawValue::Int64Array(vec![-1, 2])),
            pair(b"names", RawValue::StringArray(vec![b"p".to_vec(), b"q".to_vec()])),
            pair(b"odd", RawValue::Unknown(40)),
        ],
    };
    let original = decode_nvlist(&raw);
    let copy = original.clone();
    assert_eq!(copy, original);
    assert_eq!(copy.lookup("nums"), Some(&NvValue::Int64Array(vec![-1, 2])));
    let value = original.lookup("list").unwrap().clone();
    assert_eq!(&value, original.lookup("list").unwrap());
    drop(original);
    assert_eq!(copy.pairs.len(), 4);
    assert_eq!(copy.lookup("odd"), Some(&NvValue::Unknown { type_code: 40 }));
}

#[test]
fn read_matches_checks_kind_against_code() {
    assert!(read_matches(DATA_TYPE_INT8, &RawValue::Int8(-1)));
    assert!(!read_matches(DATA_TYPE_INT8, &RawValue::UInt8(1)));
    assert!(read_matches(DATA_TYPE_UINT8_ARRAY, &RawValue::UInt8Array(vec![])));
    assert!(!read_matches(DATA_TYPE_UINT8_ARRAY, &RawValue::ByteArray(vec![])));
    assert!(read_matches(DATA_TYPE_BOOLEAN, &RawValue::Boolean));
    assert!(read_matches(DATA_TYPE_DOUBLE, &RawValue::Double(0)));
    assert!(read_matches(
        DATA_TYPE_NVLIST_ARRAY,
        &RawValue::NvListArray(vec![RawNvList { pairs: vec![] }])
    ));
    assert!(read_matches(99, &RawValue::Unknown(99)));
    assert!(!read_matches(99, &RawValue::Unknown(98)));
    assert!(!read_matches(DATA_TYPE_INT8, &RawValue::Unknown(DATA_TYPE_INT8)));
    assert!(!read_matches(0, &RawValue::Boolean));
}
