use vstd::prelude::*;

verus! {

// The data-type codes that libnvpair gives each pair (`data_type_t`).
pub const DATA_TYPE_DONTCARE: i32 = -1;
pub const DATA_TYPE_UNKNOWN: i32 = 0;
pub const DATA_TYPE_BOOLEAN: i32 = 1;
pub const DATA_TYPE_BYTE: i32 = 2;
pub const DATA_TYPE_INT16: i32 = 3;
pub const DATA_TYPE_UINT16: i32 = 4;
pub const DATA_TYPE_INT32: i32 = 5;
pub const DATA_TYPE_UINT32: i32 = 6;
pub const DATA_TYPE_INT64: i32 = 7;
pub const DATA_TYPE_UINT64: i32 = 8;
pub const DATA_TYPE_STRING: i32 = 9;
pub const DATA_TYPE_BYTE_ARRAY: i32 = 10;
pub const DATA_TYPE_INT16_ARRAY: i32 = 11;
pub const DATA_TYPE_UINT16_ARRAY: i32 = 12;
pub const DATA_TYPE_INT32_ARRAY: i32 = 13;
pub const DATA_TYPE_UINT32_ARRAY: i32 = 14;
pub const DATA_TYPE_INT64_ARRAY: i32 = 15;
pub const DATA_TYPE_UINT64_ARRAY: i32 = 16;
pub const DATA_TYPE_STRING_ARRAY: i32 = 17;
pub const DATA_TYPE_HRTIME: i32 = 18;
pub const DATA_TYPE_NVLIST: i32 = 19;
pub const DATA_TYPE_NVLIST_ARRAY: i32 = 20;
pub const DATA_TYPE_BOOLEAN_VALUE: i32 = 21;
pub const DATA_TYPE_INT8: i32 = 22;
pub const DATA_TYPE_UINT8: i32 = 23;
pub const DATA_TYPE_BOOLEAN_ARRAY: i32 = 24;
pub const DATA_TYPE_INT8_ARRAY: i32 = 25;
pub const DATA_TYPE_UINT8_ARRAY: i32 = 26;
pub const DATA_TYPE_DOUBLE: i32 = 27;

/// Which value a pair holds, and so which libnvpair accessor reads it.
#[derive(Debug, Clone, Copy, PartialEq, Eq, Structural)]
pub enum ValueKind {
    Boolean,
    BooleanValue,
    Byte,
    Int8,
    UInt8,
    Int16,
    UInt16,
    Int32,
    UInt32,
    Int64,
    UInt64,
    Double,
    String,
    Hrtime,
    NvList,
    BooleanArray,
    ByteArray,
    Int8Array,
    UInt8Array,
    Int16Array,
    UInt16Array,
    Int32Array,
    UInt32Array,
    Int64Array,
    UInt64Array,
    StringArray,
    NvListArray,
    /// A data-type code this library does not recognize.
    Unknown,
}

/// `code` is one of the data-type codes this library recognizes, those
/// from `DATA_TYPE_BOOLEAN` to `DATA_TYPE_DOUBLE`.
pub open spec fn is_recognized_code(code: i32) -> bool {
    DATA_TYPE_BOOLEAN <= code <= DATA_TYPE_DOUBLE
}

/// The data-type code of a recognized kind (`DATA_TYPE_UNKNOWN` for `Unknown`).
pub open spec fn kind_code(kind: ValueKind) -> i32 {
    match kind {
        ValueKind::Boolean => DATA_TYPE_BOOLEAN,
        ValueKind::BooleanValue => DATA_TYPE_BOOLEAN_VALUE,
        ValueKind::Byte => DATA_TYPE_BYTE,
        ValueKind::Int8 => DATA_TYPE_INT8,
        ValueKind::UInt8 => DATA_TYPE_UINT8,
        ValueKind::Int16 => DATA_TYPE_INT16,
        ValueKind::UInt16 => DATA_TYPE_UINT16,
        ValueKind::Int32 => DATA_TYPE_INT32,
        ValueKind::UInt32 => DATA_TYPE_UINT32,
        ValueKind::Int64 => DATA_TYPE_INT64,
        ValueKind::UInt64 => DATA_TYPE_UINT64,
        ValueKind::Double => DATA_TYPE_DOUBLE,
        ValueKind::String => DATA_TYPE_STRING,
        ValueKind::Hrtime => DATA_TYPE_HRTIME,
        ValueKind::NvList => DATA_TYPE_NVLIST,
        ValueKind::BooleanArray => DATA_TYPE_BOOLEAN_ARRAY,
        ValueKind::ByteArray => DATA_TYPE_BYTE_ARRAY,
        ValueKind::Int8Array => DATA_TYPE_INT8_ARRAY,
        ValueKind::UInt8Array => DATA_TYPE_UINT8_ARRAY,
        ValueKind::Int16Array => DATA_TYPE_INT16_ARRAY,
        ValueKind::UInt16Array => DATA_TYPE_UINT16_ARRAY,
        ValueKind::Int32Array => DATA_TYPE_INT32_ARRAY,
        ValueKind::UInt32Array => DATA_TYPE_UINT32_ARRAY,
        ValueKind::Int64Array => DATA_TYPE_INT64_ARRAY,
        ValueKind::UInt64Array => DATA_TYPE_UINT64_ARRAY,
        ValueKind::StringArray => DATA_TYPE_STRING_ARRAY,
        ValueKind::NvListArray => DATA_TYPE_NVLIST_ARRAY,
        ValueKind::Unknown => DATA_TYPE_UNKNOWN,
    }
}

/// Decide, from a pair's data-type code, which kind of value it holds.
pub fn value_kind(code: i32) -> (kind: ValueKind)
    ensures
        kind == ValueKind::Unknown <==> !is_recognized_code(code),
        kind != ValueKind::Unknown ==> kind_code(kind) == code,
{
    if code == DATA_TYPE_BOOLEAN { ValueKind::Boolean }
    else if code == DATA_TYPE_BOOLEAN_VALUE { ValueKind::BooleanValue }
    else if code == DATA_TYPE_BYTE { ValueKind::Byte }
    else if code == DATA_TYPE_INT8 { ValueKind::Int8 }
    else if code == DATA_TYPE_UINT8 { ValueKind::UInt8 }
    else if code == DATA_TYPE_INT16 { ValueKind::Int16 }
    else if code == DATA_TYPE_UINT16 { ValueKind::UInt16 }
    else if code == DATA_TYPE_INT32 { ValueKind::Int32 }
    else if code == DATA_TYPE_UINT32 { ValueKind::UInt32 }
    else if code == DATA_TYPE_INT64 { ValueKind::Int64 }
    else if code == DATA_TYPE_UINT64 { ValueKind::UInt64 }
    else if code == DATA_TYPE_DOUBLE { ValueKind::Double }
    else if code == DATA_TYPE_STRING { ValueKind::String }
    else if code == DATA_TYPE_HRTIME { ValueKind::Hrtime }
    else if code == DATA_TYPE_NVLIST { ValueKind::NvList }
    else if code == DATA_TYPE_BOOLEAN_ARRAY { ValueKind::BooleanArray }
    else if code == DATA_TYPE_BYTE_ARRAY { ValueKind::ByteArray }
    else if code == DATA_TYPE_INT8_ARRAY { ValueKind::Int8Array }
    else if code == DATA_TYPE_UINT8_ARRAY { ValueKind::UInt8Array }
    else if code == DATA_TYPE_INT16_ARRAY { ValueKind::Int16Array }
    else if code == DATA_TYPE_UINT16_ARRAY { ValueKind::UInt16Array }
    else if code == DATA_TYPE_INT32_ARRAY { ValueKind::Int32Array }
    else if code == DATA_TYPE_UINT32_ARRAY { ValueKind::UInt32Array }
    else if code == DATA_TYPE_INT64_ARRAY { ValueKind::Int64Array }
    else if code == DATA_TYPE_UINT64_ARRAY { ValueKind::UInt64Array }
    else if code == DATA_TYPE_STRING_ARRAY { ValueKind::StringArray }
    else if code == DATA_TYPE_NVLIST_ARRAY { ValueKind::NvListArray }
    else { ValueKind::Unknown }
}

/// A pair's value as read out of C memory, before decoding.
///
/// Booleans are libnvpair's `boolean_t` (`B_FALSE` is 0), strings are the
/// bytes of the C string without its terminating NUL, and a `double` is its
/// IEEE-754 bit pattern.
#[derive(Debug)]
pub enum RawValue {
    Boolean,
    BooleanValue(u32),
    Byte(u8),
    Int8(i8),
    UInt8(u8),
    Int16(i16),
    UInt16(u16),
    Int32(i32),
    UInt32(u32),
    Int64(i64),
    UInt64(u64),
    Double(u64),
    String(Vec<u8>),
    Hrtime(i64),
    NvList(RawNvList),
    BooleanArray(Vec<u32>),
    ByteArray(Vec<u8>),
    Int8Array(Vec<i8>),
    UInt8Array(Vec<u8>),
    Int16Array(Vec<i16>),
    UInt16Array(Vec<u16>),
    Int32Array(Vec<i32>),
    UInt32Array(Vec<u32>),
    Int64Array(Vec<i64>),
    UInt64Array(Vec<u64>),
    StringArray(Vec<Vec<u8>>),
    NvListArray(Vec<RawNvList>),
    /// A pair whose data-type code is not recognized, with that code.
    Unknown(i32),
}

/// A pair as read out of C memory: the bytes of its name and its value.
#[derive(Debug)]
pub struct RawPair {
    pub name: Vec<u8>,
    pub value: RawValue,
}

/// An nvlist as read out of C memory, its pairs in list order.
#[derive(Debug)]
pub struct RawNvList {
    pub pairs: Vec<RawPair>,
}

/// The kind of value that a raw value was read as.
pub open spec fn raw_kind(raw: RawValue) -> ValueKind {
    match raw {
        RawValue::Boolean => ValueKind::Boolean,
        RawValue::BooleanValue(_) => ValueKind::BooleanValue,
        RawValue::Byte(_) => ValueKind::Byte,
        RawValue::Int8(_) => ValueKind::Int8,
        RawValue::UInt8(_) => ValueKind::UInt8,
        RawValue::Int16(_) => ValueKind::Int16,
        RawValue::UInt16(_) => ValueKind::UInt16,
        RawValue::Int32(_) => ValueKind::Int32,
        RawValue::UInt32(_) => ValueKind::UInt32,
        RawValue::Int64(_) => ValueKind::Int64,
        RawValue::UInt64(_) => ValueKind::UInt64,
        RawValue::Double(_) => ValueKind::Double,
        RawValue::String(_) => ValueKind::String,
        RawValue::Hrtime(_) => ValueKind::Hrtime,
        RawValue::NvList(_) => ValueKind::NvList,
        RawValue::BooleanArray(_) => ValueKind::BooleanArray,
        RawValue::ByteArray(_) => ValueKind::ByteArray,
        RawValue::Int8Array(_) => ValueKind::Int8Array,
        RawValue::UInt8Array(_) => ValueKind::UInt8Array,
        RawValue::Int16Array(_) => ValueKind::Int16Array,
        RawValue::UInt16Array(_) => ValueKind::UInt16Array,
        RawValue::Int32Array(_) => ValueKind::Int32Array,
        RawValue::UInt32Array(_) => ValueKind::UInt32Array,
        RawValue::Int64Array(_) => ValueKind::Int64Array,
        RawValue::UInt64Array(_) => ValueKind::UInt64Array,
        RawValue::StringArray(_) => ValueKind::StringArray,
        RawValue::NvListArray(_) => ValueKind::NvListArray,
        RawValue::Unknown(_) => ValueKind::Unknown,
    }
}

/// `raw` is what reading a pair of data-type `code` gives: a value of the
/// kind that `code` names, or, for an unrecognized code, `Unknown(code)`.
pub open spec fn read_as_code(raw: RawValue, code: i32) -> bool {
    &&& (raw_kind(raw) == ValueKind::Unknown <==> !is_recognized_code(code))
    &&& (raw_kind(raw) != ValueKind::Unknown ==> kind_code(raw_kind(raw)) == code)
    &&& (raw matches RawValue::Unknown(c) ==> c == code)
}

/// Whether `raw` is what reading a pair of data-type `code` gives.
pub fn read_matches(code: i32, raw: &RawValue) -> (b: bool)
    ensures
        b == read_as_code(*raw, code),
{
    match raw {
        RawValue::Unknown(c) => *c == code && value_kind(code) == ValueKind::Unknown,
        _ => value_kind(code) == raw_value_kind(raw),
    }
}

/// The kind of value that `raw` was read as.
fn raw_value_kind(raw: &RawValue) -> (kind: ValueKind)
    ensures
        kind == raw_kind(*raw),
{
    match raw {
        RawValue::Boolean => ValueKind::Boolean,
        RawValue::BooleanValue(_) => ValueKind::BooleanValue,
        RawValue::Byte(_) => ValueKind::Byte,
        RawValue::Int8(_) => ValueKind::Int8,
        RawValue::UInt8(_) => ValueKind::UInt8,
        RawValue::Int16(_) => ValueKind::Int16,
        RawValue::UInt16(_) => ValueKind::UInt16,
        RawValue::Int32(_) => ValueKind::Int32,
        RawValue::UInt32(_) => ValueKind::UInt32,
        RawValue::Int64(_) => ValueKind::Int64,
        RawValue::UInt64(_) => ValueKind::UInt64,
        RawValue::Double(_) => ValueKind::Double,
        RawValue::String(_) => ValueKind::String,
        RawValue::Hrtime(_) => ValueKind::Hrtime,
        RawValue::NvList(_) => ValueKind::NvList,
        RawValue::BooleanArray(_) => ValueKind::BooleanArray,
        RawValue::ByteArray(_) => ValueKind::ByteArray,
        RawValue::Int8Array(_) => ValueKind::Int8Array,
        RawValue::UInt8Array(_) => ValueKind::UInt8Array,
        RawValue::Int16Array(_) => ValueKind::Int16Array,
        RawValue::UInt16Array(_) => ValueKind::UInt16Array,
        RawValue::Int32Array(_) => ValueKind::Int32Array,
        RawValue::UInt32Array(_) => ValueKind::UInt32Array,
        RawValue::Int64Array(_) => ValueKind::Int64Array,
        RawValue::UInt64Array(_) => ValueKind::UInt64Array,
        RawValue::StringArray(_) => ValueKind::StringArray,
        RawValue::NvListArray(_) => ValueKind::NvListArray,
        RawValue::Unknown(_) => ValueKind::Unknown,
    }
}

} // verus!
