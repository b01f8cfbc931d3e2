use vstd::prelude::*;

use crate::raw::{
    DATA_TYPE_BOOLEAN, DATA_TYPE_BOOLEAN_ARRAY, DATA_TYPE_BOOLEAN_VALUE, DATA_TYPE_BYTE,
    DATA_TYPE_BYTE_ARRAY, DATA_TYPE_DOUBLE, DATA_TYPE_HRTIME, DATA_TYPE_INT16,
    DATA_TYPE_INT16_ARRAY, DATA_TYPE_INT32, DATA_TYPE_INT32_ARRAY, DATA_TYPE_INT64,
    DATA_TYPE_INT64_ARRAY, DATA_TYPE_INT8, DATA_TYPE_INT8_ARRAY, DATA_TYPE_NVLIST,
    DATA_TYPE_NVLIST_ARRAY, DATA_TYPE_STRING, DATA_TYPE_STRING_ARRAY, DATA_TYPE_UINT16,
    DATA_TYPE_UINT16_ARRAY, DATA_TYPE_UINT32, DATA_TYPE_UINT32_ARRAY, DATA_TYPE_UINT64,
    DATA_TYPE_UINT64_ARRAY, DATA_TYPE_UINT8, DATA_TYPE_UINT8_ARRAY,
};

verus! {

/// An ordered list of name-value pairs, converted from an illumos nvlist.
#[derive(Debug, PartialEq)]
pub struct NvList {
    pub pairs: Vec<(String, NvValue)>,
}

/// A value from an nvlist pair.
///
/// A `double` is held by its IEEE-754 bit pattern (`f64::to_bits`).
#[derive(Debug, PartialEq)]
pub enum NvValue {
    /// A valueless boolean (presence indicates true).
    Boolean,
    /// A boolean with an explicit value.
    BooleanValue(bool),
    Byte(u8),
    Int8(i8),
    UInt8(u8),
    Int16(i16),
    UInt16(u16),
    Int32(i32),
    UInt32(u32),
    Int64(i64),
    UInt64(u64),
    /// A double, as the bits of its IEEE-754 representation
    /// (`f64::from_bits` gives the number back). `==` on values compares
    /// these bits, so a NaN equals itself and 0.0 differs from -0.0,
    /// unlike `==` on `f64`.
    Double(u64),
    String(String),
    /// High-resolution time in nanoseconds.
    Hrtime(i64),
    NvList(NvList),
    BooleanArray(Vec<bool>),
    ByteArray(Vec<u8>),
    Int8Array(Vec<i8>),
    UInt8Array(Vec<u8>),
    Int16Array(Vec<i16>),
    UInt16Array(Vec<u16>),
    Int32Array(Vec<i32>),
    UInt32Array(Vec<u32>),
    Int64Array(Vec<i64>),
    UInt64Array(Vec<u64>),
    StringArray(Vec<String>),
    NvListArray(Vec<NvList>),
    /// A type not recognized by this crate.
    Unknown { type_code: i32 },
}

/// The libnvpair data-type code of the kind of value `v` is; for
/// `Unknown`, the code it was read with.
pub open spec fn data_type_of(v: NvValue) -> i32 {
    match v {
        NvValue::Boolean => DATA_TYPE_BOOLEAN,
        NvValue::BooleanValue(_) => DATA_TYPE_BOOLEAN_VALUE,
        NvValue::Byte(_) => DATA_TYPE_BYTE,
        NvValue::Int8(_) => DATA_TYPE_INT8,
        NvValue::UInt8(_) => DATA_TYPE_UINT8,
        NvValue::Int16(_) => DATA_TYPE_INT16,
        NvValue::UInt16(_) => DATA_TYPE_UINT16,
        NvValue::Int32(_) => DATA_TYPE_INT32,
        NvValue::UInt32(_) => DATA_TYPE_UINT32,
        NvValue::Int64(_) => DATA_TYPE_INT64,
        NvValue::UInt64(_) => DATA_TYPE_UINT64,
        NvValue::Double(_) => DATA_TYPE_DOUBLE,
        NvValue::String(_) => DATA_TYPE_STRING,
        NvValue::Hrtime(_) => DATA_TYPE_HRTIME,
        NvValue::NvList(_) => DATA_TYPE_NVLIST,
        NvValue::BooleanArray(_) => DATA_TYPE_BOOLEAN_ARRAY,
        NvValue::ByteArray(_) => DATA_TYPE_BYTE_ARRAY,
        NvValue::Int8Array(_) => DATA_TYPE_INT8_ARRAY,
        NvValue::UInt8Array(_) => DATA_TYPE_UINT8_ARRAY,
        NvValue::Int16Array(_) => DATA_TYPE_INT16_ARRAY,
        NvValue::UInt16Array(_) => DATA_TYPE_UINT16_ARRAY,
        NvValue::Int32Array(_) => DATA_TYPE_INT32_ARRAY,
        NvValue::UInt32Array(_) => DATA_TYPE_UINT32_ARRAY,
        NvValue::Int64Array(_) => DATA_TYPE_INT64_ARRAY,
        NvValue::UInt64Array(_) => DATA_TYPE_UINT64_ARRAY,
        NvValue::StringArray(_) => DATA_TYPE_STRING_ARRAY,
        NvValue::NvListArray(_) => DATA_TYPE_NVLIST_ARRAY,
        NvValue::Unknown { type_code } => type_code,
    }
}

/// Some pair of `pairs` is named `name`.
pub open spec fn has_name(pairs: Seq<(String, NvValue)>, name: Seq<char>) -> bool {
    exists|i: int| 0 <= i < pairs.len() && #[trigger] pairs[i].0@ == name
}

/// `i` is the position of the first pair of `pairs` named `name`.
pub open spec fn is_first_named(pairs: Seq<(String, NvValue)>, name: Seq<char>, i: int) -> bool {
    &&& 0 <= i < pairs.len()
    &&& pairs[i].0@ == name
    &&& forall|j: int| 0 <= j < i ==> #[trigger] pairs[j].0@ != name
}

impl NvList {
    /// Look up a value by name: the value of the first pair with that
    /// name, or `None` when no pair has it.
    pub fn lookup(&self, name: &str) -> (r: Option<&NvValue>)
        ensures
            r is None <==> !has_name(self.pairs@, name@),
            r matches Some(v) ==> exists|i: int|
                is_first_named(self.pairs@, name@, i) && *v == #[trigger] self.pairs@[i].1,
    {
        let key = name.to_owned();
        let mut i: usize = 0;
        while i < self.pairs.len()
            invariant
                key@ == name@,
                i <= self.pairs@.len(),
                forall|j: int| 0 <= j < i ==> #[trigger] self.pairs@[j].0@ != name@,
            decreases self.pairs@.len() - i,
        {
            if self.pairs[i].0 == key {
                assert(is_first_named(self.pairs@, name@, i as int));
                return Some(&self.pairs[i].1);
            }
            i += 1;
        }
        None
    }
}

} // verus!
