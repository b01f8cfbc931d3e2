use vstd::prelude::*;
use vstd::utf8::{decode_utf8, valid_utf8};

use crate::raw::{RawNvList, RawPair, RawValue};
use crate::value::{NvList, NvValue};

verus! {

/// The characters that `String::from_utf8_lossy` makes of `bytes`.
pub uninterp spec fn utf8_lossy(bytes: Seq<u8>) -> Seq<char>;

/// Calls `String::from_utf8_lossy` and takes ownership of its result.
/// Trusted: the result's characters are named `utf8_lossy` of the bytes;
/// as std documents, valid UTF-8 comes back decoded unchanged, and invalid
/// sequences are replaced by U+FFFD, so that character then occurs in the
/// result. Which runs of bytes each replacement covers is left unsaid.
#[verifier::external_body]
fn string_from_utf8_lossy(bytes: &[u8]) -> (s: String)
    ensures
        s@ == utf8_lossy(bytes@),
        valid_utf8(bytes@) ==> s@ == decode_utf8(bytes@),
        !valid_utf8(bytes@) ==> s@.contains('\u{FFFD}'),
{
    String::from_utf8_lossy(bytes).into_owned()
}

/// `s` is what decoding the bytes `bytes` as lossy UTF-8 gives: valid
/// UTF-8 is kept exactly, and invalid bytes leave a U+FFFD in it.
pub open spec fn text_decodes(bytes: Seq<u8>, s: Seq<char>) -> bool {
    &&& s == utf8_lossy(bytes)
    &&& valid_utf8(bytes) ==> s == decode_utf8(bytes)
    &&& !valid_utf8(bytes) ==> s.contains('\u{FFFD}')
}

/// `v` is what decoding the raw value `raw` gives.
pub open spec fn value_decodes(raw: RawValue, v: NvValue) -> bool
    decreases raw,
{
    match (raw, v) {
        (RawValue::Boolean, NvValue::Boolean) => true,
        (RawValue::BooleanValue(b), NvValue::BooleanValue(x)) => x == (b != 0),
        (RawValue::Byte(a), NvValue::Byte(x)) => x == a,
        (RawValue::Int8(a), NvValue::Int8(x)) => x == a,
        (RawValue::UInt8(a), NvValue::UInt8(x)) => x == a,
        (RawValue::Int16(a), NvValue::Int16(x)) => x == a,
        (RawValue::UInt16(a), NvValue::UInt16(x)) => x == a,
        (RawValue::Int32(a), NvValue::Int32(x)) => x == a,
        (RawValue::UInt32(a), NvValue::UInt32(x)) => x == a,
        (RawValue::Int64(a), NvValue::Int64(x)) => x == a,
        (RawValue::UInt64(a), NvValue::UInt64(x)) => x == a,
        (RawValue::Double(a), NvValue::Double(x)) => x == a,
        (RawValue::String(b), NvValue::String(s)) => text_decodes(b@, s@),
        (RawValue::Hrtime(a), NvValue::Hrtime(x)) => x == a,
        (RawValue::NvList(r), NvValue::NvList(l)) => list_decodes(r, l),
        (RawValue::BooleanArray(a), NvValue::BooleanArray(x)) =>
            x@ == a@.map_values(|b: u32| b != 0),
        (RawValue::ByteArray(a), NvValue::ByteArray(x)) => x@ == a@,
        (RawValue::Int8Array(a), NvValue::Int8Array(x)) => x@ == a@,
        (RawValue::UInt8Array(a), NvValue::UInt8Array(x)) => x@ == a@,
        (RawValue::Int16Array(a), NvValue::Int16Array(x)) => x@ == a@,
        (RawValue::UInt16Array(a), NvValue::UInt16Array(x)) => x@ == a@,
        (RawValue::Int32Array(a), NvValue::Int32Array(x)) => x@ == a@,
        (RawValue::UInt32Array(a), NvValue::UInt32Array(x)) => x@ == a@,
        (RawValue::Int64Array(a), NvValue::Int64Array(x)) => x@ == a@,
        (RawValue::UInt64Array(a), NvValue::UInt64Array(x)) => x@ == a@,
        (RawValue::StringArray(a), NvValue::StringArray(x)) => {
            &&& x@.len() == a@.len()
            &&& forall|i: int| 0 <= i < a@.len() ==> text_decodes(a@[i]@, #[trigger] x@[i]@)
        },
        (RawValue::NvListArray(a), NvValue::NvListArray(x)) => {
            &&& x@.len() == a@.len()
            &&& forall|i: int| 0 <= i < a@.len() ==> list_decodes(#[trigger] a@[i], x@[i])
        },
        (RawValue::Unknown(c), NvValue::Unknown { type_code }) => type_code == c,
        _ => false,
    }
}

/// `l` is what decoding the raw list `raw` gives: the same number of
/// pairs, in the same order, each name decoded from its bytes and each
/// value decoded from its raw value.
pub open spec fn list_decodes(raw: RawNvList, l: NvList) -> bool
    decreases raw,
{
    &&& l.pairs@.len() == raw.pairs@.len()
    &&& forall|i: int| 0 <= i < raw.pairs@.len() ==> pair_decodes(#[trigger] raw.pairs@[i], l.pairs@[i])
}

/// `p` is what decoding the raw pair `raw` gives.
pub open spec fn pair_decodes(raw: RawPair, p: (String, NvValue)) -> bool
    decreases raw,
{
    &&& text_decodes(raw.name@, p.0@)
    &&& value_decodes(raw.value, p.1)
}


/// A copy of `v`.
pub(crate) fn copy_vec<T: Copy>(v: &Vec<T>) -> (r: Vec<T>)
    ensures
        r@ == v@,
{
    let mut r: Vec<T> = Vec::with_capacity(v.len());
    let mut i: usize = 0;
    while i < v.len()
        invariant
            i <= v@.len(),
            r@ == v@.subrange(0, i as int),
        decreases v@.len() - i,
    {
        r.push(v[i]);
        i += 1;
        proof {
            assert(r@ =~= v@.subrange(0, i as int));
        }
    }
    proof {
        assert(r@ =~= v@);
    }
    r
}

/// The booleans that the `boolean_t`s `v` stand for: nonzero is true.
fn booleans_of(v: &Vec<u32>) -> (r: Vec<bool>)
    ensures
        r@ == v@.map_values(|b: u32| b != 0),
{
    let mut r: Vec<bool> = Vec::with_capacity(v.len());
    let mut i: usize = 0;
    while i < v.len()
        invariant
            i <= v@.len(),
            r@ == v@.subrange(0, i as int).map_values(|b: u32| b != 0),
        decreases v@.len() - i,
    {
        r.push(v[i] != 0);
        i += 1;
        proof {
            assert(r@ =~= v@.subrange(0, i as int).map_values(|b: u32| b != 0));
        }
    }
    proof {
        assert(v@.subrange(0, i as int) =~= v@);
    }
    r
}

/// The strings that the byte strings `v` decode to.
fn strings_of(v: &Vec<Vec<u8>>) -> (r: Vec<String>)
    ensures
        r@.len() == v@.len(),
        forall|i: int| 0 <= i < v@.len() ==> text_decodes(v@[i]@, #[trigger] r@[i]@),
{
    let mut r: Vec<String> = Vec::with_capacity(v.len());
    let mut i: usize = 0;
    while i < v.len()
        invariant
            i <= v@.len(),
            r@.len() == i,
            forall|j: int| 0 <= j < i ==> text_decodes(v@[j]@, #[trigger] r@[j]@),
        decreases v@.len() - i,
    {
        r.push(string_from_utf8_lossy(v[i].as_slice()));
        i += 1;
    }
    r
}

/// Decode a raw value into an owned [`NvValue`].
pub fn decode_value(raw: &RawValue) -> (v: NvValue)
    ensures
        value_decodes(*raw, v),
    decreases raw,
{
    match raw {
        RawValue::Boolean => NvValue::Boolean,
        RawValue::BooleanValue(b) => NvValue::BooleanValue(*b != 0),
        RawValue::Byte(a) => NvValue::Byte(*a),
        RawValue::Int8(a) => NvValue::Int8(*a),
        RawValue::UInt8(a) => NvValue::UInt8(*a),
        RawValue::Int16(a) => NvValue::Int16(*a),
        RawValue::UInt16(a) => NvValue::UInt16(*a),
        RawValue::Int32(a) => NvValue::Int32(*a),
        RawValue::UInt32(a) => NvValue::UInt32(*a),
        RawValue::Int64(a) => NvValue::Int64(*a),
        RawValue::UInt64(a) => NvValue::UInt64(*a),
        RawValue::Double(a) => NvValue::Double(*a),
        RawValue::String(b) => NvValue::String(string_from_utf8_lossy(b.as_slice())),
        RawValue::Hrtime(a) => NvValue::Hrtime(*a),
        RawValue::NvList(r) => NvValue::NvList(decode_nvlist(r)),
        RawValue::BooleanArray(a) => NvValue::BooleanArray(booleans_of(a)),
        RawValue::ByteArray(a) => NvValue::ByteArray(copy_vec(a)),
        RawValue::Int8Array(a) => NvValue::Int8Array(copy_vec(a)),
        RawValue::UInt8Array(a) => NvValue::UInt8Array(copy_vec(a)),
        RawValue::Int16Array(a) => NvValue::Int16Array(copy_vec(a)),
        RawValue::UInt16Array(a) => NvValue::UInt16Array(copy_vec(a)),
        RawValue::Int32Array(a) => NvValue::Int32Array(copy_vec(a)),
        RawValue::UInt32Array(a) => NvValue::UInt32Array(copy_vec(a)),
        RawValue::Int64Array(a) => NvValue::Int64Array(copy_vec(a)),
        RawValue::UInt64Array(a) => NvValue::UInt64Array(copy_vec(a)),
        RawValue::StringArray(a) => NvValue::StringArray(strings_of(a)),
        RawValue::NvListArray(a) => {
            let mut out: Vec<NvList> = Vec::with_capacity(a.len());
            let mut i: usize = 0;
            while i < a.len()
                invariant
                    *raw == RawValue::NvListArray(*a),
                    i <= a@.len(),
                    out@.len() == i,
                    forall|j: int| 0 <= j < i ==> list_decodes(#[trigger] a@[j], out@[j]),
                decreases a@.len() - i,
            {
                proof {
                    assert(decreases_to!(*raw => (*raw)->NvListArray_0));
                }
                out.push(decode_nvlist(&a[i]));
                i += 1;
            }
            NvValue::NvListArray(out)
        },
        RawValue::Unknown(c) => NvValue::Unknown { type_code: *c },
    }
}

/// Decode a raw list into an owned [`NvList`], keeping its pairs in order.
pub fn decode_nvlist(raw: &RawNvList) -> (l: NvList)
    ensures
        list_decodes(*raw, l),
    decreases raw,
{
    let mut pairs: Vec<(String, NvValue)> = Vec::with_capacity(raw.pairs.len());
    let mut i: usize = 0;
    while i < raw.pairs.len()
        invariant
            i <= raw.pairs@.len(),
            pairs@.len() == i,
            forall|j: int| 0 <= j < i ==> pair_decodes(#[trigger] raw.pairs@[j], pairs@[j]),
        decreases raw.pairs@.len() - i,
    {
        let p = &raw.pairs[i];
        let name = string_from_utf8_lossy(p.name.as_slice());
        let value = decode_value(&p.value);
        pairs.push((name, value));
        i += 1;
    }
    NvList { pairs }
}

} // verus!
