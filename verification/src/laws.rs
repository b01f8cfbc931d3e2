use vstd::prelude::*;

use vstd::utf8::{decode_utf8, valid_utf8};

use crate::decode::{list_decodes, pair_decodes, text_decodes, utf8_lossy, value_decodes};
use crate::raw::{
    is_recognized_code, kind_code, raw_kind, read_as_code, RawNvList, RawPair, RawValue, ValueKind,
    DATA_TYPE_BOOLEAN, DATA_TYPE_BOOLEAN_ARRAY, DATA_TYPE_BOOLEAN_VALUE, DATA_TYPE_BYTE,
    DATA_TYPE_BYTE_ARRAY, DATA_TYPE_HRTIME, DATA_TYPE_INT16, DATA_TYPE_INT16_ARRAY,
    DATA_TYPE_INT32, DATA_TYPE_INT32_ARRAY, DATA_TYPE_INT64, DATA_TYPE_INT64_ARRAY,
    DATA_TYPE_INT8, DATA_TYPE_INT8_ARRAY, DATA_TYPE_NVLIST, DATA_TYPE_NVLIST_ARRAY,
    DATA_TYPE_STRING, DATA_TYPE_STRING_ARRAY, DATA_TYPE_UINT16, DATA_TYPE_UINT16_ARRAY,
    DATA_TYPE_UINT32, DATA_TYPE_UINT32_ARRAY, DATA_TYPE_UINT64, DATA_TYPE_UINT64_ARRAY,
    DATA_TYPE_UINT8, DATA_TYPE_UINT8_ARRAY,
};
use crate::clone::{list_same, pair_same, value_same};
use crate::value::{data_type_of, has_name, is_first_named, NvList, NvValue};

verus! {

/// Each recognized data-type code names exactly one kind: no two kinds
/// share a code, and every code from `DATA_TYPE_BOOLEAN` to
/// `DATA_TYPE_DOUBLE` belongs to a kind.
pub proof fn lemma_codes_name_kinds(code: i32, k1: ValueKind, k2: ValueKind)
    ensures
        k1 != ValueKind::Unknown ==> is_recognized_code(kind_code(k1)),
        k1 != ValueKind::Unknown && k2 != ValueKind::Unknown && kind_code(k1) == kind_code(k2)
            ==> k1 == k2,
        is_recognized_code(code) ==> exists|k: ValueKind|
            k != ValueKind::Unknown && #[trigger] kind_code(k) == code,
{
    if is_recognized_code(code) {
        let k = if code == DATA_TYPE_BOOLEAN { ValueKind::Boolean }
            else if code == DATA_TYPE_BYTE { ValueKind::Byte }
            else if code == DATA_TYPE_INT16 { ValueKind::Int16 }
            else if code == DATA_TYPE_UINT16 { ValueKind::UInt16 }
            else if code == DATA_TYPE_INT32 { ValueKind::Int32 }
            else if code == DATA_TYPE_UINT32 { ValueKind::UInt32 }
            else if code == DATA_TYPE_INT64 { ValueKind::Int64 }
            else if code == DATA_TYPE_UINT64 { ValueKind::UInt64 }
            else if code == DATA_TYPE_STRING { ValueKind::String }
            else if code == DATA_TYPE_BYTE_ARRAY { ValueKind::ByteArray }
            else if code == DATA_TYPE_INT16_ARRAY { ValueKind::Int16Array }
            else if code == DATA_TYPE_UINT16_ARRAY { ValueKind::UInt16Array }
            else if code == DATA_TYPE_INT32_ARRAY { ValueKind::Int32Array }
            else if code == DATA_TYPE_UINT32_ARRAY { ValueKind::UInt32Array }
            else if code == DATA_TYPE_INT64_ARRAY { ValueKind::Int64Array }
            else if code == DATA_TYPE_UINT64_ARRAY { ValueKind::UInt64Array }
            else if code == DATA_TYPE_STRING_ARRAY { ValueKind::StringArray }
            else if code == DATA_TYPE_HRTIME { ValueKind::Hrtime }
            else if code == DATA_TYPE_NVLIST { ValueKind::NvList }
            else if code == DATA_TYPE_NVLIST_ARRAY { ValueKind::NvListArray }
            else if code == DATA_TYPE_BOOLEAN_VALUE { ValueKind::BooleanValue }
            else if code == DATA_TYPE_INT8 { ValueKind::Int8 }
            else if code == DATA_TYPE_UINT8 { ValueKind::UInt8 }
            else if code == DATA_TYPE_BOOLEAN_ARRAY { ValueKind::BooleanArray }
            else if code == DATA_TYPE_INT8_ARRAY { ValueKind::Int8Array }
            else if code == DATA_TYPE_UINT8_ARRAY { ValueKind::UInt8Array }
            else { ValueKind::Double };
        assert(k != ValueKind::Unknown && kind_code(k) == code);
    }
}

/// A value read as a pair of data-type `code` decodes to a value of that
/// same data type; a pair of an unrecognized type becomes `Unknown` with
/// its code kept.
pub proof fn lemma_decoded_value_keeps_data_type(code: i32, raw: RawValue, v: NvValue)
    requires
        read_as_code(raw, code),
        value_decodes(raw, v),
    ensures
        data_type_of(v) == code,
        !is_recognized_code(code) <==> v is Unknown,
{
}

/// The first pair of `raw` whose name decodes to `name` stands at `i`.
pub open spec fn raw_first_named(raw: Seq<RawPair>, name: Seq<char>, i: int) -> bool {
    &&& 0 <= i < raw.len()
    &&& utf8_lossy(raw[i].name@) == name
    &&& forall|j: int| 0 <= j < i ==> utf8_lossy(#[trigger] raw[j].name@) != name
}

/// Looking up a name in a decoded list finds the pair that came from the
/// first raw pair whose name decodes to it, with that pair's value decoded;
/// and finds nothing exactly when no raw name decodes to it.
pub proof fn lemma_lookup_in_decoded(raw: RawNvList, l: NvList, name: Seq<char>)
    requires
        list_decodes(raw, l),
    ensures
        has_name(l.pairs@, name) <==> exists|i: int|
            0 <= i < raw.pairs@.len() && utf8_lossy(#[trigger] raw.pairs@[i].name@) == name,
        forall|i: int| is_first_named(l.pairs@, name, i) <==> raw_first_named(raw.pairs@, name, i),
        forall|i: int| #[trigger] is_first_named(l.pairs@, name, i) ==> value_decodes(
            raw.pairs@[i].value,
            l.pairs@[i].1,
        ),
{
    assert forall|i: int| 0 <= i < raw.pairs@.len() implies
        #[trigger] l.pairs@[i].0@ == utf8_lossy(raw.pairs@[i].name@) by {
        assert(pair_decodes(raw.pairs@[i], l.pairs@[i]));
    }
    if has_name(l.pairs@, name) {
        let i = choose|i: int| 0 <= i < l.pairs@.len() && #[trigger] l.pairs@[i].0@ == name;
        assert(utf8_lossy(raw.pairs@[i].name@) == name);
    }
    if exists|i: int| 0 <= i < raw.pairs@.len() && utf8_lossy(#[trigger] raw.pairs@[i].name@) == name {
        let i = choose|i: int| 0 <= i < raw.pairs@.len() && utf8_lossy(#[trigger] raw.pairs@[i].name@) == name;
        assert(l.pairs@[i].0@ == name);
    }
    assert forall|i: int| is_first_named(l.pairs@, name, i) <==> raw_first_named(raw.pairs@, name, i) by {
        if is_first_named(l.pairs@, name, i) {
            assert forall|j: int| 0 <= j < i implies utf8_lossy(#[trigger] raw.pairs@[j].name@) != name by {
                assert(l.pairs@[j].0@ != name);
            }
        }
        if raw_first_named(raw.pairs@, name, i) {
            assert forall|j: int| 0 <= j < i implies #[trigger] l.pairs@[j].0@ != name by {
                assert(utf8_lossy(raw.pairs@[j].name@) != name);
            }
        }
    }
    assert forall|i: int| #[trigger] is_first_named(l.pairs@, name, i) implies value_decodes(
        raw.pairs@[i].value,
        l.pairs@[i].1,
    ) by {
        assert(pair_decodes(raw.pairs@[i], l.pairs@[i]));
    }
}

/// Names and strings that are valid UTF-8 come through decoding exactly.
pub proof fn lemma_valid_utf8_kept(raw: RawNvList, l: NvList, i: int)
    requires
        list_decodes(raw, l),
        0 <= i < raw.pairs@.len(),
        vstd::utf8::valid_utf8(raw.pairs@[i].name@),
    ensures
        l.pairs@[i].0@ == vstd::utf8::decode_utf8(raw.pairs@[i].name@),
{
    assert(pair_decodes(raw.pairs@[i], l.pairs@[i]));
    assert(text_decodes(raw.pairs@[i].name@, l.pairs@[i].0@));
}

/// A clone answers every look-up as the original does: the same name is
/// found at the same position, with a value of the same content.
pub proof fn lemma_lookup_in_clone(a: NvList, b: NvList, name: Seq<char>)
    requires
        list_same(a, b),
    ensures
        has_name(a.pairs@, name) <==> has_name(b.pairs@, name),
        forall|i: int| is_first_named(a.pairs@, name, i) <==> is_first_named(b.pairs@, name, i),
        forall|i: int| #[trigger] is_first_named(a.pairs@, name, i) ==> value_same(
            a.pairs@[i].1,
            b.pairs@[i].1,
        ),
{
    assert forall|i: int| 0 <= i < a.pairs@.len() implies #[trigger] b.pairs@[i].0@ == a.pairs@[i].0@ by {
        assert(pair_same(a.pairs@[i], b.pairs@[i]));
    }
    if has_name(a.pairs@, name) {
        let i = choose|i: int| 0 <= i < a.pairs@.len() && #[trigger] a.pairs@[i].0@ == name;
        assert(b.pairs@[i].0@ == name);
    }
    if has_name(b.pairs@, name) {
        let i = choose|i: int| 0 <= i < b.pairs@.len() && #[trigger] b.pairs@[i].0@ == name;
        assert(a.pairs@[i].0@ == name);
    }
    assert forall|i: int| is_first_named(a.pairs@, name, i) <==> is_first_named(b.pairs@, name, i) by {
        if is_first_named(a.pairs@, name, i) {
            assert forall|j: int| 0 <= j < i implies #[trigger] b.pairs@[j].0@ != name by {
                assert(a.pairs@[j].0@ != name);
            }
        }
        if is_first_named(b.pairs@, name, i) {
            assert forall|j: int| 0 <= j < i implies #[trigger] a.pairs@[j].0@ != name by {
                assert(b.pairs@[j].0@ != name);
            }
        }
    }
    assert forall|i: int| #[trigger] is_first_named(a.pairs@, name, i) implies value_same(
        a.pairs@[i].1,
        b.pairs@[i].1,
    ) by {
        assert(pair_same(a.pairs@[i], b.pairs@[i]));
    }
}

/// Decoding keeps every number as it was read: each integer, the bits of a
/// double, an hrtime; a `boolean_t` is true exactly when nonzero; an
/// unrecognized pair keeps its code; the variant is the one the raw value
/// was read as.
pub proof fn lemma_decode_keeps_numbers(raw: RawValue, v: NvValue)
    requires
        (value_decodes(raw, v)),
    ensures
        (raw is Boolean ==> v == NvValue::Boolean),
        (raw matches RawValue::BooleanValue(b) ==> v == NvValue::BooleanValue(b != 0)),
        (raw matches RawValue::Byte(a) ==> v == NvValue::Byte(a)),
        (raw matches RawValue::Int8(a) ==> v == NvValue::Int8(a)),
        (raw matches RawValue::UInt8(a) ==> v == NvValue::UInt8(a)),
        (raw matches RawValue::Int16(a) ==> v == NvValue::Int16(a)),
        (raw matches RawValue::UInt16(a) ==> v == NvValue::UInt16(a)),
        (raw matches RawValue::Int32(a) ==> v == NvValue::Int32(a)),
        (raw matches RawValue::UInt32(a) ==> v == NvValue::UInt32(a)),
        (raw matches RawValue::Int64(a) ==> v == NvValue::Int64(a)),
        (raw matches RawValue::UInt64(a) ==> v == NvValue::UInt64(a)),
        (raw matches RawValue::Double(a) ==> v == NvValue::Double(a)),
        (raw matches RawValue::Hrtime(a) ==> v == NvValue::Hrtime(a)),
        (raw matches RawValue::Unknown(c) ==> v == (NvValue::Unknown { type_code: c })),
{
}

/// Decoding an array keeps its length and every element: numbers are
/// copied, `boolean_t`s become true exactly when nonzero, and each string
/// is the lossy UTF-8 of its bytes.
pub proof fn lemma_decode_keeps_arrays(raw: RawValue, v: NvValue)
    requires
        (value_decodes(raw, v)),
    ensures
        (raw matches RawValue::BooleanArray(a) ==> (v matches NvValue::BooleanArray(x) && x@.len()
            == a@.len() && forall|i: int| 0 <= i < a@.len() ==> #[trigger] x@[i] == (a@[i] != 0))),
        (raw matches RawValue::ByteArray(a) ==> (v matches NvValue::ByteArray(x) && x@ == a@)),
        (raw matches RawValue::Int8Array(a) ==> (v matches NvValue::Int8Array(x) && x@ == a@)),
        (raw matches RawValue::UInt8Array(a) ==> (v matches NvValue::UInt8Array(x) && x@ == a@)),
        (raw matches RawValue::Int16Array(a) ==> (v matches NvValue::Int16Array(x) && x@ == a@)),
        (raw matches RawValue::UInt16Array(a) ==> (v matches NvValue::UInt16Array(x) && x@ == a@)),
        (raw matches RawValue::Int32Array(a) ==> (v matches NvValue::Int32Array(x) && x@ == a@)),
        (raw matches RawValue::UInt32Array(a) ==> (v matches NvValue::UInt32Array(x) && x@ == a@)),
        (raw matches RawValue::Int64Array(a) ==> (v matches NvValue::Int64Array(x) && x@ == a@)),
        (raw matches RawValue::UInt64Array(a) ==> (v matches NvValue::UInt64Array(x) && x@ == a@)),
        (raw matches RawValue::StringArray(a) ==> (v matches NvValue::StringArray(x) && x@.len()
            == a@.len() && forall|i: int|
            0 <= i < a@.len() ==> #[trigger] x@[i]@ == utf8_lossy(a@[i]@))),
{
    if let RawValue::BooleanArray(a) = raw {
        if let NvValue::BooleanArray(x) = v {
            assert forall|i: int| 0 <= i < a@.len() implies #[trigger] x@[i] == (a@[i] != 0) by {
                assert(x@[i] == a@.map_values(|b: u32| b != 0)[i]);
            }
        }
    }
    if let RawValue::StringArray(a) = raw {
        if let NvValue::StringArray(x) = v {
            assert forall|i: int| 0 <= i < a@.len() implies #[trigger] x@[i]@ == utf8_lossy(a@[i]@) by {
                assert(text_decodes(a@[i]@, x@[i]@));
            }
        }
    }
}

/// A string decodes to the lossy UTF-8 of its bytes: valid UTF-8 exactly,
/// and with a U+FFFD where the bytes are not valid UTF-8.
pub proof fn lemma_decode_string(bytes: Vec<u8>, v: NvValue)
    requires
        (value_decodes(RawValue::String(bytes), v)),
    ensures
        (v matches NvValue::String(s) && s@ == utf8_lossy(bytes@)),
        (valid_utf8(bytes@) ==> (v matches NvValue::String(s) && s@ == decode_utf8(bytes@))),
        (!valid_utf8(bytes@) ==> (v matches NvValue::String(s) && s@.contains('\u{FFFD}'))),
{
}

/// A decoded list has every pair of the raw list, in order: as many pairs,
/// the i-th named by the lossy UTF-8 of the i-th raw name and holding the
/// decoding of the i-th raw value.
pub proof fn lemma_list_decodes_every_pair(raw: RawNvList, l: NvList)
    requires
        (list_decodes(raw, l)),
    ensures
        (l.pairs@.len() == raw.pairs@.len()),
        (forall|i: int|
            0 <= i < raw.pairs@.len() ==> #[trigger] l.pairs@[i].0@ == utf8_lossy(raw.pairs@[i].name@)),
        (forall|i: int|
            0 <= i < raw.pairs@.len() ==> value_decodes(raw.pairs@[i].value, #[trigger] l.pairs@[i].1)),
{
    assert forall|i: int| 0 <= i < raw.pairs@.len() implies
        #[trigger] l.pairs@[i].0@ == utf8_lossy(raw.pairs@[i].name@)
        && value_decodes(raw.pairs@[i].value, l.pairs@[i].1) by {
        assert(pair_decodes(raw.pairs@[i], l.pairs@[i]));
    }
}

/// A nested list, or each list of an array of lists, decodes whole: every
/// pair of it is kept, in order, so every raw name is found by look-up in
/// the decoded list.
pub proof fn lemma_decode_nested_lists(raw: RawValue, v: NvValue)
    requires
        (value_decodes(raw, v)),
    ensures
        (raw matches RawValue::NvList(r) ==> (v matches NvValue::NvList(l) && l.pairs@.len()
            == r.pairs@.len() && forall|i: int|
            0 <= i < r.pairs@.len() ==> #[trigger] l.pairs@[i].0@ == utf8_lossy(r.pairs@[i].name@)
            && value_decodes(r.pairs@[i].value, l.pairs@[i].1))),
        (raw matches RawValue::NvList(r) ==> (v matches NvValue::NvList(l) && forall|i: int|
            0 <= i < r.pairs@.len() ==> has_name(l.pairs@, #[trigger] utf8_lossy(r.pairs@[i].name@)))),
        (raw matches RawValue::NvListArray(a) ==> (v matches NvValue::NvListArray(x) && x@.len()
            == a@.len() && forall|i: int|
            0 <= i < a@.len() ==> #[trigger] x@[i].pairs@.len() == a@[i].pairs@.len())),
{
    if let RawValue::NvList(r) = raw {
        if let NvValue::NvList(l) = v {
            lemma_list_decodes_every_pair(r, l);
            assert forall|i: int| 0 <= i < r.pairs@.len() implies has_name(
                l.pairs@,
                #[trigger] utf8_lossy(r.pairs@[i].name@),
            ) by {
                assert(l.pairs@[i].0@ == utf8_lossy(r.pairs@[i].name@));
            }
        }
    }
    if let RawValue::NvListArray(a) = raw {
        if let NvValue::NvListArray(x) = v {
            assert forall|i: int| 0 <= i < a@.len() implies #[trigger] x@[i].pairs@.len()
                == a@[i].pairs@.len() by {
                assert(list_decodes(a@[i], x@[i]));
            }
        }
    }
}

/// Every correct read is accepted: a value of a recognized kind is what
/// reading a pair of that kind's code gives and of no other code, and an
/// unrecognized value is what reading a pair of its own unrecognized code
/// gives and of no other.
pub proof fn lemma_read_as_code_exact(raw: RawValue, code: i32)
    ensures
        (raw_kind(raw) != ValueKind::Unknown ==> (read_as_code(raw, code) <==> code == kind_code(raw_kind(raw)))),
        (raw matches RawValue::Unknown(c) ==> (read_as_code(raw, code) <==> code == c
            && !is_recognized_code(c))),
        (raw matches RawValue::String(_) ==> (read_as_code(raw, code) <==> code == DATA_TYPE_STRING)),
{
    lemma_codes_name_kinds(code, raw_kind(raw), raw_kind(raw));
}

/// Look-up's "first" is the earliest: a pair found first has no pair of
/// that name before it, there is only one such position, and there is one
/// whenever the name occurs at all.
pub proof fn lemma_first_named_is_earliest(pairs: Seq<(String, NvValue)>, name: Seq<char>, i: int, j: int)
    ensures
        (is_first_named(pairs, name, i) ==> 0 <= i < pairs.len() && pairs[i].0@ == name),
        (is_first_named(pairs, name, i) && 0 <= j < i ==> pairs[j].0@ != name),
        (is_first_named(pairs, name, i) && is_first_named(pairs, name, j) ==> i == j),
        (0 <= j < pairs.len() && pairs[j].0@ == name ==> exists|k: int|
            k <= j && #[trigger] is_first_named(pairs, name, k)),
        (has_name(pairs, name) ==> exists|k: int| #[trigger] is_first_named(pairs, name, k)),
        (0 <= j < pairs.len() && pairs[j].0@ == name ==> has_name(pairs, name)),
        (has_name(pairs, name) ==> exists|k: int| 0 <= k < pairs.len() && #[trigger] pairs[k].0@ == name),
{
    if 0 <= j < pairs.len() && pairs[j].0@ == name {
        let k = earliest_named(pairs, name, j);
        assert(is_first_named(pairs, name, k));
    }
    if has_name(pairs, name) {
        let w = choose|w: int| 0 <= w < pairs.len() && #[trigger] pairs[w].0@ == name;
        let k = earliest_named(pairs, name, w);
        assert(is_first_named(pairs, name, k));
    }
}

proof fn earliest_named(pairs: Seq<(String, NvValue)>, name: Seq<char>, j: int) -> (k: int)
    requires
        (0 <= j < pairs.len()),
        (pairs[j].0@ == name),
    ensures
        (k <= j),
        (is_first_named(pairs, name, k)),
    decreases j,
{
    if exists|m: int| 0 <= m < j && #[trigger] pairs[m].0@ == name {
        let m = choose|m: int| 0 <= m < j && #[trigger] pairs[m].0@ == name;
        earliest_named(pairs, name, m)
    } else {
        j
    }
}

/// Every value has the same content as itself, so a clone made to have
/// the same content as its original is of the same data type and, for a
/// number, equal to it.
pub proof fn lemma_value_same_reflexive(v: NvValue)
    ensures
        (value_same(v, v)),
    decreases v,
{
    match v {
        NvValue::NvList(l) => {
            lemma_list_same_reflexive(l);
        },
        NvValue::NvListArray(x) => {
            assert forall|i: int| 0 <= i < x@.len() implies list_same(#[trigger] x@[i], x@[i]) by {
                assert(decreases_to!(v => v->NvListArray_0));
                lemma_list_same_reflexive(x@[i]);
            }
        },
        _ => {},
    }
}

/// Every list has the same content as itself.
pub proof fn lemma_list_same_reflexive(l: NvList)
    ensures
        (list_same(l, l)),
    decreases l,
{
    assert forall|i: int| 0 <= i < l.pairs@.len() implies pair_same(
        #[trigger] l.pairs@[i],
        l.pairs@[i],
    ) by {
        lemma_value_same_reflexive(l.pairs@[i].1);
    }
}

/// Values of the same content are of the same data type; numbers of the
/// same content are equal, strings and arrays have equal contents, and
/// nested lists have the same names in the same order.
pub proof fn lemma_value_same_keeps_data(a: NvValue, b: NvValue)
    requires
        value_same(a, b),
    ensures
        data_type_of(a) == data_type_of(b),
        !(a is String || a is NvList || a is BooleanArray || a is ByteArray || a is Int8Array
            || a is UInt8Array || a is Int16Array || a is UInt16Array || a is Int32Array
            || a is UInt32Array || a is Int64Array || a is UInt64Array || a is StringArray
            || a is NvListArray) ==> a == b,
        (a matches NvValue::String(x) ==> (b matches NvValue::String(y) && y@ == x@)),
        (a matches NvValue::BooleanArray(x) ==> (b matches NvValue::BooleanArray(y) && y@ == x@)),
        (a matches NvValue::ByteArray(x) ==> (b matches NvValue::ByteArray(y) && y@ == x@)),
        (a matches NvValue::Int8Array(x) ==> (b matches NvValue::Int8Array(y) && y@ == x@)),
        (a matches NvValue::UInt8Array(x) ==> (b matches NvValue::UInt8Array(y) && y@ == x@)),
        (a matches NvValue::Int16Array(x) ==> (b matches NvValue::Int16Array(y) && y@ == x@)),
        (a matches NvValue::UInt16Array(x) ==> (b matches NvValue::UInt16Array(y) && y@ == x@)),
        (a matches NvValue::Int32Array(x) ==> (b matches NvValue::Int32Array(y) && y@ == x@)),
        (a matches NvValue::UInt32Array(x) ==> (b matches NvValue::UInt32Array(y) && y@ == x@)),
        (a matches NvValue::Int64Array(x) ==> (b matches NvValue::Int64Array(y) && y@ == x@)),
        (a matches NvValue::UInt64Array(x) ==> (b matches NvValue::UInt64Array(y) && y@ == x@)),
        (a matches NvValue::StringArray(x) ==> (b matches NvValue::StringArray(y) && y@.len()
            == x@.len() && forall|i: int| 0 <= i < x@.len() ==> #[trigger] y@[i]@ == x@[i]@)),
        (a matches NvValue::NvList(x) ==> (b matches NvValue::NvList(y) && y.pairs@.len()
            == x.pairs@.len() && forall|i: int|
            0 <= i < x.pairs@.len() ==> #[trigger] y.pairs@[i].0@ == x.pairs@[i].0@)),
        (a matches NvValue::NvListArray(x) ==> (b matches NvValue::NvListArray(y) && y@.len()
            == x@.len() && forall|i: int|
            0 <= i < x@.len() ==> #[trigger] y@[i].pairs@.len() == x@[i].pairs@.len())),
{
    if let NvValue::NvList(x) = a {
        if let NvValue::NvList(y) = b {
            assert forall|i: int| 0 <= i < x.pairs@.len() implies #[trigger] y.pairs@[i].0@
                == x.pairs@[i].0@ by {
                assert(pair_same(x.pairs@[i], y.pairs@[i]));
            }
        }
    }
    if let NvValue::NvListArray(x) = a {
        if let NvValue::NvListArray(y) = b {
            assert forall|i: int| 0 <= i < x@.len() implies #[trigger] y@[i].pairs@.len()
                == x@[i].pairs@.len() by {
                assert(list_same(x@[i], y@[i]));
            }
        }
    }
}

} // verus!
