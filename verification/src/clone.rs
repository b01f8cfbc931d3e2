use vstd::prelude::*;

use crate::decode::copy_vec;
use crate::value::{NvList, NvValue};

verus! {

/// `b` holds the same content as `a`: same variant, equal numbers,
/// strings and arrays of equal contents, nested lists the same.
pub open spec fn value_same(a: NvValue, b: NvValue) -> bool
    decreases a,
{
    match (a, b) {
        (NvValue::Boolean, NvValue::Boolean) => true,
        (NvValue::BooleanValue(x), NvValue::BooleanValue(y)) => x == y,
        (NvValue::Byte(x), NvValue::Byte(y)) => x == y,
        (NvValue::Int8(x), NvValue::Int8(y)) => x == y,
        (NvValue::UInt8(x), NvValue::UInt8(y)) => x == y,
        (NvValue::Int16(x), NvValue::Int16(y)) => x == y,
        (NvValue::UInt16(x), NvValue::UInt16(y)) => x == y,
        (NvValue::Int32(x), NvValue::Int32(y)) => x == y,
        (NvValue::UInt32(x), NvValue::UInt32(y)) => x == y,
        (NvValue::Int64(x), NvValue::Int64(y)) => x == y,
        (NvValue::UInt64(x), NvValue::UInt64(y)) => x == y,
        (NvValue::Double(x), NvValue::Double(y)) => x == y,
        (NvValue::String(x), NvValue::String(y)) => x@ == y@,
        (NvValue::Hrtime(x), NvValue::Hrtime(y)) => x == y,
        (NvValue::NvList(x), NvValue::NvList(y)) => list_same(x, y),
        (NvValue::BooleanArray(x), NvValue::BooleanArray(y)) => x@ == y@,
        (NvValue::ByteArray(x), NvValue::ByteArray(y)) => x@ == y@,
        (NvValue::Int8Array(x), NvValue::Int8Array(y)) => x@ == y@,
        (NvValue::UInt8Array(x), NvValue::UInt8Array(y)) => x@ == y@,
        (NvValue::Int16Array(x), NvValue::Int16Array(y)) => x@ == y@,
        (NvValue::UInt16Array(x), NvValue::UInt16Array(y)) => x@ == y@,
        (NvValue::Int32Array(x), NvValue::Int32Array(y)) => x@ == y@,
        (NvValue::UInt32Array(x), NvValue::UInt32Array(y)) => x@ == y@,
        (NvValue::Int64Array(x), NvValue::Int64Array(y)) => x@ == y@,
        (NvValue::UInt64Array(x), NvValue::UInt64Array(y)) => x@ == y@,
        (NvValue::StringArray(x), NvValue::StringArray(y)) => {
            &&& y@.len() == x@.len()
            &&& forall|i: int| 0 <= i < x@.len() ==> #[trigger] y@[i]@ == x@[i]@
        },
        (NvValue::NvListArray(x), NvValue::NvListArray(y)) => {
            &&& y@.len() == x@.len()
            &&& forall|i: int| 0 <= i < x@.len() ==> list_same(#[trigger] x@[i], y@[i])
        },
        (NvValue::Unknown { type_code: x }, NvValue::Unknown { type_code: y }) => x == y,
        _ => false,
    }
}

/// `b` holds the same pairs as `a`, in the same order.
pub open spec fn list_same(a: NvList, b: NvList) -> bool
    decreases a,
{
    &&& b.pairs@.len() == a.pairs@.len()
    &&& forall|i: int| 0 <= i < a.pairs@.len() ==> pair_same(#[trigger] a.pairs@[i], b.pairs@[i])
}

/// `b` has the name and the value of `a`.
pub open spec fn pair_same(a: (String, NvValue), b: (String, NvValue)) -> bool
    decreases a,
{
    &&& b.0@ == a.0@
    &&& value_same(a.1, b.1)
}

fn clone_value(v: &NvValue) -> (r: NvValue)
    ensures
        value_same(*v, r),
    decreases v,
{
    match v {
        NvValue::Boolean => NvValue::Boolean,
        NvValue::BooleanValue(x) => NvValue::BooleanValue(*x),
        NvValue::Byte(x) => NvValue::Byte(*x),
        NvValue::Int8(x) => NvValue::Int8(*x),
        NvValue::UInt8(x) => NvValue::UInt8(*x),
        NvValue::Int16(x) => NvValue::Int16(*x),
        NvValue::UInt16(x) => NvValue::UInt16(*x),
        NvValue::Int32(x) => NvValue::Int32(*x),
        NvValue::UInt32(x) => NvValue::UInt32(*x),
        NvValue::Int64(x) => NvValue::Int64(*x),
        NvValue::UInt64(x) => NvValue::UInt64(*x),
        NvValue::Double(x) => NvValue::Double(*x),
        NvValue::String(x) => NvValue::String(x.clone()),
        NvValue::Hrtime(x) => NvValue::Hrtime(*x),
        NvValue::NvList(x) => NvValue::NvList(clone_list(x)),
        NvValue::BooleanArray(x) => NvValue::BooleanArray(copy_vec(x)),
        NvValue::ByteArray(x) => NvValue::ByteArray(copy_vec(x)),
        NvValue::Int8Array(x) => NvValue::Int8Array(copy_vec(x)),
        NvValue::UInt8Array(x) => NvValue::UInt8Array(copy_vec(x)),
        NvValue::Int16Array(x) => NvValue::Int16Array(copy_vec(x)),
        NvValue::UInt16Array(x) => NvValue::UInt16Array(copy_vec(x)),
        NvValue::Int32Array(x) => NvValue::Int32Array(copy_vec(x)),
        NvValue::UInt32Array(x) => NvValue::UInt32Array(copy_vec(x)),
        NvValue::Int64Array(x) => NvValue::Int64Array(copy_vec(x)),
        NvValue::UInt64Array(x) => NvValue::UInt64Array(copy_vec(x)),
        NvValue::StringArray(x) => {
            let mut out: Vec<String> = Vec::with_capacity(x.len());
            let mut i: usize = 0;
            while i < x.len()
                invariant
                    i <= x@.len(),
                    out@.len() == i,
                    forall|j: int| 0 <= j < i ==> #[trigger] out@[j]@ == x@[j]@,
                decreases x@.len() - i,
            {
                out.push(x[i].clone());
                i += 1;
            }
            NvValue::StringArray(out)
        },
        NvValue::NvListArray(x) => {
            let mut out: Vec<NvList> = Vec::with_capacity(x.len());
            let mut i: usize = 0;
            while i < x.len()
                invariant
                    *v == NvValue::NvListArray(*x),
                    i <= x@.len(),
                    out@.len() == i,
                    forall|j: int| 0 <= j < i ==> list_same(#[trigger] x@[j], out@[j]),
                decreases x@.len() - i,
            {
                proof {
                    assert(decreases_to!(*v => (*v)->NvListArray_0));
                }
                out.push(clone_list(&x[i]));
                i += 1;
            }
            NvValue::NvListArray(out)
        },
        NvValue::Unknown { type_code } => NvValue::Unknown { type_code: *type_code },
    }
}

fn clone_list(l: &NvList) -> (r: NvList)
    ensures
        list_same(*l, r),
    decreases l,
{
    let mut pairs: Vec<(String, NvValue)> = Vec::with_capacity(l.pairs.len());
    let mut i: usize = 0;
    while i < l.pairs.len()
        invariant
            i <= l.pairs@.len(),
            pairs@.len() == i,
            forall|j: int| 0 <= j < i ==> pair_same(#[trigger] l.pairs@[j], pairs@[j]),
        decreases l.pairs@.len() - i,
    {
        let p = &l.pairs[i];
        let name = p.0.clone();
        let value = clone_value(&p.1);
        pairs.push((name, value));
        i += 1;
    }
    NvList { pairs }
}

impl Clone for NvList {
    /// A deep copy: the same pairs, in the same order.
    fn clone(&self) -> (r: Self)
        ensures
            list_same(*self, r),
    {
        clone_list(self)
    }
}

impl Clone for NvValue {
    /// A deep copy of the value.
    fn clone(&self) -> (r: Self)
        ensures
            value_same(*self, r),
    {
        clone_value(self)
    }
}

} // verus!
