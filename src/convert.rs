use vstd::prelude::*;
use crate::value::{SonicSerdeObject, Timestamp, cmp_value};

verus! {

impl From<String> for SonicSerdeObject {
    fn from(val: String) -> SonicSerdeObject {
        SonicSerdeObject::String(val)
    }
}

impl vstd::std_specs::convert::FromSpecImpl<String> for SonicSerdeObject {
    open spec fn obeys_from_spec() -> bool {
        true
    }

    open spec fn from_spec(val: String) -> SonicSerdeObject {
        SonicSerdeObject::String(val)
    }
}

impl From<bool> for SonicSerdeObject {
    fn from(val: bool) -> SonicSerdeObject {
        SonicSerdeObject::Bool(val)
    }
}

impl vstd::std_specs::convert::FromSpecImpl<bool> for SonicSerdeObject {
    open spec fn obeys_from_spec() -> bool {
        true
    }

    open spec fn from_spec(val: bool) -> SonicSerdeObject {
        SonicSerdeObject::Bool(val)
    }
}

impl From<Timestamp> for SonicSerdeObject {
    fn from(val: Timestamp) -> SonicSerdeObject {
        SonicSerdeObject::SystemTime(val)
    }
}

impl vstd::std_specs::convert::FromSpecImpl<Timestamp> for SonicSerdeObject {
    open spec fn obeys_from_spec() -> bool {
        true
    }

    open spec fn from_spec(val: Timestamp) -> SonicSerdeObject {
        SonicSerdeObject::SystemTime(val)
    }
}

impl From<u16> for SonicSerdeObject {
    fn from(val: u16) -> SonicSerdeObject {
        SonicSerdeObject::U16(val)
    }
}

impl vstd::std_specs::convert::FromSpecImpl<u16> for SonicSerdeObject {
    open spec fn obeys_from_spec() -> bool {
        true
    }

    open spec fn from_spec(val: u16) -> SonicSerdeObject {
        SonicSerdeObject::U16(val)
    }
}

impl From<u32> for SonicSerdeObject {
    fn from(val: u32) -> SonicSerdeObject {
        SonicSerdeObject::U32(val)
    }
}

impl vstd::std_specs::convert::FromSpecImpl<u32> for SonicSerdeObject {
    open spec fn obeys_from_spec() -> bool {
        true
    }

    open spec fn from_spec(val: u32) -> SonicSerdeObject {
        SonicSerdeObject::U32(val)
    }
}

impl From<u64> for SonicSerdeObject {
    fn from(val: u64) -> SonicSerdeObject {
        SonicSerdeObject::U64(val)
    }
}

impl vstd::std_specs::convert::FromSpecImpl<u64> for SonicSerdeObject {
    open spec fn obeys_from_spec() -> bool {
        true
    }

    open spec fn from_spec(val: u64) -> SonicSerdeObject {
        SonicSerdeObject::U64(val)
    }
}

impl From<u128> for SonicSerdeObject {
    fn from(val: u128) -> SonicSerdeObject {
        SonicSerdeObject::U128(val)
    }
}

impl vstd::std_specs::convert::FromSpecImpl<u128> for SonicSerdeObject {
    open spec fn obeys_from_spec() -> bool {
        true
    }

    open spec fn from_spec(val: u128) -> SonicSerdeObject {
        SonicSerdeObject::U128(val)
    }
}

impl From<i8> for SonicSerdeObject {
    fn from(val: i8) -> SonicSerdeObject {
        SonicSerdeObject::I8(val)
    }
}

impl vstd::std_specs::convert::FromSpecImpl<i8> for SonicSerdeObject {
    open spec fn obeys_from_spec() -> bool {
        true
    }

    open spec fn from_spec(val: i8) -> SonicSerdeObject {
        SonicSerdeObject::I8(val)
    }
}

impl From<i16> for SonicSerdeObject {
    fn from(val: i16) -> SonicSerdeObject {
        SonicSerdeObject::I16(val)
    }
}

impl vstd::std_specs::convert::FromSpecImpl<i16> for SonicSerdeObject {
    open spec fn obeys_from_spec() -> bool {
        true
    }

    open spec fn from_spec(val: i16) -> SonicSerdeObject {
        SonicSerdeObject::I16(val)
    }
}

impl From<i32> for SonicSerdeObject {
    fn from(val: i32) -> SonicSerdeObject {
        SonicSerdeObject::I32(val)
    }
}

impl vstd::std_specs::convert::FromSpecImpl<i32> for SonicSerdeObject {
    open spec fn obeys_from_spec() -> bool {
        true
    }

    open spec fn from_spec(val: i32) -> SonicSerdeObject {
        SonicSerdeObject::I32(val)
    }
}

impl From<i64> for SonicSerdeObject {
    fn from(val: i64) -> SonicSerdeObject {
        SonicSerdeObject::I64(val)
    }
}

impl vstd::std_specs::convert::FromSpecImpl<i64> for SonicSerdeObject {
    open spec fn obeys_from_spec() -> bool {
        true
    }

    open spec fn from_spec(val: i64) -> SonicSerdeObject {
        SonicSerdeObject::I64(val)
    }
}

impl From<i128> for SonicSerdeObject {
    fn from(val: i128) -> SonicSerdeObject {
        SonicSerdeObject::I128(val)
    }
}

impl vstd::std_specs::convert::FromSpecImpl<i128> for SonicSerdeObject {
    open spec fn obeys_from_spec() -> bool {
        true
    }

    open spec fn from_spec(val: i128) -> SonicSerdeObject {
        SonicSerdeObject::I128(val)
    }
}

impl From<usize> for SonicSerdeObject {
    fn from(val: usize) -> SonicSerdeObject {
        SonicSerdeObject::USize(val)
    }
}

impl vstd::std_specs::convert::FromSpecImpl<usize> for SonicSerdeObject {
    open spec fn obeys_from_spec() -> bool {
        true
    }

    open spec fn from_spec(val: usize) -> SonicSerdeObject {
        SonicSerdeObject::USize(val)
    }
}

impl From<Option<SonicSerdeObject>> for SonicSerdeObject {
    fn from(val: Option<SonicSerdeObject>) -> SonicSerdeObject {
        SonicSerdeObject::Option(Box::new(val))
    }
}

impl vstd::std_specs::convert::FromSpecImpl<Option<SonicSerdeObject>> for SonicSerdeObject {
    open spec fn obeys_from_spec() -> bool {
        true
    }

    open spec fn from_spec(val: Option<SonicSerdeObject>) -> SonicSerdeObject {
        SonicSerdeObject::Option(Box::new(val))
    }
}

/// Bytes become one raw byte sequence, never a sequence of `U8` values.
impl From<Vec<u8>> for SonicSerdeObject {
    fn from(val: Vec<u8>) -> SonicSerdeObject {
        SonicSerdeObject::VecU8(val)
    }
}

impl vstd::std_specs::convert::FromSpecImpl<Vec<u8>> for SonicSerdeObject {
    open spec fn obeys_from_spec() -> bool {
        true
    }

    open spec fn from_spec(val: Vec<u8>) -> SonicSerdeObject {
        SonicSerdeObject::VecU8(val)
    }
}

impl From<&String> for SonicSerdeObject {
    fn from(val: &String) -> SonicSerdeObject {
        SonicSerdeObject::String(val.clone())
    }
}

impl vstd::std_specs::convert::FromSpecImpl<&String> for SonicSerdeObject {
    open spec fn obeys_from_spec() -> bool {
        true
    }

    open spec fn from_spec(val: &String) -> SonicSerdeObject {
        SonicSerdeObject::String(*val)
    }
}

impl From<&bool> for SonicSerdeObject {
    fn from(val: &bool) -> SonicSerdeObject {
        SonicSerdeObject::Bool(*val)
    }
}

impl vstd::std_specs::convert::FromSpecImpl<&bool> for SonicSerdeObject {
    open spec fn obeys_from_spec() -> bool {
        true
    }

    open spec fn from_spec(val: &bool) -> SonicSerdeObject {
        SonicSerdeObject::Bool(*val)
    }
}

impl From<&u8> for SonicSerdeObject {
    fn from(val: &u8) -> SonicSerdeObject {
        SonicSerdeObject::U8(*val)
    }
}

impl vstd::std_specs::convert::FromSpecImpl<&u8> for SonicSerdeObject {
    open spec fn obeys_from_spec() -> bool {
        true
    }

    open spec fn from_spec(val: &u8) -> SonicSerdeObject {
        SonicSerdeObject::U8(*val)
    }
}

impl From<&u16> for SonicSerdeObject {
    fn from(val: &u16) -> SonicSerdeObject {
        SonicSerdeObject::U16(*val)
    }
}

impl vstd::std_specs::convert::FromSpecImpl<&u16> for SonicSerdeObject {
    open spec fn obeys_from_spec() -> bool {
        true
    }

    open spec fn from_spec(val: &u16) -> SonicSerdeObject {
        SonicSerdeObject::U16(*val)
    }
}

impl From<&u32> for SonicSerdeObject {
    fn from(val: &u32) -> SonicSerdeObject {
        SonicSerdeObject::U32(*val)
    }
}

impl vstd::std_specs::convert::FromSpecImpl<&u32> for SonicSerdeObject {
    open spec fn obeys_from_spec() -> bool {
        true
    }

    open spec fn from_spec(val: &u32) -> SonicSerdeObject {
        SonicSerdeObject::U32(*val)
    }
}

impl From<&u64> for SonicSerdeObject {
    fn from(val: &u64) -> SonicSerdeObject {
        SonicSerdeObject::U64(*val)
    }
}

impl vstd::std_specs::convert::FromSpecImpl<&u64> for SonicSerdeObject {
    open spec fn obeys_from_spec() -> bool {
        true
    }

    open spec fn from_spec(val: &u64) -> SonicSerdeObject {
        SonicSerdeObject::U64(*val)
    }
}

impl From<&u128> for SonicSerdeObject {
    fn from(val: &u128) -> SonicSerdeObject {
        SonicSerdeObject::U128(*val)
    }
}

impl vstd::std_specs::convert::FromSpecImpl<&u128> for SonicSerdeObject {
    open spec fn obeys_from_spec() -> bool {
        true
    }

    open spec fn from_spec(val: &u128) -> SonicSerdeObject {
        SonicSerdeObject::U128(*val)
    }
}

impl From<&i8> for SonicSerdeObject {
    fn from(val: &i8) -> SonicSerdeObject {
        SonicSerdeObject::I8(*val)
    }
}

impl vstd::std_specs::convert::FromSpecImpl<&i8> for SonicSerdeObject {
    open spec fn obeys_from_spec() -> bool {
        true
    }

    open spec fn from_spec(val: &i8) -> SonicSerdeObject {
        SonicSerdeObject::I8(*val)
    }
}

impl From<&i16> for SonicSerdeObject {
    fn from(val: &i16) -> SonicSerdeObject {
        SonicSerdeObject::I16(*val)
    }
}

impl vstd::std_specs::convert::FromSpecImpl<&i16> for SonicSerdeObject {
    open spec fn obeys_from_spec() -> bool {
        true
    }

    open spec fn from_spec(val: &i16) -> SonicSerdeObject {
        SonicSerdeObject::I16(*val)
    }
}

impl From<&i32> for SonicSerdeObject {
    fn from(val: &i32) -> SonicSerdeObject {
        SonicSerdeObject::I32(*val)
    }
}

impl vstd::std_specs::convert::FromSpecImpl<&i32> for SonicSerdeObject {
    open spec fn obeys_from_spec() -> bool {
        true
    }

    open spec fn from_spec(val: &i32) -> SonicSerdeObject {
        SonicSerdeObject::I32(*val)
    }
}

impl From<&i64> for SonicSerdeObject {
    fn from(val: &i64) -> SonicSerdeObject {
        SonicSerdeObject::I64(*val)
    }
}

impl vstd::std_specs::convert::FromSpecImpl<&i64> for SonicSerdeObject {
    open spec fn obeys_from_spec() -> bool {
        true
    }

    open spec fn from_spec(val: &i64) -> SonicSerdeObject {
        SonicSerdeObject::I64(*val)
    }
}

impl From<&i128> for SonicSerdeObject {
    fn from(val: &i128) -> SonicSerdeObject {
        SonicSerdeObject::I128(*val)
    }
}

impl vstd::std_specs::convert::FromSpecImpl<&i128> for SonicSerdeObject {
    open spec fn obeys_from_spec() -> bool {
        true
    }

    open spec fn from_spec(val: &i128) -> SonicSerdeObject {
        SonicSerdeObject::I128(*val)
    }
}

/// A sequence with one `String` value per item, in order.
impl From<Vec<String>> for SonicSerdeObject {
    fn from(val: Vec<String>) -> (r: SonicSerdeObject)
        ensures
            r is Vec && r->Vec_0@ == val@.map_values(|x: String| SonicSerdeObject::String(x)),
    {
        let ghost all = val@;
        let mut rest = val;
        let mut out: Vec<SonicSerdeObject> = Vec::new();
        let n = rest.len();
        let mut i: usize = 0;
        while i < n
            invariant
                n == all.len(),
                i <= n,
                rest@ == all.subrange(i as int, n as int),
                out@ == all.subrange(0, i as int).map_values(|x: String| SonicSerdeObject::String(x)),
            decreases n - i,
        {
            let x = rest.remove(0);
            out.push(SonicSerdeObject::String(x));
            i = i + 1;
            assert(out@ =~= all.subrange(0, i as int).map_values(|x: String| SonicSerdeObject::String(x)));
        }
        assert(all.subrange(0, n as int) =~= all);
        SonicSerdeObject::Vec(out)
    }
}

impl vstd::std_specs::convert::FromSpecImpl<Vec<String>> for SonicSerdeObject {
    open spec fn obeys_from_spec() -> bool {
        false
    }

    open spec fn from_spec(val: Vec<String>) -> SonicSerdeObject {
        arbitrary()
    }
}

/// A sequence with one `Bool` value per item, in order.
impl From<Vec<bool>> for SonicSerdeObject {
    fn from(val: Vec<bool>) -> (r: SonicSerdeObject)
        ensures
            r is Vec && r->Vec_0@ == val@.map_values(|x: bool| SonicSerdeObject::Bool(x)),
    {
        let ghost all = val@;
        let mut rest = val;
        let mut out: Vec<SonicSerdeObject> = Vec::new();
        let n = rest.len();
        let mut i: usize = 0;
        while i < n
            invariant
                n == all.len(),
                i <= n,
                rest@ == all.subrange(i as int, n as int),
                out@ == all.subrange(0, i as int).map_values(|x: bool| SonicSerdeObject::Bool(x)),
            decreases n - i,
        {
            let x = rest.remove(0);
            out.push(SonicSerdeObject::Bool(x));
            i = i + 1;
            assert(out@ =~= all.subrange(0, i as int).map_values(|x: bool| SonicSerdeObject::Bool(x)));
        }
        assert(all.subrange(0, n as int) =~= all);
        SonicSerdeObject::Vec(out)
    }
}

impl vstd::std_specs::convert::FromSpecImpl<Vec<bool>> for SonicSerdeObject {
    open spec fn obeys_from_spec() -> bool {
        false
    }

    open spec fn from_spec(val: Vec<bool>) -> SonicSerdeObject {
        arbitrary()
    }
}

/// A sequence with one `SystemTime` value per item, in order.
impl From<Vec<Timestamp>> for SonicSerdeObject {
    fn from(val: Vec<Timestamp>) -> (r: SonicSerdeObject)
        ensures
            r is Vec && r->Vec_0@ == val@.map_values(|x: Timestamp| SonicSerdeObject::SystemTime(x)),
    {
        let ghost all = val@;
        let mut rest = val;
        let mut out: Vec<SonicSerdeObject> = Vec::new();
        let n = rest.len();
        let mut i: usize = 0;
        while i < n
            invariant
                n == all.len(),
                i <= n,
                rest@ == all.subrange(i as int, n as int),
                out@ == all.subrange(0, i as int).map_values(|x: Timestamp| SonicSerdeObject::SystemTime(x)),
            decreases n - i,
        {
            let x = rest.remove(0);
            out.push(SonicSerdeObject::SystemTime(x));
            i = i + 1;
            assert(out@ =~= all.subrange(0, i as int).map_values(|x: Timestamp| SonicSerdeObject::SystemTime(x)));
        }
        assert(all.subrange(0, n as int) =~= all);
        SonicSerdeObject::Vec(out)
    }
}

impl vstd::std_specs::convert::FromSpecImpl<Vec<Timestamp>> for SonicSerdeObject {
    open spec fn obeys_from_spec() -> bool {
        false
    }

    open spec fn from_spec(val: Vec<Timestamp>) -> SonicSerdeObject {
        arbitrary()
    }
}

/// A sequence with one `U16` value per item, in order.
impl From<Vec<u16>> for SonicSerdeObject {
    fn from(val: Vec<u16>) -> (r: SonicSerdeObject)
        ensures
            r is Vec && r->Vec_0@ == val@.map_values(|x: u16| SonicSerdeObject::U16(x)),
    {
        let ghost all = val@;
        let mut rest = val;
        let mut out: Vec<SonicSerdeObject> = Vec::new();
        let n = rest.len();
        let mut i: usize = 0;
        while i < n
            invariant
                n == all.len(),
                i <= n,
                rest@ == all.subrange(i as int, n as int),
                out@ == all.subrange(0, i as int).map_values(|x: u16| SonicSerdeObject::U16(x)),
            decreases n - i,
        {
            let x = rest.remove(0);
            out.push(SonicSerdeObject::U16(x));
            i = i + 1;
            assert(out@ =~= all.subrange(0, i as int).map_values(|x: u16| SonicSerdeObject::U16(x)));
        }
        assert(all.subrange(0, n as int) =~= all);
        SonicSerdeObject::Vec(out)
    }
}

impl vstd::std_specs::convert::FromSpecImpl<Vec<u16>> for SonicSerdeObject {
    open spec fn obeys_from_spec() -> bool {
        false
    }

    open spec fn from_spec(val: Vec<u16>) -> SonicSerdeObject {
        arbitrary()
    }
}

/// A sequence with one `U32` value per item, in order.
impl From<Vec<u32>> for SonicSerdeObject {
    fn from(val: Vec<u32>) -> (r: SonicSerdeObject)
        ensures
            r is Vec && r->Vec_0@ == val@.map_values(|x: u32| SonicSerdeObject::U32(x)),
    {
        let ghost all = val@;
        let mut rest = val;
        let mut out: Vec<SonicSerdeObject> = Vec::new();
        let n = rest.len();
        let mut i: usize = 0;
        while i < n
            invariant
                n == all.len(),
                i <= n,
                rest@ == all.subrange(i as int, n as int),
                out@ == all.subrange(0, i as int).map_values(|x: u32| SonicSerdeObject::U32(x)),
            decreases n - i,
        {
            let x = rest.remove(0);
            out.push(SonicSerdeObject::U32(x));
            i = i + 1;
            assert(out@ =~= all.subrange(0, i as int).map_values(|x: u32| SonicSerdeObject::U32(x)));
        }
        assert(all.subrange(0, n as int) =~= all);
        SonicSerdeObject::Vec(out)
    }
}

impl vstd::std_specs::convert::FromSpecImpl<Vec<u32>> for SonicSerdeObject {
    open spec fn obeys_from_spec() -> bool {
        false
    }

    open spec fn from_spec(val: Vec<u32>) -> SonicSerdeObject {
        arbitrary()
    }
}

/// A sequence with one `U64` value per item, in order.
impl From<Vec<u64>> for SonicSerdeObject {
    fn from(val: Vec<u64>) -> (r: SonicSerdeObject)
        ensures
            r is Vec && r->Vec_0@ == val@.map_values(|x: u64| SonicSerdeObject::U64(x)),
    {
        let ghost all = val@;
        let mut rest = val;
        let mut out: Vec<SonicSerdeObject> = Vec::new();
        let n = rest.len();
        let mut i: usize = 0;
        while i < n
            invariant
                n == all.len(),
                i <= n,
                rest@ == all.subrange(i as int, n as int),
                out@ == all.subrange(0, i as int).map_values(|x: u64| SonicSerdeObject::U64(x)),
            decreases n - i,
        {
            let x = rest.remove(0);
            out.push(SonicSerdeObject::U64(x));
            i = i + 1;
            assert(out@ =~= all.subrange(0, i as int).map_values(|x: u64| SonicSerdeObject::U64(x)));
        }
        assert(all.subrange(0, n as int) =~= all);
        SonicSerdeObject::Vec(out)
    }
}

impl vstd::std_specs::convert::FromSpecImpl<Vec<u64>> for SonicSerdeObject {
    open spec fn obeys_from_spec() -> bool {
        false
    }

    open spec fn from_spec(val: Vec<u64>) -> SonicSerdeObject {
        arbitrary()
    }
}

/// A sequence with one `U128` value per item, in order.
impl From<Vec<u128>> for SonicSerdeObject {
    fn from(val: Vec<u128>) -> (r: SonicSerdeObject)
        ensures
            r is Vec && r->Vec_0@ == val@.map_values(|x: u128| SonicSerdeObject::U128(x)),
    {
        let ghost all = val@;
        let mut rest = val;
        let mut out: Vec<SonicSerdeObject> = Vec::new();
        let n = rest.len();
        let mut i: usize = 0;
        while i < n
            invariant
                n == all.len(),
                i <= n,
                rest@ == all.subrange(i as int, n as int),
                out@ == all.subrange(0, i as int).map_values(|x: u128| SonicSerdeObject::U128(x)),
            decreases n - i,
        {
            let x = rest.remove(0);
            out.push(SonicSerdeObject::U128(x));
            i = i + 1;
            assert(out@ =~= all.subrange(0, i as int).map_values(|x: u128| SonicSerdeObject::U128(x)));
        }
        assert(all.subrange(0, n as int) =~= all);
        SonicSerdeObject::Vec(out)
    }
}

impl vstd::std_specs::convert::FromSpecImpl<Vec<u128>> for SonicSerdeObject {
    open spec fn obeys_from_spec() -> bool {
        false
    }

    open spec fn from_spec(val: Vec<u128>) -> SonicSerdeObject {
        arbitrary()
    }
}

/// A sequence with one `I8` value per item, in order.
impl From<Vec<i8>> for SonicSerdeObject {
    fn from(val: Vec<i8>) -> (r: SonicSerdeObject)
        ensures
            r is Vec && r->Vec_0@ == val@.map_values(|x: i8| SonicSerdeObject::I8(x)),
    {
        let ghost all = val@;
        let mut rest = val;
        let mut out: Vec<SonicSerdeObject> = Vec::new();
        let n = rest.len();
        let mut i: usize = 0;
        while i < n
            invariant
                n == all.len(),
                i <= n,
                rest@ == all.subrange(i as int, n as int),
                out@ == all.subrange(0, i as int).map_values(|x: i8| SonicSerdeObject::I8(x)),
            decreases n - i,
        {
            let x = rest.remove(0);
            out.push(SonicSerdeObject::I8(x));
            i = i + 1;
            assert(out@ =~= all.subrange(0, i as int).map_values(|x: i8| SonicSerdeObject::I8(x)));
        }
        assert(all.subrange(0, n as int) =~= all);
        SonicSerdeObject::Vec(out)
    }
}

impl vstd::std_specs::convert::FromSpecImpl<Vec<i8>> for SonicSerdeObject {
    open spec fn obeys_from_spec() -> bool {
        false
    }

    open spec fn from_spec(val: Vec<i8>) -> SonicSerdeObject {
        arbitrary()
    }
}

/// A sequence with one `I16` value per item, in order.
impl From<Vec<i16>> for SonicSerdeObject {
    fn from(val: Vec<i16>) -> (r: SonicSerdeObject)
        ensures
            r is Vec && r->Vec_0@ == val@.map_values(|x: i16| SonicSerdeObject::I16(x)),
    {
        let ghost all = val@;
        let mut rest = val;
        let mut out: Vec<SonicSerdeObject> = Vec::new();
        let n = rest.len();
        let mut i: usize = 0;
        while i < n
            invariant
                n == all.len(),
                i <= n,
                rest@ == all.subrange(i as int, n as int),
                out@ == all.subrange(0, i as int).map_values(|x: i16| SonicSerdeObject::I16(x)),
            decreases n - i,
        {
            let x = rest.remove(0);
            out.push(SonicSerdeObject::I16(x));
            i = i + 1;
            assert(out@ =~= all.subrange(0, i as int).map_values(|x: i16| SonicSerdeObject::I16(x)));
        }
        assert(all.subrange(0, n as int) =~= all);
        SonicSerdeObject::Vec(out)
    }
}

impl vstd::std_specs::convert::FromSpecImpl<Vec<i16>> for SonicSerdeObject {
    open spec fn obeys_from_spec() -> bool {
        false
    }

    open spec fn from_spec(val: Vec<i16>) -> SonicSerdeObject {
        arbitrary()
    }
}

/// A sequence with one `I32` value per item, in order.
impl From<Vec<i32>> for SonicSerdeObject {
    fn from(val: Vec<i32>) -> (r: SonicSerdeObject)
        ensures
            r is Vec && r->Vec_0@ == val@.map_values(|x: i32| SonicSerdeObject::I32(x)),
    {
        let ghost all = val@;
        let mut rest = val;
        let mut out: Vec<SonicSerdeObject> = Vec::new();
        let n = rest.len();
        let mut i: usize = 0;
        while i < n
            invariant
                n == all.len(),
                i <= n,
                rest@ == all.subrange(i as int, n as int),
                out@ == all.subrange(0, i as int).map_values(|x: i32| SonicSerdeObject::I32(x)),
            decreases n - i,
        {
            let x = rest.remove(0);
            out.push(SonicSerdeObject::I32(x));
            i = i + 1;
            assert(out@ =~= all.subrange(0, i as int).map_values(|x: i32| SonicSerdeObject::I32(x)));
        }
        assert(all.subrange(0, n as int) =~= all);
        SonicSerdeObject::Vec(out)
    }
}

impl vstd::std_specs::convert::FromSpecImpl<Vec<i32>> for SonicSerdeObject {
    open spec fn obeys_from_spec() -> bool {
        false
    }

    open spec fn from_spec(val: Vec<i32>) -> SonicSerdeObject {
        arbitrary()
    }
}

/// A sequence with one `I64` value per item, in order.
impl From<Vec<i64>> for SonicSerdeObject {
    fn from(val: Vec<i64>) -> (r: SonicSerdeObject)
        ensures
            r is Vec && r->Vec_0@ == val@.map_values(|x: i64| SonicSerdeObject::I64(x)),
    {
        let ghost all = val@;
        let mut rest = val;
        let mut out: Vec<SonicSerdeObject> = Vec::new();
        let n = rest.len();
        let mut i: usize = 0;
        while i < n
            invariant
                n == all.len(),
                i <= n,
                rest@ == all.subrange(i as int, n as int),
                out@ == all.subrange(0, i as int).map_values(|x: i64| SonicSerdeObject::I64(x)),
            decreases n - i,
        {
            let x = rest.remove(0);
            out.push(SonicSerdeObject::I64(x));
            i = i + 1;
            assert(out@ =~= all.subrange(0, i as int).map_values(|x: i64| SonicSerdeObject::I64(x)));
        }
        assert(all.subrange(0, n as int) =~= all);
        SonicSerdeObject::Vec(out)
    }
}

impl vstd::std_specs::convert::FromSpecImpl<Vec<i64>> for SonicSerdeObject {
    open spec fn obeys_from_spec() -> bool {
        false
    }

    open spec fn from_spec(val: Vec<i64>) -> SonicSerdeObject {
        arbitrary()
    }
}

/// A sequence with one `I128` value per item, in order.
impl From<Vec<i128>> for SonicSerdeObject {
    fn from(val: Vec<i128>) -> (r: SonicSerdeObject)
        ensures
            r is Vec && r->Vec_0@ == val@.map_values(|x: i128| SonicSerdeObject::I128(x)),
    {
        let ghost all = val@;
        let mut rest = val;
        let mut out: Vec<SonicSerdeObject> = Vec::new();
        let n = rest.len();
        let mut i: usize = 0;
        while i < n
            invariant
                n == all.len(),
                i <= n,
                rest@ == all.subrange(i as int, n as int),
                out@ == all.subrange(0, i as int).map_values(|x: i128| SonicSerdeObject::I128(x)),
            decreases n - i,
        {
            let x = rest.remove(0);
            out.push(SonicSerdeObject::I128(x));
            i = i + 1;
            assert(out@ =~= all.subrange(0, i as int).map_values(|x: i128| SonicSerdeObject::I128(x)));
        }
        assert(all.subrange(0, n as int) =~= all);
        SonicSerdeObject::Vec(out)
    }
}

impl vstd::std_specs::convert::FromSpecImpl<Vec<i128>> for SonicSerdeObject {
    open spec fn obeys_from_spec() -> bool {
        false
    }

    open spec fn from_spec(val: Vec<i128>) -> SonicSerdeObject {
        arbitrary()
    }
}

/// A sequence with one `USize` value per item, in order.
impl From<Vec<usize>> for SonicSerdeObject {
    fn from(val: Vec<usize>) -> (r: SonicSerdeObject)
        ensures
            r is Vec && r->Vec_0@ == val@.map_values(|x: usize| SonicSerdeObject::USize(x)),
    {
        let ghost all = val@;
        let mut rest = val;
        let mut out: Vec<SonicSerdeObject> = Vec::new();
        let n = rest.len();
        let mut i: usize = 0;
        while i < n
            invariant
                n == all.len(),
                i <= n,
                rest@ == all.subrange(i as int, n as int),
                out@ == all.subrange(0, i as int).map_values(|x: usize| SonicSerdeObject::USize(x)),
            decreases n - i,
        {
            let x = rest.remove(0);
            out.push(SonicSerdeObject::USize(x));
            i = i + 1;
            assert(out@ =~= all.subrange(0, i as int).map_values(|x: usize| SonicSerdeObject::USize(x)));
        }
        assert(all.subrange(0, n as int) =~= all);
        SonicSerdeObject::Vec(out)
    }
}

impl vstd::std_specs::convert::FromSpecImpl<Vec<usize>> for SonicSerdeObject {
    open spec fn obeys_from_spec() -> bool {
        false
    }

    open spec fn from_spec(val: Vec<usize>) -> SonicSerdeObject {
        arbitrary()
    }
}

/// A sequence with one `Option` value per item, in order.
impl From<Vec<Option<SonicSerdeObject>>> for SonicSerdeObject {
    fn from(val: Vec<Option<SonicSerdeObject>>) -> (r: SonicSerdeObject)
        ensures
            r is Vec && r->Vec_0@ == val@.map_values(|x: Option<SonicSerdeObject>| SonicSerdeObject::Option(Box::new(x))),
    {
        let ghost all = val@;
        let mut rest = val;
        let mut out: Vec<SonicSerdeObject> = Vec::new();
        let n = rest.len();
        let mut i: usize = 0;
        while i < n
            invariant
                n == all.len(),
                i <= n,
                rest@ == all.subrange(i as int, n as int),
                out@ == all.subrange(0, i as int).map_values(|x: Option<SonicSerdeObject>| SonicSerdeObject::Option(Box::new(x))),
            decreases n - i,
        {
            let x = rest.remove(0);
            out.push(SonicSerdeObject::Option(Box::new(x)));
            i = i + 1;
            assert(out@ =~= all.subrange(0, i as int).map_values(|x: Option<SonicSerdeObject>| SonicSerdeObject::Option(Box::new(x))));
        }
        assert(all.subrange(0, n as int) =~= all);
        SonicSerdeObject::Vec(out)
    }
}

impl vstd::std_specs::convert::FromSpecImpl<Vec<Option<SonicSerdeObject>>> for SonicSerdeObject {
    open spec fn obeys_from_spec() -> bool {
        false
    }

    open spec fn from_spec(val: Vec<Option<SonicSerdeObject>>) -> SonicSerdeObject {
        arbitrary()
    }
}

/// A sequence with one `String` value per item, in order.
impl From<Vec<&String>> for SonicSerdeObject {
    fn from(val: Vec<&String>) -> (r: SonicSerdeObject)
        ensures
            r is Vec && r->Vec_0@ == val@.map_values(|x: &String| SonicSerdeObject::String(*x)),
    {
        let mut out: Vec<SonicSerdeObject> = Vec::new();
        let mut i: usize = 0;
        while i < val.len()
            invariant
                i <= val@.len(),
                out@ == val@.subrange(0, i as int).map_values(|x: &String| SonicSerdeObject::String(*x)),
            decreases val@.len() - i,
        {
            out.push(SonicSerdeObject::String(val[i].clone()));
            i = i + 1;
            assert(out@ =~= val@.subrange(0, i as int).map_values(|x: &String| SonicSerdeObject::String(*x)));
        }
        assert(val@.subrange(0, val@.len() as int) =~= val@);
        SonicSerdeObject::Vec(out)
    }
}

impl vstd::std_specs::convert::FromSpecImpl<Vec<&String>> for SonicSerdeObject {
    open spec fn obeys_from_spec() -> bool {
        false
    }

    open spec fn from_spec(val: Vec<&String>) -> SonicSerdeObject {
        arbitrary()
    }
}

/// A sequence with one `Bool` value per item, in order.
impl From<Vec<&bool>> for SonicSerdeObject {
    fn from(val: Vec<&bool>) -> (r: SonicSerdeObject)
        ensures
            r is Vec && r->Vec_0@ == val@.map_values(|x: &bool| SonicSerdeObject::Bool(*x)),
    {
        let mut out: Vec<SonicSerdeObject> = Vec::new();
        let mut i: usize = 0;
        while i < val.len()
            invariant
                i <= val@.len(),
                out@ == val@.subrange(0, i as int).map_values(|x: &bool| SonicSerdeObject::Bool(*x)),
            decreases val@.len() - i,
        {
            out.push(SonicSerdeObject::Bool(*val[i]));
            i = i + 1;
            assert(out@ =~= val@.subrange(0, i as int).map_values(|x: &bool| SonicSerdeObject::Bool(*x)));
        }
        assert(val@.subrange(0, val@.len() as int) =~= val@);
        SonicSerdeObject::Vec(out)
    }
}

impl vstd::std_specs::convert::FromSpecImpl<Vec<&bool>> for SonicSerdeObject {
    open spec fn obeys_from_spec() -> bool {
        false
    }

    open spec fn from_spec(val: Vec<&bool>) -> SonicSerdeObject {
        arbitrary()
    }
}

/// A sequence with one `U8` value per item, in order.
impl From<Vec<&u8>> for SonicSerdeObject {
    fn from(val: Vec<&u8>) -> (r: SonicSerdeObject)
        ensures
            r is Vec && r->Vec_0@ == val@.map_values(|x: &u8| SonicSerdeObject::U8(*x)),
    {
        let mut out: Vec<SonicSerdeObject> = Vec::new();
        let mut i: usize = 0;
        while i < val.len()
            invariant
                i <= val@.len(),
                out@ == val@.subrange(0, i as int).map_values(|x: &u8| SonicSerdeObject::U8(*x)),
            decreases val@.len() - i,
        {
            out.push(SonicSerdeObject::U8(*val[i]));
            i = i + 1;
            assert(out@ =~= val@.subrange(0, i as int).map_values(|x: &u8| SonicSerdeObject::U8(*x)));
        }
        assert(val@.subrange(0, val@.len() as int) =~= val@);
        SonicSerdeObject::Vec(out)
    }
}

impl vstd::std_specs::convert::FromSpecImpl<Vec<&u8>> for SonicSerdeObject {
    open spec fn obeys_from_spec() -> bool {
        false
    }

    open spec fn from_spec(val: Vec<&u8>) -> SonicSerdeObject {
        arbitrary()
    }
}

/// A sequence with one `U16` value per item, in order.
impl From<Vec<&u16>> for SonicSerdeObject {
    fn from(val: Vec<&u16>) -> (r: SonicSerdeObject)
        ensures
            r is Vec && r->Vec_0@ == val@.map_values(|x: &u16| SonicSerdeObject::U16(*x)),
    {
        let mut out: Vec<SonicSerdeObject> = Vec::new();
        let mut i: usize = 0;
        while i < val.len()
            invariant
                i <= val@.len(),
                out@ == val@.subrange(0, i as int).map_values(|x: &u16| SonicSerdeObject::U16(*x)),
            decreases val@.len() - i,
        {
            out.push(SonicSerdeObject::U16(*val[i]));
            i = i + 1;
            assert(out@ =~= val@.subrange(0, i as int).map_values(|x: &u16| SonicSerdeObject::U16(*x)));
        }
        assert(val@.subrange(0, val@.len() as int) =~= val@);
        SonicSerdeObject::Vec(out)
    }
}

impl vstd::std_specs::convert::FromSpecImpl<Vec<&u16>> for SonicSerdeObject {
    open spec fn obeys_from_spec() -> bool {
        false
    }

    open spec fn from_spec(val: Vec<&u16>) -> SonicSerdeObject {
        arbitrary()
    }
}

/// A sequence with one `U32` value per item, in order.
impl From<Vec<&u32>> for SonicSerdeObject {
    fn from(val: Vec<&u32>) -> (r: SonicSerdeObject)
        ensures
            r is Vec && r->Vec_0@ == val@.map_values(|x: &u32| SonicSerdeObject::U32(*x)),
    {
        let mut out: Vec<SonicSerdeObject> = Vec::new();
        let mut i: usize = 0;
        while i < val.len()
            invariant
                i <= val@.len(),
                out@ == val@.subrange(0, i as int).map_values(|x: &u32| SonicSerdeObject::U32(*x)),
            decreases val@.len() - i,
        {
            out.push(SonicSerdeObject::U32(*val[i]));
            i = i + 1;
            assert(out@ =~= val@.subrange(0, i as int).map_values(|x: &u32| SonicSerdeObject::U32(*x)));
        }
        assert(val@.subrange(0, val@.len() as int) =~= val@);
        SonicSerdeObject::Vec(out)
    }
}

impl vstd::std_specs::convert::FromSpecImpl<Vec<&u32>> for SonicSerdeObject {
    open spec fn obeys_from_spec() -> bool {
        false
    }

    open spec fn from_spec(val: Vec<&u32>) -> SonicSerdeObject {
        arbitrary()
    }
}

/// A sequence with one `U64` value per item, in order.
impl From<Vec<&u64>> for SonicSerdeObject {
    fn from(val: Vec<&u64>) -> (r: SonicSerdeObject)
        ensures
            r is Vec && r->Vec_0@ == val@.map_values(|x: &u64| SonicSerdeObject::U64(*x)),
    {
        let mut out: Vec<SonicSerdeObject> = Vec::new();
        let mut i: usize = 0;
        while i < val.len()
            invariant
                i <= val@.len(),
                out@ == val@.subrange(0, i as int).map_values(|x: &u64| SonicSerdeObject::U64(*x)),
            decreases val@.len() - i,
        {
            out.push(SonicSerdeObject::U64(*val[i]));
            i = i + 1;
            assert(out@ =~= val@.subrange(0, i as int).map_values(|x: &u64| SonicSerdeObject::U64(*x)));
        }
        assert(val@.subrange(0, val@.len() as int) =~= val@);
        SonicSerdeObject::Vec(out)
    }
}

impl vstd::std_specs::convert::FromSpecImpl<Vec<&u64>> for SonicSerdeObject {
    open spec fn obeys_from_spec() -> bool {
        false
    }

    open spec fn from_spec(val: Vec<&u64>) -> SonicSerdeObject {
        arbitrary()
    }
}

/// A sequence with one `U128` value per item, in order.
impl From<Vec<&u128>> for SonicSerdeObject {
    fn from(val: Vec<&u128>) -> (r: SonicSerdeObject)
        ensures
            r is Vec && r->Vec_0@ == val@.map_values(|x: &u128| SonicSerdeObject::U128(*x)),
    {
        let mut out: Vec<SonicSerdeObject> = Vec::new();
        let mut i: usize = 0;
        while i < val.len()
            invariant
                i <= val@.len(),
                out@ == val@.subrange(0, i as int).map_values(|x: &u128| SonicSerdeObject::U128(*x)),
            decreases val@.len() - i,
        {
            out.push(SonicSerdeObject::U128(*val[i]));
            i = i + 1;
            assert(out@ =~= val@.subrange(0, i as int).map_values(|x: &u128| SonicSerdeObject::U128(*x)));
        }
        assert(val@.subrange(0, val@.len() as int) =~= val@);
        SonicSerdeObject::Vec(out)
    }
}

impl vstd::std_specs::convert::FromSpecImpl<Vec<&u128>> for SonicSerdeObject {
    open spec fn obeys_from_spec() -> bool {
        false
    }

    open spec fn from_spec(val: Vec<&u128>) -> SonicSerdeObject {
        arbitrary()
    }
}

/// A sequence with one `I8` value per item, in order.
impl From<Vec<&i8>> for SonicSerdeObject {
    fn from(val: Vec<&i8>) -> (r: SonicSerdeObject)
        ensures
            r is Vec && r->Vec_0@ == val@.map_values(|x: &i8| SonicSerdeObject::I8(*x)),
    {
        let mut out: Vec<SonicSerdeObject> = Vec::new();
        let mut i: usize = 0;
        while i < val.len()
            invariant
                i <= val@.len(),
                out@ == val@.subrange(0, i as int).map_values(|x: &i8| SonicSerdeObject::I8(*x)),
            decreases val@.len() - i,
        {
            out.push(SonicSerdeObject::I8(*val[i]));
            i = i + 1;
            assert(out@ =~= val@.subrange(0, i as int).map_values(|x: &i8| SonicSerdeObject::I8(*x)));
        }
        assert(val@.subrange(0, val@.len() as int) =~= val@);
        SonicSerdeObject::Vec(out)
    }
}

impl vstd::std_specs::convert::FromSpecImpl<Vec<&i8>> for SonicSerdeObject {
    open spec fn obeys_from_spec() -> bool {
        false
    }

    open spec fn from_spec(val: Vec<&i8>) -> SonicSerdeObject {
        arbitrary()
    }
}

/// A sequence with one `I16` value per item, in order.
impl From<Vec<&i16>> for SonicSerdeObject {
    fn from(val: Vec<&i16>) -> (r: SonicSerdeObject)
        ensures
            r is Vec && r->Vec_0@ == val@.map_values(|x: &i16| SonicSerdeObject::I16(*x)),
    {
        let mut out: Vec<SonicSerdeObject> = Vec::new();
        let mut i: usize = 0;
        while i < val.len()
            invariant
                i <= val@.len(),
                out@ == val@.subrange(0, i as int).map_values(|x: &i16| SonicSerdeObject::I16(*x)),
            decreases val@.len() - i,
        {
            out.push(SonicSerdeObject::I16(*val[i]));
            i = i + 1;
            assert(out@ =~= val@.subrange(0, i as int).map_values(|x: &i16| SonicSerdeObject::I16(*x)));
        }
        assert(val@.subrange(0, val@.len() as int) =~= val@);
        SonicSerdeObject::Vec(out)
    }
}

impl vstd::std_specs::convert::FromSpecImpl<Vec<&i16>> for SonicSerdeObject {
    open spec fn obeys_from_spec() -> bool {
        false
    }

    open spec fn from_spec(val: Vec<&i16>) -> SonicSerdeObject {
        arbitrary()
    }
}

/// A sequence with one `I32` value per item, in order.
impl From<Vec<&i32>> for SonicSerdeObject {
    fn from(val: Vec<&i32>) -> (r: SonicSerdeObject)
        ensures
            r is Vec && r->Vec_0@ == val@.map_values(|x: &i32| SonicSerdeObject::I32(*x)),
    {
        let mut out: Vec<SonicSerdeObject> = Vec::new();
        let mut i: usize = 0;
        while i < val.len()
            invariant
                i <= val@.len(),
                out@ == val@.subrange(0, i as int).map_values(|x: &i32| SonicSerdeObject::I32(*x)),
            decreases val@.len() - i,
        {
            out.push(SonicSerdeObject::I32(*val[i]));
            i = i + 1;
            assert(out@ =~= val@.subrange(0, i as int).map_values(|x: &i32| SonicSerdeObject::I32(*x)));
        }
        assert(val@.subrange(0, val@.len() as int) =~= val@);
        SonicSerdeObject::Vec(out)
    }
}

impl vstd::std_specs::convert::FromSpecImpl<Vec<&i32>> for SonicSerdeObject {
    open spec fn obeys_from_spec() -> bool {
        false
    }

    open spec fn from_spec(val: Vec<&i32>) -> SonicSerdeObject {
        arbitrary()
    }
}

/// A sequence with one `I64` value per item, in order.
impl From<Vec<&i64>> for SonicSerdeObject {
    fn from(val: Vec<&i64>) -> (r: SonicSerdeObject)
        ensures
            r is Vec && r->Vec_0@ == val@.map_values(|x: &i64| SonicSerdeObject::I64(*x)),
    {
        let mut out: Vec<SonicSerdeObject> = Vec::new();
        let mut i: usize = 0;
        while i < val.len()
            invariant
                i <= val@.len(),
                out@ == val@.subrange(0, i as int).map_values(|x: &i64| SonicSerdeObject::I64(*x)),
            decreases val@.len() - i,
        {
            out.push(SonicSerdeObject::I64(*val[i]));
            i = i + 1;
            assert(out@ =~= val@.subrange(0, i as int).map_values(|x: &i64| SonicSerdeObject::I64(*x)));
        }
        assert(val@.subrange(0, val@.len() as int) =~= val@);
        SonicSerdeObject::Vec(out)
    }
}

impl vstd::std_specs::convert::FromSpecImpl<Vec<&i64>> for SonicSerdeObject {
    open spec fn obeys_from_spec() -> bool {
        false
    }

    open spec fn from_spec(val: Vec<&i64>) -> SonicSerdeObject {
        arbitrary()
    }
}

/// A sequence with one `I128` value per item, in order.
impl From<Vec<&i128>> for SonicSerdeObject {
    fn from(val: Vec<&i128>) -> (r: SonicSerdeObject)
        ensures
            r is Vec && r->Vec_0@ == val@.map_values(|x: &i128| SonicSerdeObject::I128(*x)),
    {
        let mut out: Vec<SonicSerdeObject> = Vec::new();
        let mut i: usize = 0;
        while i < val.len()
            invariant
                i <= val@.len(),
                out@ == val@.subrange(0, i as int).map_values(|x: &i128| SonicSerdeObject::I128(*x)),
            decreases val@.len() - i,
        {
            out.push(SonicSerdeObject::I128(*val[i]));
            i = i + 1;
            assert(out@ =~= val@.subrange(0, i as int).map_values(|x: &i128| SonicSerdeObject::I128(*x)));
        }
        assert(val@.subrange(0, val@.len() as int) =~= val@);
        SonicSerdeObject::Vec(out)
    }
}

impl vstd::std_specs::convert::FromSpecImpl<Vec<&i128>> for SonicSerdeObject {
    open spec fn obeys_from_spec() -> bool {
        false
    }

    open spec fn from_spec(val: Vec<&i128>) -> SonicSerdeObject {
        arbitrary()
    }
}

/// A text value holding a copy of `val`.
impl From<&str> for SonicSerdeObject {
    fn from(val: &str) -> (r: SonicSerdeObject)
        ensures
            r is String && r->String_0@ == val@,
    {
        SonicSerdeObject::String(String::from_str(val))
    }
}

impl vstd::std_specs::convert::FromSpecImpl<&str> for SonicSerdeObject {
    open spec fn obeys_from_spec() -> bool {
        false
    }

    open spec fn from_spec(val: &str) -> SonicSerdeObject {
        arbitrary()
    }
}

/// An `Option` value holding a copy of `val`, equal to it in the total order.
impl From<&Option<SonicSerdeObject>> for SonicSerdeObject {
    fn from(val: &Option<SonicSerdeObject>) -> (r: SonicSerdeObject)
        ensures
            r is Option && ((*r->Option_0) is Some <==> val is Some),
            val is Some ==> (*r->Option_0) is Some && cmp_value(
                (*r->Option_0)->Some_0,
                val->Some_0,
            ) == 0,
    {
        match val {
            Option::Some(v) => SonicSerdeObject::Option(Box::new(Some(v.deep_clone()))),
            Option::None => SonicSerdeObject::Option(Box::new(None)),
        }
    }
}

impl vstd::std_specs::convert::FromSpecImpl<&Option<SonicSerdeObject>> for SonicSerdeObject {
    open spec fn obeys_from_spec() -> bool {
        false
    }

    open spec fn from_spec(val: &Option<SonicSerdeObject>) -> SonicSerdeObject {
        arbitrary()
    }
}

/// A sequence with one `Option` value per item, each holding a copy of the
/// item's value, equal to it in the total order.
impl From<Vec<&Option<SonicSerdeObject>>> for SonicSerdeObject {
    fn from(val: Vec<&Option<SonicSerdeObject>>) -> (r: SonicSerdeObject)
        ensures
            r is Vec && r->Vec_0@.len() == val@.len(),
            forall|i: int|
                0 <= i < val@.len() ==> (#[trigger] r->Vec_0@[i]) is Option && ((*r->Vec_0@[i]->Option_0) is Some
                    <==> val@[i] is Some),
            forall|i: int|
                0 <= i < val@.len() && val@[i] is Some ==> cmp_value(
                    (*(#[trigger] r->Vec_0@[i])->Option_0)->Some_0,
                    val@[i]->Some_0,
                ) == 0,
    {
        let mut out: Vec<SonicSerdeObject> = Vec::new();
        let mut i: usize = 0;
        while i < val.len()
            invariant
                i <= val@.len(),
                out@.len() == i,
                forall|j: int|
                    0 <= j < i ==> (#[trigger] out@[j]) is Option && ((*out@[j]->Option_0) is Some
                        <==> val@[j] is Some),
                forall|j: int|
                    0 <= j < i && val@[j] is Some ==> cmp_value(
                        (*(#[trigger] out@[j])->Option_0)->Some_0,
                        val@[j]->Some_0,
                    ) == 0,
            decreases val@.len() - i,
        {
            out.push(SonicSerdeObject::from(val[i]));
            i = i + 1;
        }
        SonicSerdeObject::Vec(out)
    }
}

impl vstd::std_specs::convert::FromSpecImpl<Vec<&Option<SonicSerdeObject>>> for SonicSerdeObject {
    open spec fn obeys_from_spec() -> bool {
        false
    }

    open spec fn from_spec(val: Vec<&Option<SonicSerdeObject>>) -> SonicSerdeObject {
        arbitrary()
    }
}

impl AsRef<SonicSerdeObject> for SonicSerdeObject {
    fn as_ref(&self) -> &SonicSerdeObject {
        self
    }
}

impl AsMut<SonicSerdeObject> for SonicSerdeObject {
    fn as_mut(&mut self) -> &mut SonicSerdeObject {
        self
    }
}

} // verus!
