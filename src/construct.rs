use vstd::prelude::*;
use crate::value::{SonicSerdeObject, Timestamp, cmp_value};
use crate::mapping::{
    keys_sorted, upsert, has_key, one_entry_for, keeps_others, entries_wf, lemma_lower_index_at,
    lemma_upsert_props, lemma_upsert_sorted, lemma_upsert_wf,
};

verus! {

/// The entries after inserting each pair of `s` in turn into an empty mapping.
pub open spec fn upsert_all(s: Seq<(SonicSerdeObject, SonicSerdeObject)>) -> Seq<(SonicSerdeObject, SonicSerdeObject)>
    decreases s.len(),
{
    if s.len() == 0 {
        Seq::empty()
    } else {
        let last = s[s.len() - 1];
        upsert(upsert_all(s.subrange(0, s.len() - 1)), last.0, last.1)
    }
}

impl SonicSerdeObject {
    /// An empty sequence.
    pub fn new_vec() -> (r: SonicSerdeObject)
        ensures
            r.wf(),
            r is Vec && r->Vec_0@ == Seq::<SonicSerdeObject>::empty(),
    {
        SonicSerdeObject::Vec(Vec::new())
    }

    /// An empty mapping.
    pub fn new_map() -> (r: SonicSerdeObject)
        ensures
            r.wf(),
            r is Mapping && r->Mapping_0@ == Seq::<(SonicSerdeObject, SonicSerdeObject)>::empty(),
    {
        SonicSerdeObject::Mapping(Vec::new())
    }

    /// A mapping with the single entry `key -> value`.
    pub fn new_map_with(key: SonicSerdeObject, value: SonicSerdeObject) -> (r: SonicSerdeObject)
        ensures
            key.wf() && value.wf() ==> r.wf(),
            r is Mapping && r->Mapping_0@ == seq![(key, value)],
    {
        let mut x = SonicSerdeObject::new_map();
        x.insert(key, value);
        proof {
            assert(crate::mapping::lower_index(Seq::empty(), key) == 0);
            assert(Seq::<(SonicSerdeObject, SonicSerdeObject)>::empty().insert(0, (key, value)) =~= seq![(key, value)]);
        }
        x
    }

    /// A text value holding `val_str`.
    pub fn from_str(val_str: &str) -> (r: SonicSerdeObject)
        ensures
            r.wf(),
            r is String && r->String_0@ == val_str@,
    {
        SonicSerdeObject::String(String::from_str(val_str))
    }

    /// A text value holding `val`.
    pub fn from_string(val: String) -> (r: SonicSerdeObject)
        ensures
            r.wf(),
            r == SonicSerdeObject::String(val),
    {
        SonicSerdeObject::String(val)
    }

    /// A `Bool` value holding `val`.
    pub fn from_bool(val: bool) -> (r: SonicSerdeObject)
        ensures
            r.wf(),
            r == SonicSerdeObject::Bool(val),
    {
        SonicSerdeObject::Bool(val)
    }

    /// A `SystemTime` value holding `val`.
    pub fn from_system_time(val: Timestamp) -> (r: SonicSerdeObject)
        ensures
            r.wf() == val.wf(),
            r == SonicSerdeObject::SystemTime(val),
    {
        SonicSerdeObject::SystemTime(val)
    }

    /// A `U8` value holding `val`.
    pub fn from_u8(val: u8) -> (r: SonicSerdeObject)
        ensures
            r.wf(),
            r == SonicSerdeObject::U8(val),
    {
        SonicSerdeObject::U8(val)
    }

    /// A `U16` value holding `val`.
    pub fn from_u16(val: u16) -> (r: SonicSerdeObject)
        ensures
            r.wf(),
            r == SonicSerdeObject::U16(val),
    {
        SonicSerdeObject::U16(val)
    }

    /// A `U32` value holding `val`.
    pub fn from_u32(val: u32) -> (r: SonicSerdeObject)
        ensures
            r.wf(),
            r == SonicSerdeObject::U32(val),
    {
        SonicSerdeObject::U32(val)
    }

    /// A `U64` value holding `val`.
    pub fn from_u64(val: u64) -> (r: SonicSerdeObject)
        ensures
            r.wf(),
            r == SonicSerdeObject::U64(val),
    {
        SonicSerdeObject::U64(val)
    }

    /// A `U128` value holding `val`.
    pub fn from_u128(val: u128) -> (r: SonicSerdeObject)
        ensures
            r.wf(),
            r == SonicSerdeObject::U128(val),
    {
        SonicSerdeObject::U128(val)
    }

    /// A `I8` value holding `val`.
    pub fn from_i8(val: i8) -> (r: SonicSerdeObject)
        ensures
            r.wf(),
            r == SonicSerdeObject::I8(val),
    {
        SonicSerdeObject::I8(val)
    }

    /// A `I16` value holding `val`.
    pub fn from_i16(val: i16) -> (r: SonicSerdeObject)
        ensures
            r.wf(),
            r == SonicSerdeObject::I16(val),
    {
        SonicSerdeObject::I16(val)
    }

    /// A `I32` value holding `val`.
    pub fn from_i32(val: i32) -> (r: SonicSerdeObject)
        ensures
            r.wf(),
            r == SonicSerdeObject::I32(val),
    {
        SonicSerdeObject::I32(val)
    }

    /// A `I64` value holding `val`.
    pub fn from_i64(val: i64) -> (r: SonicSerdeObject)
        ensures
            r.wf(),
            r == SonicSerdeObject::I64(val),
    {
        SonicSerdeObject::I64(val)
    }

    /// A `I128` value holding `val`.
    pub fn from_i128(val: i128) -> (r: SonicSerdeObject)
        ensures
            r.wf(),
            r == SonicSerdeObject::I128(val),
    {
        SonicSerdeObject::I128(val)
    }

    /// A `USize` value holding `val`.
    pub fn from_usize(val: usize) -> (r: SonicSerdeObject)
        ensures
            r.wf(),
            r == SonicSerdeObject::USize(val),
    {
        SonicSerdeObject::USize(val)
    }

    /// An `F32` value holding the float whose IEEE-754 bit pattern is `bits`.
    pub fn from_f32_bits(bits: u32) -> (r: SonicSerdeObject)
        ensures
            r.wf(),
            r == SonicSerdeObject::F32(bits),
    {
        SonicSerdeObject::F32(bits)
    }

    /// An `F64` value holding the float whose IEEE-754 bit pattern is `bits`.
    pub fn from_f64_bits(bits: u64) -> (r: SonicSerdeObject)
        ensures
            r.wf(),
            r == SonicSerdeObject::F64(bits),
    {
        SonicSerdeObject::F64(bits)
    }

    /// An `Option` value holding `val`.
    pub fn from_option(val: Option<SonicSerdeObject>) -> (r: SonicSerdeObject)
        ensures
            r.wf() == (val is Some ==> val->Some_0.wf()),
            r is Option && *r->Option_0 == val,
    {
        SonicSerdeObject::Option(Box::new(val))
    }

    /// A raw byte sequence: bytes become one `VecU8` value, never a sequence
    /// of `U8` values.
    pub fn from_bytes(val: Vec<u8>) -> (r: SonicSerdeObject)
        ensures
            r.wf(),
            r is VecU8 && r->VecU8_0@ == val@,
    {
        SonicSerdeObject::VecU8(val)
    }

    /// A sequence holding `items` in order.
    pub fn from_values(items: Vec<SonicSerdeObject>) -> (r: SonicSerdeObject)
        ensures
            r.wf() == forall|i: int| 0 <= i < items@.len() ==> (#[trigger] items@[i]).wf(),
            r is Vec && r->Vec_0@ == items@,
    {
        SonicSerdeObject::Vec(items)
    }

    /// A mapping built by inserting each entry of `entries` in turn; a later
    /// entry whose key equals an earlier one replaces its value.
    pub fn from_entries(entries: Vec<(SonicSerdeObject, SonicSerdeObject)>) -> (r: SonicSerdeObject)
        ensures
            r is Mapping && r->Mapping_0@ == upsert_all(entries@),
            keys_sorted(r->Mapping_0@),
            entries_wf(entries@) ==> r.wf(),
    {
        let mut out: Vec<(SonicSerdeObject, SonicSerdeObject)> = Vec::new();
        let mut rest = entries;
        let ghost all = rest@;
        let mut i: usize = 0;
        let n = rest.len();
        while i < n
            invariant
                n == all.len(),
                i <= n,
                rest@ == all.subrange(i as int, n as int),
                out@ == upsert_all(all.subrange(0, i as int)),
                keys_sorted(out@),
                entries_wf(all) ==> entries_wf(out@),
            decreases n - i,
        {
            let (k, v) = rest.remove(0);
            proof {
                assert(k == all[i as int].0 && v == all[i as int].1);
                lemma_upsert_sorted(out@, k, v);
                if entries_wf(all) {
                    assert(all[i as int].0.wf() && all[i as int].1.wf());
                    lemma_upsert_wf(out@, k, v);
                }
                assert(all.subrange(0, i + 1).subrange(0, i as int) =~= all.subrange(0, i as int));
            }
            insert_entry(&mut out, k, v);
            i = i + 1;
        }
        assert(all.subrange(0, n as int) =~= all);
        SonicSerdeObject::Mapping(out)
    }

    /// Appends `val` to a sequence; any other value is left as it is.
    pub fn push(&mut self, val: SonicSerdeObject)
        ensures
            (*old(self)) is Vec ==> (*final(self)) is Vec && (*final(self))->Vec_0@ == (*old(self))->Vec_0@.push(val),
            !((*old(self)) is Vec) ==> *final(self) == *old(self),
            old(self).wf() && val.wf() ==> final(self).wf(),
    {
        match self {
            SonicSerdeObject::Vec(v) => v.push(val),
            _ => {},
        }
    }

    /// Inserts `key -> val` into a mapping, replacing the value of an entry
    /// whose key equals `key` (that entry keeps its key); any other value is
    /// left as it is.
    pub fn insert(&mut self, key: SonicSerdeObject, val: SonicSerdeObject)
        requires
            old(self).wf(),
        ensures
            (*old(self)) is Mapping ==> (*final(self)) is Mapping && {
                let s = (*old(self))->Mapping_0@;
                let r = (*final(self))->Mapping_0@;
                &&& r == upsert(s, key, val)
                &&& keys_sorted(r)
                &&& one_entry_for(r, key, val)
                &&& keeps_others(s, r, key)
                &&& r.len() == s.len() + if has_key(s, key) { 0int } else { 1int }
            },
            !((*old(self)) is Mapping) ==> *final(self) == *old(self),
            key.wf() && val.wf() ==> final(self).wf(),
    {
        match self {
            SonicSerdeObject::Mapping(m) => {
                proof {
                    lemma_upsert_props(m@, key, val);
                }
                insert_entry(m, key, val);
            },
            _ => {},
        }
    }
}

/// Inserts `key -> val` at the place that a scan for the first key not below
/// `key` finds, as `upsert` says.
fn insert_entry(
    m: &mut Vec<(SonicSerdeObject, SonicSerdeObject)>,
    key: SonicSerdeObject,
    val: SonicSerdeObject,
)
    ensures
        final(m)@ == upsert(old(m)@, key, val),
{
    let ghost s = m@;
    let mut i: usize = 0;
    while i < m.len() && m[i].0.compare(&key) < 0
        invariant
            m@ == s,
            i <= s.len(),
            forall|j: int| 0 <= j < i ==> cmp_value(#[trigger] s[j].0, key) < 0,
        decreases s.len() - i,
    {
        i = i + 1;
    }
    proof {
        lemma_lower_index_at(s, key, i as int);
    }
    if i < m.len() && m[i].0.compare(&key) == 0 {
        let (k0, _) = m.remove(i);
        m.insert(i, (k0, val));
        assert(m@ =~= s.update(i as int, (s[i as int].0, val)));
    } else {
        m.insert(i, (key, val));
    }
}

} // verus!
