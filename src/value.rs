use vstd::prelude::*;
use vstd::utf8::encode_utf8;
use crate::order::{lemma_cmp_refl, lemma_cmp_trans, lemma_cmp_antisym};
use crate::mapping::keys_sorted;

verus! {

broadcast use vstd::std_specs::vec::group_vec_axioms;

/// A point in time: whole seconds relative to the Unix epoch (negative
/// before it) and the nanoseconds past that second, below one billion in a
/// well-formed timestamp.
#[derive(Debug, Clone, Copy, PartialEq, Eq, Structural, Hash)]
pub struct Timestamp {
    pub secs: i64,
    pub nanos: u32,
}

impl Timestamp {
    /// The nanoseconds lie within the second, so each instant has one form.
    pub open spec fn wf(&self) -> bool {
        self.nanos < 1_000_000_000
    }

    /// The timestamp `secs` seconds and `nanos` nanoseconds after the epoch;
    /// `None` when `nanos` is a whole second or more.
    pub fn new(secs: i64, nanos: u32) -> (r: Option<Timestamp>)
        ensures
            nanos < 1_000_000_000 <==> r is Some,
            r is Some ==> r->Some_0 == (Timestamp { secs, nanos }) && r->Some_0.wf(),
    {
        if nanos < 1_000_000_000 {
            Some(Timestamp { secs, nanos })
        } else {
            None
        }
    }
}

/// The tag of each variant, in registry declaration order.
#[derive(Debug, Clone, Copy, PartialEq, Eq, Structural, Hash)]
pub enum Tag {
    String,
    Vec,
    Mapping,
    Bool,
    SystemTime,
    U8,
    U16,
    U32,
    U64,
    U128,
    I8,
    I16,
    I32,
    I64,
    I128,
    VecU8,
    USize,
    Option,
    F32,
    F64,
}

/// A self-describing value. `Mapping` holds its entries as key/value pairs,
/// in strictly increasing key order in a well-formed value (see `wf`).
/// `F32` and `F64` hold IEEE-754 bit patterns, compared with a total order in
/// which every NaN is equal to every other and greater than all numbers, and
/// `-0` equals `+0`.
#[derive(Debug)]
pub enum SonicSerdeObject {
    String(String),
    Vec(Vec<SonicSerdeObject>),
    Mapping(Vec<(SonicSerdeObject, SonicSerdeObject)>),
    Bool(bool),
    SystemTime(Timestamp),
    U8(u8),
    U16(u16),
    U32(u32),
    U64(u64),
    U128(u128),
    I8(i8),
    I16(i16),
    I32(i32),
    I64(i64),
    I128(i128),
    VecU8(Vec<u8>),
    USize(usize),
    Option(Box<Option<SonicSerdeObject>>),
    F32(u32),
    F64(u64),
}

/// The one error of extraction: the value does not hold the requested kind.
#[derive(Debug, Clone, PartialEq, Eq)]
pub enum SonicSerdeObjectError {
    NotA(String),
}

impl Tag {
    /// Position of the tag in the registry; values of lower rank order first.
    pub open spec fn rank(self) -> int {
        match self {
            Tag::String => 0,
            Tag::Vec => 1,
            Tag::Mapping => 2,
            Tag::Bool => 3,
            Tag::SystemTime => 4,
            Tag::U8 => 5,
            Tag::U16 => 6,
            Tag::U32 => 7,
            Tag::U64 => 8,
            Tag::U128 => 9,
            Tag::I8 => 10,
            Tag::I16 => 11,
            Tag::I32 => 12,
            Tag::I64 => 13,
            Tag::I128 => 14,
            Tag::VecU8 => 15,
            Tag::USize => 16,
            Tag::Option => 17,
            Tag::F32 => 18,
            Tag::F64 => 19,
        }
    }

    pub open spec fn spec_name(self) -> Seq<char> {
        match self {
            Tag::String => "String"@,
            Tag::Vec => "Vec"@,
            Tag::Mapping => "Map"@,
            Tag::Bool => "Bool"@,
            Tag::SystemTime => "SystemTime"@,
            Tag::U8 => "U8"@,
            Tag::U16 => "U16"@,
            Tag::U32 => "U32"@,
            Tag::U64 => "U64"@,
            Tag::U128 => "U128"@,
            Tag::I8 => "I8"@,
            Tag::I16 => "I16"@,
            Tag::I32 => "I32"@,
            Tag::I64 => "I64"@,
            Tag::I128 => "I128"@,
            Tag::VecU8 => "VecU8"@,
            Tag::USize => "USize"@,
            Tag::Option => "Option"@,
            Tag::F32 => "F32"@,
            Tag::F64 => "F64"@,
        }
    }
}

pub open spec fn int_cmp(x: int, y: int) -> int {
    if x < y {
        -1
    } else if x > y {
        1
    } else {
        0
    }
}

/// Order key of an `f32` bit pattern: the number's sign and magnitude, with
/// both zeros at 0 and every NaN above positive infinity.
pub open spec fn f32_key(b: u32) -> int {
    let mag = (b % 0x8000_0000) as int;
    if mag > 0x7f80_0000 {
        0x1_0000_0000
    } else if b >= 0x8000_0000 {
        -mag
    } else {
        mag
    }
}

/// Order key of an `f64` bit pattern, as `f32_key`.
pub open spec fn f64_key(b: u64) -> int {
    let mag = (b % 0x8000_0000_0000_0000) as int;
    if mag > 0x7ff0_0000_0000_0000 {
        0x1_0000_0000_0000_0000
    } else if b >= 0x8000_0000_0000_0000 {
        -mag
    } else {
        mag
    }
}

/// Order key of a timestamp: seconds first, then nanoseconds.
pub open spec fn time_key(t: Timestamp) -> int {
    t.secs * 0x1_0000_0000 + t.nanos
}

/// Lexicographic comparison of byte strings, a proper prefix first.
pub open spec fn cmp_bytes(s: Seq<u8>, t: Seq<u8>) -> int
    decreases s.len(),
{
    if s.len() == 0 {
        if t.len() == 0 {
            0
        } else {
            -1
        }
    } else if t.len() == 0 {
        1
    } else if s[0] != t[0] {
        int_cmp(s[0] as int, t[0] as int)
    } else {
        cmp_bytes(s.subrange(1, s.len() as int), t.subrange(1, t.len() as int))
    }
}

impl SonicSerdeObject {
    pub open spec fn spec_tag(&self) -> Tag {
        match self {
            SonicSerdeObject::String(_) => Tag::String,
            SonicSerdeObject::Vec(_) => Tag::Vec,
            SonicSerdeObject::Mapping(_) => Tag::Mapping,
            SonicSerdeObject::Bool(_) => Tag::Bool,
            SonicSerdeObject::SystemTime(_) => Tag::SystemTime,
            SonicSerdeObject::U8(_) => Tag::U8,
            SonicSerdeObject::U16(_) => Tag::U16,
            SonicSerdeObject::U32(_) => Tag::U32,
            SonicSerdeObject::U64(_) => Tag::U64,
            SonicSerdeObject::U128(_) => Tag::U128,
            SonicSerdeObject::I8(_) => Tag::I8,
            SonicSerdeObject::I16(_) => Tag::I16,
            SonicSerdeObject::I32(_) => Tag::I32,
            SonicSerdeObject::I64(_) => Tag::I64,
            SonicSerdeObject::I128(_) => Tag::I128,
            SonicSerdeObject::VecU8(_) => Tag::VecU8,
            SonicSerdeObject::USize(_) => Tag::USize,
            SonicSerdeObject::Option(_) => Tag::Option,
            SonicSerdeObject::F32(_) => Tag::F32,
            SonicSerdeObject::F64(_) => Tag::F64,
        }
    }

    /// The payload of a byte-like leaf (text as its UTF-8 encoding).
    pub open spec fn leaf_bytes(&self) -> Seq<u8> {
        match self {
            SonicSerdeObject::String(s) => encode_utf8(s@),
            SonicSerdeObject::VecU8(v) => v@,
            _ => Seq::empty(),
        }
    }

    /// The payload of a numeric-like leaf as an order key.
    pub open spec fn leaf_key(&self) -> int {
        match self {
            SonicSerdeObject::Bool(b) => if *b { 1 } else { 0 },
            SonicSerdeObject::SystemTime(t) => time_key(*t),
            SonicSerdeObject::U8(x) => *x as int,
            SonicSerdeObject::U16(x) => *x as int,
            SonicSerdeObject::U32(x) => *x as int,
            SonicSerdeObject::U64(x) => *x as int,
            SonicSerdeObject::U128(x) => *x as int,
            SonicSerdeObject::I8(x) => *x as int,
            SonicSerdeObject::I16(x) => *x as int,
            SonicSerdeObject::I32(x) => *x as int,
            SonicSerdeObject::I64(x) => *x as int,
            SonicSerdeObject::I128(x) => *x as int,
            SonicSerdeObject::USize(x) => *x as int,
            SonicSerdeObject::F32(b) => f32_key(*b),
            SonicSerdeObject::F64(b) => f64_key(*b),
            _ => 0,
        }
    }

    /// Well-formedness, at every level: mapping keys strictly increase in the
    /// total order (so no two are equal) and timestamps are well formed.
    pub open spec fn wf(&self) -> bool
        decreases self,
    {
        match self {
            SonicSerdeObject::Vec(x) => forall|i: int| 0 <= i < x@.len() ==> (#[trigger] x@[i]).wf(),
            SonicSerdeObject::Mapping(x) => keys_sorted(x@) && forall|i: int|
                0 <= i < x@.len() ==> (#[trigger] x@[i]).0.wf() && x@[i].1.wf(),
            SonicSerdeObject::Option(x) => match **x {
                Option::Some(v) => v.wf(),
                Option::None => true,
            },
            SonicSerdeObject::SystemTime(t) => t.wf(),
            _ => true,
        }
    }

    pub open spec fn is_byte_like(&self) -> bool {
        self is String || self is VecU8
    }
}

/// The total order over values: -1, 0 or 1 as `a` is below, equal to or
/// above `b`. Tags order by rank; within a tag payloads order structurally.
pub open spec fn cmp_value(a: SonicSerdeObject, b: SonicSerdeObject) -> int
    decreases a,
{
    if a.spec_tag().rank() != b.spec_tag().rank() {
        int_cmp(a.spec_tag().rank(), b.spec_tag().rank())
    } else {
        match a {
            SonicSerdeObject::Vec(x) => match b {
                SonicSerdeObject::Vec(y) => cmp_seq(x@, y@),
                _ => 0,
            },
            SonicSerdeObject::Mapping(x) => match b {
                SonicSerdeObject::Mapping(y) => cmp_pairs(x@, y@),
                _ => 0,
            },
            SonicSerdeObject::Option(x) => match b {
                SonicSerdeObject::Option(y) => match *x {
                    Option::None => if (*y) is None { 0 } else { -1 },
                    Option::Some(xv) => match *y {
                        Option::None => 1,
                        Option::Some(yv) => cmp_value(xv, yv),
                    },
                },
                _ => 0,
            },
            _ => if a.is_byte_like() {
                cmp_bytes(a.leaf_bytes(), b.leaf_bytes())
            } else {
                int_cmp(a.leaf_key(), b.leaf_key())
            },
        }
    }
}

/// Lexicographic comparison of value sequences.
pub open spec fn cmp_seq(s: Seq<SonicSerdeObject>, t: Seq<SonicSerdeObject>) -> int
    decreases s,
{
    if s.len() == 0 {
        if t.len() == 0 {
            0
        } else {
            -1
        }
    } else if t.len() == 0 {
        1
    } else if cmp_value(s[0], t[0]) != 0 {
        cmp_value(s[0], t[0])
    } else {
        cmp_seq(s.subrange(1, s.len() as int), t.subrange(1, t.len() as int))
    }
}

/// Lexicographic comparison of entry sequences, key before value.
pub open spec fn cmp_pairs(
    s: Seq<(SonicSerdeObject, SonicSerdeObject)>,
    t: Seq<(SonicSerdeObject, SonicSerdeObject)>,
) -> int
    decreases s,
{
    if s.len() == 0 {
        if t.len() == 0 {
            0
        } else {
            -1
        }
    } else if t.len() == 0 {
        1
    } else if cmp_value(s[0].0, t[0].0) != 0 {
        cmp_value(s[0].0, t[0].0)
    } else if cmp_value(s[0].1, t[0].1) != 0 {
        cmp_value(s[0].1, t[0].1)
    } else {
        cmp_pairs(s.subrange(1, s.len() as int), t.subrange(1, t.len() as int))
    }
}

} // verus!

verus! {

impl Tag {
    /// The tag's rank, as `rank`.
    pub fn index(&self) -> (r: usize)
        ensures
            r as int == self.rank(),
    {
        match self {
            Tag::String => 0,
            Tag::Vec => 1,
            Tag::Mapping => 2,
            Tag::Bool => 3,
            Tag::SystemTime => 4,
            Tag::U8 => 5,
            Tag::U16 => 6,
            Tag::U32 => 7,
            Tag::U64 => 8,
            Tag::U128 => 9,
            Tag::I8 => 10,
            Tag::I16 => 11,
            Tag::I32 => 12,
            Tag::I64 => 13,
            Tag::I128 => 14,
            Tag::VecU8 => 15,
            Tag::USize => 16,
            Tag::Option => 17,
            Tag::F32 => 18,
            Tag::F64 => 19,
        }
    }

    /// The tag's registry name, as `spec_name`.
    pub fn name(&self) -> (r: String)
        ensures
            r@ == self.spec_name(),
    {
        match self {
            Tag::String => String::from_str("String"),
            Tag::Vec => String::from_str("Vec"),
            Tag::Mapping => String::from_str("Map"),
            Tag::Bool => String::from_str("Bool"),
            Tag::SystemTime => String::from_str("SystemTime"),
            Tag::U8 => String::from_str("U8"),
            Tag::U16 => String::from_str("U16"),
            Tag::U32 => String::from_str("U32"),
            Tag::U64 => String::from_str("U64"),
            Tag::U128 => String::from_str("U128"),
            Tag::I8 => String::from_str("I8"),
            Tag::I16 => String::from_str("I16"),
            Tag::I32 => String::from_str("I32"),
            Tag::I64 => String::from_str("I64"),
            Tag::I128 => String::from_str("I128"),
            Tag::VecU8 => String::from_str("VecU8"),
            Tag::USize => String::from_str("USize"),
            Tag::Option => String::from_str("Option"),
            Tag::F32 => String::from_str("F32"),
            Tag::F64 => String::from_str("F64"),
        }
    }
}

fn cmp_signed(x: i128, y: i128) -> (r: i8)
    ensures
        r as int == int_cmp(x as int, y as int),
{
    if x < y {
        -1
    } else if x > y {
        1
    } else {
        0
    }
}

fn cmp_unsigned(x: u128, y: u128) -> (r: i8)
    ensures
        r as int == int_cmp(x as int, y as int),
{
    if x < y {
        -1
    } else if x > y {
        1
    } else {
        0
    }
}

fn f32_order_key(b: u32) -> (r: i128)
    ensures
        r as int == f32_key(b),
{
    let mag: u32 = b % 0x8000_0000;
    if mag > 0x7f80_0000 {
        0x1_0000_0000
    } else if b >= 0x8000_0000 {
        -(mag as i128)
    } else {
        mag as i128
    }
}

fn f64_order_key(b: u64) -> (r: i128)
    ensures
        r as int == f64_key(b),
{
    let mag: u64 = b % 0x8000_0000_0000_0000;
    if mag > 0x7ff0_0000_0000_0000 {
        0x1_0000_0000_0000_0000
    } else if b >= 0x8000_0000_0000_0000 {
        -(mag as i128)
    } else {
        mag as i128
    }
}

fn cmp_time(x: &Timestamp, y: &Timestamp) -> (r: i8)
    ensures
        r as int == int_cmp(time_key(*x), time_key(*y)),
{
    if x.secs != y.secs {
        cmp_signed(x.secs as i128, y.secs as i128)
    } else {
        cmp_unsigned(x.nanos as u128, y.nanos as u128)
    }
}

/// Lexicographic comparison of two byte slices, as `cmp_bytes`.
fn compare_bytes(s: &[u8], t: &[u8]) -> (r: i8)
    ensures
        r as int == cmp_bytes(s@, t@),
{
    let n: usize = if s.len() < t.len() { s.len() } else { t.len() };
    let mut i: usize = 0;
    assert(s@.subrange(0, s@.len() as int) =~= s@);
    assert(t@.subrange(0, t@.len() as int) =~= t@);
    while i < n
        invariant
            i <= n,
            n <= s@.len(),
            n <= t@.len(),
            n == s@.len() || n == t@.len(),
            cmp_bytes(s@, t@) == cmp_bytes(
                s@.subrange(i as int, s@.len() as int),
                t@.subrange(i as int, t@.len() as int),
            ),
        decreases n - i,
    {
        let ghost ss = s@.subrange(i as int, s@.len() as int);
        let ghost ts = t@.subrange(i as int, t@.len() as int);
        assert(ss.subrange(1, ss.len() as int) =~= s@.subrange(i + 1, s@.len() as int));
        assert(ts.subrange(1, ts.len() as int) =~= t@.subrange(i + 1, t@.len() as int));
        if s[i] != t[i] {
            return cmp_unsigned(s[i] as u128, t[i] as u128);
        }
        i = i + 1;
    }
    if s.len() < t.len() {
        -1
    } else if s.len() > t.len() {
        1
    } else {
        0
    }
}

impl SonicSerdeObject {
    /// The active tag.
    pub fn tag(&self) -> (r: Tag)
        ensures
            r == self.spec_tag(),
    {
        match self {
            SonicSerdeObject::String(_) => Tag::String,
            SonicSerdeObject::Vec(_) => Tag::Vec,
            SonicSerdeObject::Mapping(_) => Tag::Mapping,
            SonicSerdeObject::Bool(_) => Tag::Bool,
            SonicSerdeObject::SystemTime(_) => Tag::SystemTime,
            SonicSerdeObject::U8(_) => Tag::U8,
            SonicSerdeObject::U16(_) => Tag::U16,
            SonicSerdeObject::U32(_) => Tag::U32,
            SonicSerdeObject::U64(_) => Tag::U64,
            SonicSerdeObject::U128(_) => Tag::U128,
            SonicSerdeObject::I8(_) => Tag::I8,
            SonicSerdeObject::I16(_) => Tag::I16,
            SonicSerdeObject::I32(_) => Tag::I32,
            SonicSerdeObject::I64(_) => Tag::I64,
            SonicSerdeObject::I128(_) => Tag::I128,
            SonicSerdeObject::VecU8(_) => Tag::VecU8,
            SonicSerdeObject::USize(_) => Tag::USize,
            SonicSerdeObject::Option(_) => Tag::Option,
            SonicSerdeObject::F32(_) => Tag::F32,
            SonicSerdeObject::F64(_) => Tag::F64,
        }
    }

    /// Three-way comparison in the total order: -1, 0 or 1.
    pub fn compare(&self, other: &SonicSerdeObject) -> (r: i8)
        ensures
            r as int == cmp_value(*self, *other),
        decreases self,
    {
        let ra = self.tag().index();
        let rb = other.tag().index();
        if ra != rb {
            return if ra < rb { -1 } else { 1 };
        }
        match self {
            SonicSerdeObject::String(x) => match other {
                SonicSerdeObject::String(y) => compare_bytes(x.as_str().as_bytes(), y.as_str().as_bytes()),
                _ => 0,
            },
            SonicSerdeObject::VecU8(x) => match other {
                SonicSerdeObject::VecU8(y) => compare_bytes(x.as_slice(), y.as_slice()),
                _ => 0,
            },
            SonicSerdeObject::Vec(x) => match other {
                SonicSerdeObject::Vec(y) => {
                    let n: usize = if x.len() < y.len() { x.len() } else { y.len() };
                    let mut i: usize = 0;
                    assert(x@.subrange(0, x@.len() as int) =~= x@);
                    assert(y@.subrange(0, y@.len() as int) =~= y@);
                    while i < n
                        invariant
                            i <= n,
                            n <= x@.len(),
                            n <= y@.len(),
                            n == x@.len() || n == y@.len(),
                            *self == SonicSerdeObject::Vec(*x),
                            cmp_value(*self, *other) == cmp_seq(x@, y@),
                            cmp_seq(x@, y@) == cmp_seq(
                                x@.subrange(i as int, x@.len() as int),
                                y@.subrange(i as int, y@.len() as int),
                            ),
                        decreases n - i,
                    {
                        let ghost xs = x@.subrange(i as int, x@.len() as int);
                        let ghost ys = y@.subrange(i as int, y@.len() as int);
                        assert(xs.subrange(1, xs.len() as int) =~= x@.subrange(i + 1, x@.len() as int));
                        assert(ys.subrange(1, ys.len() as int) =~= y@.subrange(i + 1, y@.len() as int));
                        proof {
                            assert(decreases_to!(*self => self->Vec_0));
                            assert(decreases_to!(*x => (*x)[i as int]));
                            assert(decreases_to!(*self => (*x)[i as int]));
                        }
                        let c = x[i].compare(&y[i]);
                        if c != 0 {
                            return c;
                        }
                        i = i + 1;
                    }
                    if x.len() < y.len() {
                        -1
                    } else if x.len() > y.len() {
                        1
                    } else {
                        0
                    }
                },
                _ => 0,
            },
            SonicSerdeObject::Mapping(x) => match other {
                SonicSerdeObject::Mapping(y) => {
                    let n: usize = if x.len() < y.len() { x.len() } else { y.len() };
                    let mut i: usize = 0;
                    assert(x@.subrange(0, x@.len() as int) =~= x@);
                    assert(y@.subrange(0, y@.len() as int) =~= y@);
                    while i < n
                        invariant
                            i <= n,
                            n <= x@.len(),
                            n <= y@.len(),
                            n == x@.len() || n == y@.len(),
                            *self == SonicSerdeObject::Mapping(*x),
                            cmp_value(*self, *other) == cmp_pairs(x@, y@),
                            cmp_pairs(x@, y@) == cmp_pairs(
                                x@.subrange(i as int, x@.len() as int),
                                y@.subrange(i as int, y@.len() as int),
                            ),
                        decreases n - i,
                    {
                        let ghost xs = x@.subrange(i as int, x@.len() as int);
                        let ghost ys = y@.subrange(i as int, y@.len() as int);
                        assert(xs.subrange(1, xs.len() as int) =~= x@.subrange(i + 1, x@.len() as int));
                        assert(ys.subrange(1, ys.len() as int) =~= y@.subrange(i + 1, y@.len() as int));
                        proof {
                            assert(decreases_to!(*self => self->Mapping_0));
                            assert(decreases_to!(*x => (*x)[i as int]));
                            assert(decreases_to!(*self => (*x)[i as int]));
                            assert(decreases_to!((*x)[i as int] => (*x)[i as int].0));
                            assert(decreases_to!((*x)[i as int] => (*x)[i as int].1));
                            assert(decreases_to!(*self => (*x)[i as int].0));
                            assert(decreases_to!(*self => (*x)[i as int].1));
                        }
                        let ck = x[i].0.compare(&y[i].0);
                        if ck != 0 {
                            return ck;
                        }
                        let cv = x[i].1.compare(&y[i].1);
                        if cv != 0 {
                            return cv;
                        }
                        i = i + 1;
                    }
                    if x.len() < y.len() {
                        -1
                    } else if x.len() > y.len() {
                        1
                    } else {
                        0
                    }
                },
                _ => 0,
            },
            SonicSerdeObject::Option(x) => match other {
                SonicSerdeObject::Option(y) => match &**x {
                    Option::None => match &**y {
                        Option::None => 0,
                        Option::Some(_) => -1,
                    },
                    Option::Some(xv) => match &**y {
                        Option::None => 1,
                        Option::Some(yv) => xv.compare(yv),
                    },
                },
                _ => 0,
            },
            SonicSerdeObject::Bool(x) => match other {
                SonicSerdeObject::Bool(y) => cmp_unsigned(if *x { 1 } else { 0 }, if *y { 1 } else { 0 }),
                _ => 0,
            },
            SonicSerdeObject::SystemTime(x) => match other {
                SonicSerdeObject::SystemTime(y) => cmp_time(x, y),
                _ => 0,
            },
            SonicSerdeObject::U8(x) => match other {
                SonicSerdeObject::U8(y) => cmp_unsigned(*x as u128, *y as u128),
                _ => 0,
            },
            SonicSerdeObject::U16(x) => match other {
                SonicSerdeObject::U16(y) => cmp_unsigned(*x as u128, *y as u128),
                _ => 0,
            },
            SonicSerdeObject::U32(x) => match other {
                SonicSerdeObject::U32(y) => cmp_unsigned(*x as u128, *y as u128),
                _ => 0,
            },
            SonicSerdeObject::U64(x) => match other {
                SonicSerdeObject::U64(y) => cmp_unsigned(*x as u128, *y as u128),
                _ => 0,
            },
            SonicSerdeObject::U128(x) => match other {
                SonicSerdeObject::U128(y) => cmp_unsigned(*x as u128, *y as u128),
                _ => 0,
            },
            SonicSerdeObject::USize(x) => match other {
                SonicSerdeObject::USize(y) => cmp_unsigned(*x as u128, *y as u128),
                _ => 0,
            },
            SonicSerdeObject::I8(x) => match other {
                SonicSerdeObject::I8(y) => cmp_signed(*x as i128, *y as i128),
                _ => 0,
            },
            SonicSerdeObject::I16(x) => match other {
                SonicSerdeObject::I16(y) => cmp_signed(*x as i128, *y as i128),
                _ => 0,
            },
            SonicSerdeObject::I32(x) => match other {
                SonicSerdeObject::I32(y) => cmp_signed(*x as i128, *y as i128),
                _ => 0,
            },
            SonicSerdeObject::I64(x) => match other {
                SonicSerdeObject::I64(y) => cmp_signed(*x as i128, *y as i128),
                _ => 0,
            },
            SonicSerdeObject::I128(x) => match other {
                SonicSerdeObject::I128(y) => cmp_signed(*x as i128, *y as i128),
                _ => 0,
            },
            SonicSerdeObject::F32(x) => match other {
                SonicSerdeObject::F32(y) => cmp_signed(f32_order_key(*x), f32_order_key(*y)),
                _ => 0,
            },
            SonicSerdeObject::F64(x) => match other {
                SonicSerdeObject::F64(y) => cmp_signed(f64_order_key(*x), f64_order_key(*y)),
                _ => 0,
            },
        }
    }
}

} // verus!

verus! {

impl PartialEq for SonicSerdeObject {
    fn eq(&self, other: &SonicSerdeObject) -> (r: bool) {
        self.compare(other) == 0
    }
}

impl vstd::std_specs::cmp::PartialEqSpecImpl for SonicSerdeObject {
    open spec fn obeys_eq_spec() -> bool {
        true
    }

    open spec fn eq_spec(&self, other: &SonicSerdeObject) -> bool {
        cmp_value(*self, *other) == 0
    }
}

impl Eq for SonicSerdeObject {
}

/// The total order as a std `Ordering`.
pub open spec fn order_of(c: int) -> core::cmp::Ordering {
    if c < 0 {
        core::cmp::Ordering::Less
    } else if c > 0 {
        core::cmp::Ordering::Greater
    } else {
        core::cmp::Ordering::Equal
    }
}

impl PartialOrd for SonicSerdeObject {
    fn partial_cmp(&self, other: &SonicSerdeObject) -> (r: Option<core::cmp::Ordering>) {
        let c = self.compare(other);
        if c < 0 {
            Some(core::cmp::Ordering::Less)
        } else if c > 0 {
            Some(core::cmp::Ordering::Greater)
        } else {
            Some(core::cmp::Ordering::Equal)
        }
    }
}

impl vstd::std_specs::cmp::PartialOrdSpecImpl for SonicSerdeObject {
    open spec fn obeys_partial_cmp_spec() -> bool {
        true
    }

    open spec fn partial_cmp_spec(&self, other: &SonicSerdeObject) -> Option<core::cmp::Ordering> {
        Some(order_of(cmp_value(*self, *other)))
    }
}

impl Clone for SonicSerdeObject {
    fn clone(&self) -> (r: SonicSerdeObject)
        ensures
            cmp_value(r, *self) == 0,
    {
        self.deep_clone()
    }
}

/// Two value sequences that agree element by element compare equal.
proof fn lemma_seq_pointwise(s: Seq<SonicSerdeObject>, t: Seq<SonicSerdeObject>)
    requires
        s.len() == t.len(),
        forall|j: int| 0 <= j < s.len() ==> cmp_value(#[trigger] s[j], t[j]) == 0,
    ensures
        cmp_seq(s, t) == 0,
    decreases s.len(),
{
    if s.len() > 0 {
        let s1 = s.subrange(1, s.len() as int);
        let t1 = t.subrange(1, t.len() as int);
        assert forall|j: int| 0 <= j < s1.len() implies cmp_value(#[trigger] s1[j], t1[j]) == 0 by {
            assert(s1[j] == s[j + 1]);
        }
        lemma_seq_pointwise(s1, t1);
    }
}

/// Two entry sequences that agree entry by entry compare equal.
proof fn lemma_pairs_pointwise(
    s: Seq<(SonicSerdeObject, SonicSerdeObject)>,
    t: Seq<(SonicSerdeObject, SonicSerdeObject)>,
)
    requires
        s.len() == t.len(),
        forall|j: int|
            0 <= j < s.len() ==> cmp_value(#[trigger] s[j].0, t[j].0) == 0 && cmp_value(
                s[j].1,
                t[j].1,
            ) == 0,
    ensures
        cmp_pairs(s, t) == 0,
    decreases s.len(),
{
    if s.len() > 0 {
        let s1 = s.subrange(1, s.len() as int);
        let t1 = t.subrange(1, t.len() as int);
        assert forall|j: int| 0 <= j < s1.len() implies cmp_value(#[trigger] s1[j].0, t1[j].0) == 0
            && cmp_value(s1[j].1, t1[j].1) == 0 by {
            assert(s1[j] == s[j + 1]);
        }
        lemma_pairs_pointwise(s1, t1);
    }
}

/// Entries whose keys equal those of sorted entries, position by position,
/// are sorted too.
proof fn lemma_keys_sorted_equal(
    s: Seq<(SonicSerdeObject, SonicSerdeObject)>,
    t: Seq<(SonicSerdeObject, SonicSerdeObject)>,
)
    requires
        keys_sorted(s),
        s.len() == t.len(),
        forall|j: int| 0 <= j < s.len() ==> cmp_value(#[trigger] t[j].0, s[j].0) == 0,
    ensures
        keys_sorted(t),
{
    assert forall|a: int, b: int| 0 <= a < b < t.len() implies cmp_value(#[trigger] t[a].0, #[trigger] t[b].0) < 0 by {
        assert(cmp_value(s[a].0, s[b].0) < 0);
        assert(cmp_value(t[b].0, s[b].0) == 0);
        lemma_cmp_antisym(t[b].0, s[b].0);
        lemma_cmp_trans(t[a].0, s[a].0, s[b].0);
        lemma_cmp_trans(t[a].0, s[b].0, t[b].0);
    }
}

fn copy_bytes(v: &Vec<u8>) -> (r: Vec<u8>)
    ensures
        r@ == v@,
{
    let mut out: Vec<u8> = Vec::new();
    let mut i: usize = 0;
    while i < v.len()
        invariant
            i <= v@.len(),
            out@ == v@.subrange(0, i as int),
        decreases v@.len() - i,
    {
        out.push(v[i]);
        i = i + 1;
        assert(out@ =~= v@.subrange(0, i as int));
    }
    assert(out@ =~= v@);
    out
}

impl SonicSerdeObject {
    /// A copy of the value, owning copies of all its children. Leaves are
    /// copied exactly; every copy equals `self` in the total order.
    pub fn deep_clone(&self) -> (r: SonicSerdeObject)
        ensures
            cmp_value(r, *self) == 0,
            r.spec_tag() == self.spec_tag(),
            !(self is Vec || self is Mapping || self is Option || self is VecU8) ==> r == *self,
            self is VecU8 ==> r is VecU8 && r->VecU8_0@ == self->VecU8_0@,
            self.wf() ==> r.wf(),
        decreases self,
    {
        match self {
            SonicSerdeObject::Vec(x) => {
                let mut out: Vec<SonicSerdeObject> = Vec::new();
                let mut i: usize = 0;
                while i < x.len()
                    invariant
                        *self == SonicSerdeObject::Vec(*x),
                        i <= x@.len(),
                        out@.len() == i,
                        forall|j: int| 0 <= j < i ==> cmp_value(#[trigger] out@[j], x@[j]) == 0,
                        self.wf() ==> forall|j: int| 0 <= j < i ==> (#[trigger] out@[j]).wf(),
                    decreases x@.len() - i,
                {
                    proof {
                        assert(decreases_to!(*self => self->Vec_0));
                        assert(decreases_to!(*x => (*x)[i as int]));
                        assert(decreases_to!(*self => (*x)[i as int]));
                    }
                    let c = x[i].deep_clone();
                    out.push(c);
                    i = i + 1;
                }
                proof {
                    lemma_seq_pointwise(out@, x@);
                }
                SonicSerdeObject::Vec(out)
            },
            SonicSerdeObject::Mapping(x) => {
                let mut out: Vec<(SonicSerdeObject, SonicSerdeObject)> = Vec::new();
                let mut i: usize = 0;
                while i < x.len()
                    invariant
                        *self == SonicSerdeObject::Mapping(*x),
                        i <= x@.len(),
                        out@.len() == i,
                        forall|j: int|
                            0 <= j < i ==> cmp_value(#[trigger] out@[j].0, x@[j].0) == 0
                                && cmp_value(out@[j].1, x@[j].1) == 0,
                        self.wf() ==> forall|j: int|
                            0 <= j < i ==> (#[trigger] out@[j]).0.wf() && out@[j].1.wf(),
                    decreases x@.len() - i,
                {
                    proof {
                        assert(decreases_to!(*self => self->Mapping_0));
                        assert(decreases_to!(*x => (*x)[i as int]));
                        assert(decreases_to!(*self => (*x)[i as int]));
                        assert(decreases_to!((*x)[i as int] => (*x)[i as int].0));
                        assert(decreases_to!((*x)[i as int] => (*x)[i as int].1));
                        assert(decreases_to!(*self => (*x)[i as int].0));
                        assert(decreases_to!(*self => (*x)[i as int].1));
                    }
                    let k = x[i].0.deep_clone();
                    let v = x[i].1.deep_clone();
                    out.push((k, v));
                    i = i + 1;
                }
                proof {
                    lemma_pairs_pointwise(out@, x@);
                    if self.wf() {
                        lemma_keys_sorted_equal(x@, out@);
                    }
                }
                SonicSerdeObject::Mapping(out)
            },
            SonicSerdeObject::Option(x) => match &**x {
                Option::None => SonicSerdeObject::Option(Box::new(None)),
                Option::Some(v) => SonicSerdeObject::Option(Box::new(Some(v.deep_clone()))),
            },
            SonicSerdeObject::VecU8(x) => {
                let r = SonicSerdeObject::VecU8(copy_bytes(x));
                proof {
                    lemma_cmp_refl(*self);
                }
                r
            },
            SonicSerdeObject::String(x) => {
                proof {
                    lemma_cmp_refl(*self);
                }
                SonicSerdeObject::String(x.clone())
            },
            SonicSerdeObject::Bool(x) => {
                proof {
                    lemma_cmp_refl(*self);
                }
                SonicSerdeObject::Bool(*x)
            },
            SonicSerdeObject::SystemTime(x) => {
                proof {
                    lemma_cmp_refl(*self);
                }
                SonicSerdeObject::SystemTime(*x)
            },
            SonicSerdeObject::U8(x) => {
                proof {
                    lemma_cmp_refl(*self);
                }
                SonicSerdeObject::U8(*x)
            },
            SonicSerdeObject::U16(x) => {
                proof {
                    lemma_cmp_refl(*self);
                }
                SonicSerdeObject::U16(*x)
            },
            SonicSerdeObject::U32(x) => {
                proof {
                    lemma_cmp_refl(*self);
                }
                SonicSerdeObject::U32(*x)
            },
            SonicSerdeObject::U64(x) => {
                proof {
                    lemma_cmp_refl(*self);
                }
                SonicSerdeObject::U64(*x)
            },
            SonicSerdeObject::U128(x) => {
                proof {
                    lemma_cmp_refl(*self);
                }
                SonicSerdeObject::U128(*x)
            },
            SonicSerdeObject::I8(x) => {
                proof {
                    lemma_cmp_refl(*self);
                }
                SonicSerdeObject::I8(*x)
            },
            SonicSerdeObject::I16(x) => {
                proof {
                    lemma_cmp_refl(*self);
                }
                SonicSerdeObject::I16(*x)
            },
            SonicSerdeObject::I32(x) => {
                proof {
                    lemma_cmp_refl(*self);
                }
                SonicSerdeObject::I32(*x)
            },
            SonicSerdeObject::I64(x) => {
                proof {
                    lemma_cmp_refl(*self);
                }
                SonicSerdeObject::I64(*x)
            },
            SonicSerdeObject::I128(x) => {
                proof {
                    lemma_cmp_refl(*self);
                }
                SonicSerdeObject::I128(*x)
            },
            SonicSerdeObject::USize(x) => {
                proof {
                    lemma_cmp_refl(*self);
                }
                SonicSerdeObject::USize(*x)
            },
            SonicSerdeObject::F32(x) => {
                proof {
                    lemma_cmp_refl(*self);
                }
                SonicSerdeObject::F32(*x)
            },
            SonicSerdeObject::F64(x) => {
                proof {
                    lemma_cmp_refl(*self);
                }
                SonicSerdeObject::F64(*x)
            },
        }
    }

    /// Whether the active tag is `String`.
    pub fn is_string(&self) -> (r: bool)
        ensures
            r == (self.spec_tag() == Tag::String),
    {
        match self {
            SonicSerdeObject::String(_) => true,
            _ => false,
        }
    }

    /// Whether the active tag is `Vec`.
    pub fn is_vec(&self) -> (r: bool)
        ensures
            r == (self.spec_tag() == Tag::Vec),
    {
        match self {
            SonicSerdeObject::Vec(_) => true,
            _ => false,
        }
    }

    /// Whether the active tag is `Map`.
    pub fn is_map(&self) -> (r: bool)
        ensures
            r == (self.spec_tag() == Tag::Mapping),
    {
        match self {
            SonicSerdeObject::Mapping(_) => true,
            _ => false,
        }
    }

    /// Whether the active tag is `Bool`.
    pub fn is_bool(&self) -> (r: bool)
        ensures
            r == (self.spec_tag() == Tag::Bool),
    {
        match self {
            SonicSerdeObject::Bool(_) => true,
            _ => false,
        }
    }

    /// Whether the active tag is `SystemTime`.
    pub fn is_systemtime(&self) -> (r: bool)
        ensures
            r == (self.spec_tag() == Tag::SystemTime),
    {
        match self {
            SonicSerdeObject::SystemTime(_) => true,
            _ => false,
        }
    }

    /// Whether the active tag is `U8`.
    pub fn is_u8(&self) -> (r: bool)
        ensures
            r == (self.spec_tag() == Tag::U8),
    {
        match self {
            SonicSerdeObject::U8(_) => true,
            _ => false,
        }
    }

    /// Whether the active tag is `U16`.
    pub fn is_u16(&self) -> (r: bool)
        ensures
            r == (self.spec_tag() == Tag::U16),
    {
        match self {
            SonicSerdeObject::U16(_) => true,
            _ => false,
        }
    }

    /// Whether the active tag is `U32`.
    pub fn is_u32(&self) -> (r: bool)
        ensures
            r == (self.spec_tag() == Tag::U32),
    {
        match self {
            SonicSerdeObject::U32(_) => true,
            _ => false,
        }
    }

    /// Whether the active tag is `U64`.
    pub fn is_u64(&self) -> (r: bool)
        ensures
            r == (self.spec_tag() == Tag::U64),
    {
        match self {
            SonicSerdeObject::U64(_) => true,
            _ => false,
        }
    }

    /// Whether the active tag is `U128`.
    pub fn is_u128(&self) -> (r: bool)
        ensures
            r == (self.spec_tag() == Tag::U128),
    {
        match self {
            SonicSerdeObject::U128(_) => true,
            _ => false,
        }
    }

    /// Whether the active tag is `I8`.
    pub fn is_i8(&self) -> (r: bool)
        ensures
            r == (self.spec_tag() == Tag::I8),
    {
        match self {
            SonicSerdeObject::I8(_) => true,
            _ => false,
        }
    }

    /// Whether the active tag is `I16`.
    pub fn is_i16(&self) -> (r: bool)
        ensures
            r == (self.spec_tag() == Tag::I16),
    {
        match self {
            SonicSerdeObject::I16(_) => true,
            _ => false,
        }
    }

    /// Whether the active tag is `I32`.
    pub fn is_i32(&self) -> (r: bool)
        ensures
            r == (self.spec_tag() == Tag::I32),
    {
        match self {
            SonicSerdeObject::I32(_) => true,
            _ => false,
        }
    }

    /// Whether the active tag is `I64`.
    pub fn is_i64(&self) -> (r: bool)
        ensures
            r == (self.spec_tag() == Tag::I64),
    {
        match self {
            SonicSerdeObject::I64(_) => true,
            _ => false,
        }
    }

    /// Whether the active tag is `I128`.
    pub fn is_i128(&self) -> (r: bool)
        ensures
            r == (self.spec_tag() == Tag::I128),
    {
        match self {
            SonicSerdeObject::I128(_) => true,
            _ => false,
        }
    }

    /// Whether the active tag is `VecU8`.
    pub fn is_vecu8(&self) -> (r: bool)
        ensures
            r == (self.spec_tag() == Tag::VecU8),
    {
        match self {
            SonicSerdeObject::VecU8(_) => true,
            _ => false,
        }
    }

    /// Whether the active tag is `USize`.
    pub fn is_usize(&self) -> (r: bool)
        ensures
            r == (self.spec_tag() == Tag::USize),
    {
        match self {
            SonicSerdeObject::USize(_) => true,
            _ => false,
        }
    }

    /// Whether the active tag is `Option`.
    pub fn is_option(&self) -> (r: bool)
        ensures
            r == (self.spec_tag() == Tag::Option),
    {
        match self {
            SonicSerdeObject::Option(_) => true,
            _ => false,
        }
    }

    /// Whether the active tag is `F32`.
    pub fn is_f32(&self) -> (r: bool)
        ensures
            r == (self.spec_tag() == Tag::F32),
    {
        match self {
            SonicSerdeObject::F32(_) => true,
            _ => false,
        }
    }

    /// Whether the active tag is `F64`.
    pub fn is_f64(&self) -> (r: bool)
        ensures
            r == (self.spec_tag() == Tag::F64),
    {
        match self {
            SonicSerdeObject::F64(_) => true,
            _ => false,
        }
    }

    /// A borrowed view of the text held by a `String` value; any other
    /// value gives `NotA("str")`.
    pub fn as_str(&self) -> (r: Result<&str, SonicSerdeObjectError>)
        ensures
            self is String ==> r is Ok && r->Ok_0@ == self->String_0@,
            !(self is String) ==> r is Err && r->Err_0->NotA_0@ == "str"@,
    {
        match self {
            SonicSerdeObject::String(x) => Ok(x.as_str()),
            _ => Err(SonicSerdeObjectError::NotA(String::from_str("str"))),
        }
    }

    /// A copy of the text of a `String` value.
    pub fn as_string(&self) -> (r: Result<String, SonicSerdeObjectError>)
        ensures
            self is String ==> r is Ok && r->Ok_0@ == self->String_0@,
            !(self is String) ==> r is Err && r->Err_0->NotA_0@ == Tag::String.spec_name(),
    {
        match self {
            SonicSerdeObject::String(x) => Ok(x.clone()),
            _ => Err(SonicSerdeObjectError::NotA(Tag::String.name())),
        }
    }

    /// A copy of the items of a `Vec` value, equal item by item.
    pub fn as_vec(&self) -> (r: Result<Vec<SonicSerdeObject>, SonicSerdeObjectError>)
        ensures
            self is Vec ==> r is Ok && cmp_seq(r->Ok_0@, self->Vec_0@) == 0,
            self is Vec && self.wf() ==> forall|i: int|
                0 <= i < r->Ok_0@.len() ==> (#[trigger] r->Ok_0@[i]).wf(),
            !(self is Vec) ==> r is Err && r->Err_0->NotA_0@ == Tag::Vec.spec_name(),
    {
        match self.deep_clone() {
            SonicSerdeObject::Vec(v) => Ok(v),
            _ => Err(SonicSerdeObjectError::NotA(Tag::Vec.name())),
        }
    }

    /// A copy of the entries of a `Map` value, in key order, equal entry by
    /// entry.
    pub fn as_map(&self) -> (r: Result<Vec<(SonicSerdeObject, SonicSerdeObject)>, SonicSerdeObjectError>)
        ensures
            self is Mapping ==> r is Ok && cmp_pairs(r->Ok_0@, self->Mapping_0@) == 0,
            self is Mapping && self.wf() ==> keys_sorted(r->Ok_0@) && forall|i: int|
                0 <= i < r->Ok_0@.len() ==> (#[trigger] r->Ok_0@[i]).0.wf() && r->Ok_0@[i].1.wf(),
            !(self is Mapping) ==> r is Err && r->Err_0->NotA_0@ == Tag::Mapping.spec_name(),
    {
        match self.deep_clone() {
            SonicSerdeObject::Mapping(v) => Ok(v),
            _ => Err(SonicSerdeObjectError::NotA(Tag::Mapping.name())),
        }
    }

    /// The payload of a `Bool` value.
    pub fn as_bool(&self) -> (r: Result<bool, SonicSerdeObjectError>)
        ensures
            self is Bool ==> r == Ok::<bool, SonicSerdeObjectError>(self->Bool_0),
            !(self is Bool) ==> r is Err && r->Err_0->NotA_0@ == Tag::Bool.spec_name(),
    {
        match self {
            SonicSerdeObject::Bool(x) => Ok(*x),
            _ => Err(SonicSerdeObjectError::NotA(Tag::Bool.name())),
        }
    }

    /// The payload of a `SystemTime` value.
    pub fn as_systemtime(&self) -> (r: Result<Timestamp, SonicSerdeObjectError>)
        ensures
            self is SystemTime ==> r == Ok::<Timestamp, SonicSerdeObjectError>(self->SystemTime_0),
            !(self is SystemTime) ==> r is Err && r->Err_0->NotA_0@ == Tag::SystemTime.spec_name(),
    {
        match self {
            SonicSerdeObject::SystemTime(x) => Ok(*x),
            _ => Err(SonicSerdeObjectError::NotA(Tag::SystemTime.name())),
        }
    }

    /// The payload of a `U8` value.
    pub fn as_u8(&self) -> (r: Result<u8, SonicSerdeObjectError>)
        ensures
            self is U8 ==> r == Ok::<u8, SonicSerdeObjectError>(self->U8_0),
            !(self is U8) ==> r is Err && r->Err_0->NotA_0@ == Tag::U8.spec_name(),
    {
        match self {
            SonicSerdeObject::U8(x) => Ok(*x),
            _ => Err(SonicSerdeObjectError::NotA(Tag::U8.name())),
        }
    }

    /// The payload of a `U16` value.
    pub fn as_u16(&self) -> (r: Result<u16, SonicSerdeObjectError>)
        ensures
            self is U16 ==> r == Ok::<u16, SonicSerdeObjectError>(self->U16_0),
            !(self is U16) ==> r is Err && r->Err_0->NotA_0@ == Tag::U16.spec_name(),
    {
        match self {
            SonicSerdeObject::U16(x) => Ok(*x),
            _ => Err(SonicSerdeObjectError::NotA(Tag::U16.name())),
        }
    }

    /// The payload of a `U32` value.
    pub fn as_u32(&self) -> (r: Result<u32, SonicSerdeObjectError>)
        ensures
            self is U32 ==> r == Ok::<u32, SonicSerdeObjectError>(self->U32_0),
            !(self is U32) ==> r is Err && r->Err_0->NotA_0@ == Tag::U32.spec_name(),
    {
        match self {
            SonicSerdeObject::U32(x) => Ok(*x),
            _ => Err(SonicSerdeObjectError::NotA(Tag::U32.name())),
        }
    }

    /// The payload of a `U64` value.
    pub fn as_u64(&self) -> (r: Result<u64, SonicSerdeObjectError>)
        ensures
            self is U64 ==> r == Ok::<u64, SonicSerdeObjectError>(self->U64_0),
            !(self is U64) ==> r is Err && r->Err_0->NotA_0@ == Tag::U64.spec_name(),
    {
        match self {
            SonicSerdeObject::U64(x) => Ok(*x),
            _ => Err(SonicSerdeObjectError::NotA(Tag::U64.name())),
        }
    }

    /// The payload of a `U128` value.
    pub fn as_u128(&self) -> (r: Result<u128, SonicSerdeObjectError>)
        ensures
            self is U128 ==> r == Ok::<u128, SonicSerdeObjectError>(self->U128_0),
            !(self is U128) ==> r is Err && r->Err_0->NotA_0@ == Tag::U128.spec_name(),
    {
        match self {
            SonicSerdeObject::U128(x) => Ok(*x),
            _ => Err(SonicSerdeObjectError::NotA(Tag::U128.name())),
        }
    }

    /// The payload of a `I8` value.
    pub fn as_i8(&self) -> (r: Result<i8, SonicSerdeObjectError>)
        ensures
            self is I8 ==> r == Ok::<i8, SonicSerdeObjectError>(self->I8_0),
            !(self is I8) ==> r is Err && r->Err_0->NotA_0@ == Tag::I8.spec_name(),
    {
        match self {
            SonicSerdeObject::I8(x) => Ok(*x),
            _ => Err(SonicSerdeObjectError::NotA(Tag::I8.name())),
        }
    }

    /// The payload of a `I16` value.
    pub fn as_i16(&self) -> (r: Result<i16, SonicSerdeObjectError>)
        ensures
            self is I16 ==> r == Ok::<i16, SonicSerdeObjectError>(self->I16_0),
            !(self is I16) ==> r is Err && r->Err_0->NotA_0@ == Tag::I16.spec_name(),
    {
        match self {
            SonicSerdeObject::I16(x) => Ok(*x),
            _ => Err(SonicSerdeObjectError::NotA(Tag::I16.name())),
        }
    }

    /// The payload of a `I32` value.
    pub fn as_i32(&self) -> (r: Result<i32, SonicSerdeObjectError>)
        ensures
            self is I32 ==> r == Ok::<i32, SonicSerdeObjectError>(self->I32_0),
            !(self is I32) ==> r is Err && r->Err_0->NotA_0@ == Tag::I32.spec_name(),
    {
        match self {
            SonicSerdeObject::I32(x) => Ok(*x),
            _ => Err(SonicSerdeObjectError::NotA(Tag::I32.name())),
        }
    }

    /// The payload of a `I64` value.
    pub fn as_i64(&self) -> (r: Result<i64, SonicSerdeObjectError>)
        ensures
            self is I64 ==> r == Ok::<i64, SonicSerdeObjectError>(self->I64_0),
            !(self is I64) ==> r is Err && r->Err_0->NotA_0@ == Tag::I64.spec_name(),
    {
        match self {
            SonicSerdeObject::I64(x) => Ok(*x),
            _ => Err(SonicSerdeObjectError::NotA(Tag::I64.name())),
        }
    }

    /// The payload of a `I128` value.
    pub fn as_i128(&self) -> (r: Result<i128, SonicSerdeObjectError>)
        ensures
            self is I128 ==> r == Ok::<i128, SonicSerdeObjectError>(self->I128_0),
            !(self is I128) ==> r is Err && r->Err_0->NotA_0@ == Tag::I128.spec_name(),
    {
        match self {
            SonicSerdeObject::I128(x) => Ok(*x),
            _ => Err(SonicSerdeObjectError::NotA(Tag::I128.name())),
        }
    }

    /// A copy of the bytes of a `VecU8` value.
    pub fn as_vecu8(&self) -> (r: Result<Vec<u8>, SonicSerdeObjectError>)
        ensures
            self is VecU8 ==> r is Ok && r->Ok_0@ == self->VecU8_0@,
            !(self is VecU8) ==> r is Err && r->Err_0->NotA_0@ == Tag::VecU8.spec_name(),
    {
        match self {
            SonicSerdeObject::VecU8(x) => Ok(copy_bytes(x)),
            _ => Err(SonicSerdeObjectError::NotA(Tag::VecU8.name())),
        }
    }

    /// The payload of a `USize` value.
    pub fn as_usize(&self) -> (r: Result<usize, SonicSerdeObjectError>)
        ensures
            self is USize ==> r == Ok::<usize, SonicSerdeObjectError>(self->USize_0),
            !(self is USize) ==> r is Err && r->Err_0->NotA_0@ == Tag::USize.spec_name(),
    {
        match self {
            SonicSerdeObject::USize(x) => Ok(*x),
            _ => Err(SonicSerdeObjectError::NotA(Tag::USize.name())),
        }
    }

    /// A copy of the optional value held by an `Option` value.
    pub fn as_option(&self) -> (r: Result<Option<SonicSerdeObject>, SonicSerdeObjectError>)
        ensures
            self is Option ==> r is Ok && (r->Ok_0 is None <==> (*self->Option_0) is None),
            self is Option && (*self->Option_0) is Some ==> r is Ok && r->Ok_0 is Some
                && cmp_value(r->Ok_0->Some_0, (*self->Option_0)->Some_0) == 0,
            self is Option && self.wf() && r is Ok && r->Ok_0 is Some ==> r->Ok_0->Some_0.wf(),
            !(self is Option) ==> r is Err && r->Err_0->NotA_0@ == Tag::Option.spec_name(),
    {
        match self {
            SonicSerdeObject::Option(x) => match &**x {
                Option::None => Ok(None),
                Option::Some(v) => Ok(Some(v.deep_clone())),
            },
            _ => Err(SonicSerdeObjectError::NotA(Tag::Option.name())),
        }
    }

    /// The payload of a `F32` value.
    /// The value is handed back as its IEEE-754 bit pattern.
    pub fn as_f32(&self) -> (r: Result<u32, SonicSerdeObjectError>)
        ensures
            self is F32 ==> r == Ok::<u32, SonicSerdeObjectError>(self->F32_0),
            !(self is F32) ==> r is Err && r->Err_0->NotA_0@ == Tag::F32.spec_name(),
    {
        match self {
            SonicSerdeObject::F32(x) => Ok(*x),
            _ => Err(SonicSerdeObjectError::NotA(Tag::F32.name())),
        }
    }

    /// The payload of a `F64` value.
    /// The value is handed back as its IEEE-754 bit pattern.
    pub fn as_f64(&self) -> (r: Result<u64, SonicSerdeObjectError>)
        ensures
            self is F64 ==> r == Ok::<u64, SonicSerdeObjectError>(self->F64_0),
            !(self is F64) ==> r is Err && r->Err_0->NotA_0@ == Tag::F64.spec_name(),
    {
        match self {
            SonicSerdeObject::F64(x) => Ok(*x),
            _ => Err(SonicSerdeObjectError::NotA(Tag::F64.name())),
        }
    }

}

} // verus!
