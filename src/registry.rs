use vstd::prelude::*;
use crate::datatypes::{DataType, DataTypeView, default_descriptor};
use crate::value::Tag;

verus! {

/// The descriptor of each tag.
pub open spec fn registry_entry(t: Tag) -> DataTypeView {
    match t {
        Tag::String => default_descriptor(Tag::String.spec_name(), "String"@),
        Tag::Vec => DataTypeView { exclude_from_froms: true, can_ref: false, ..default_descriptor(Tag::Vec.spec_name(), "Vec<SonicSerdeObject>"@) },
        Tag::Mapping => DataTypeView { exclude_from_froms: true, can_ref: false, ..default_descriptor(Tag::Mapping.spec_name(), "BTreeMap<SonicSerdeObject, SonicSerdeObject>"@) },
        Tag::Bool => default_descriptor(Tag::Bool.spec_name(), "bool"@),
        Tag::SystemTime => DataTypeView { can_ref: false, ..default_descriptor(Tag::SystemTime.spec_name(), "SystemTime"@) },
        Tag::U8 => default_descriptor(Tag::U8.spec_name(), "u8"@),
        Tag::U16 => default_descriptor(Tag::U16.spec_name(), "u16"@),
        Tag::U32 => default_descriptor(Tag::U32.spec_name(), "u32"@),
        Tag::U64 => default_descriptor(Tag::U64.spec_name(), "u64"@),
        Tag::U128 => default_descriptor(Tag::U128.spec_name(), "u128"@),
        Tag::I8 => default_descriptor(Tag::I8.spec_name(), "i8"@),
        Tag::I16 => default_descriptor(Tag::I16.spec_name(), "i16"@),
        Tag::I32 => default_descriptor(Tag::I32.spec_name(), "i32"@),
        Tag::I64 => default_descriptor(Tag::I64.spec_name(), "i64"@),
        Tag::I128 => default_descriptor(Tag::I128.spec_name(), "i128"@),
        Tag::VecU8 => DataTypeView { exclude_from_froms: true, can_ref: false, ..default_descriptor(Tag::VecU8.spec_name(), "Vec<u8>"@) },
        Tag::USize => DataTypeView { can_ref: false, ..default_descriptor(Tag::USize.spec_name(), "usize"@) },
        Tag::Option => DataTypeView { output_as: "Option<SonicSerdeObject>"@, how_to_output: "*(x.clone())"@, how_to_convert: "Box::new(newval)"@, ..default_descriptor(Tag::Option.spec_name(), "Box<Option<SonicSerdeObject>>"@) },
        Tag::F32 => DataTypeView { output_as: "f32"@, how_to_output: "x.clone().into_inner()"@, how_to_convert: "OrderedFloat(newval)"@, ..default_descriptor(Tag::F32.spec_name(), "OrderedFloat<f32>"@) },
        Tag::F64 => DataTypeView { output_as: "f64"@, how_to_output: "x.clone().into_inner()"@, how_to_convert: "OrderedFloat(newval)"@, ..default_descriptor(Tag::F64.spec_name(), "OrderedFloat<f64>"@) },
    }
}

/// The registry: one descriptor per tag, in declaration order.
pub open spec fn spec_registry() -> Seq<DataTypeView> {
    seq![
        registry_entry(Tag::String),
        registry_entry(Tag::Vec),
        registry_entry(Tag::Mapping),
        registry_entry(Tag::Bool),
        registry_entry(Tag::SystemTime),
        registry_entry(Tag::U8),
        registry_entry(Tag::U16),
        registry_entry(Tag::U32),
        registry_entry(Tag::U64),
        registry_entry(Tag::U128),
        registry_entry(Tag::I8),
        registry_entry(Tag::I16),
        registry_entry(Tag::I32),
        registry_entry(Tag::I64),
        registry_entry(Tag::I128),
        registry_entry(Tag::VecU8),
        registry_entry(Tag::USize),
        registry_entry(Tag::Option),
        registry_entry(Tag::F32),
        registry_entry(Tag::F64),
    ]
}

/// The extraction policies that name a defined operation.
pub open spec fn known_output_policy(p: Seq<char>) -> bool {
    p == "x.clone()"@ || p == "*(x.clone())"@ || p == "x.clone().into_inner()"@
}

/// The construction policies that name a defined operation.
pub open spec fn known_convert_policy(p: Seq<char>) -> bool {
    p == "newval"@ || p == "Box::new(newval)"@ || p == "OrderedFloat(newval)"@
}

/// A registry is valid when its names are unique, no descriptor excluded
/// from native conversion claims reference conversion, and every policy is
/// a defined operation.
pub open spec fn registry_valid(s: Seq<DataTypeView>) -> bool {
    &&& forall|i: int, j: int| 0 <= i < j < s.len() ==> #[trigger] s[i].name != #[trigger] s[j].name
    &&& forall|i: int| 0 <= i < s.len() ==> (#[trigger] s[i]).exclude_from_froms ==> !s[i].can_ref
    &&& forall|i: int| 0 <= i < s.len() ==> known_output_policy((#[trigger] s[i]).how_to_output)
    &&& forall|i: int| 0 <= i < s.len() ==> known_convert_policy((#[trigger] s[i]).how_to_convert)
}

/// Whether an owned conversion from the native type exists. The `U8`
/// descriptor is the one listed exception: its vector form belongs to the
/// raw byte sequence.
pub open spec fn owned_conversion(d: DataTypeView) -> bool {
    !d.exclude_from_froms && d.name != "U8"@
}

/// Whether a conversion from a borrowed native value exists.
pub open spec fn ref_conversion(d: DataTypeView) -> bool {
    !d.exclude_from_froms && d.can_ref
}

/// The descriptors of `s`, as views.
pub open spec fn views(s: Seq<DataType>) -> Seq<DataTypeView> {
    s.map_values(|d: DataType| d@)
}

/// Registry position of every tag is its rank.
pub proof fn lemma_registry_order(t: Tag)
    ensures
        0 <= t.rank() < spec_registry().len(),
        spec_registry()[t.rank()] == registry_entry(t),
        spec_registry()[t.rank()].name == t.spec_name(),
{
}

/// The tag declared at registry position `i`.
pub open spec fn tag_at(i: int) -> Tag {
    if i <= 0 {
        Tag::String
    } else if i == 1 {
        Tag::Vec
    } else if i == 2 {
        Tag::Mapping
    } else if i == 3 {
        Tag::Bool
    } else if i == 4 {
        Tag::SystemTime
    } else if i == 5 {
        Tag::U8
    } else if i == 6 {
        Tag::U16
    } else if i == 7 {
        Tag::U32
    } else if i == 8 {
        Tag::U64
    } else if i == 9 {
        Tag::U128
    } else if i == 10 {
        Tag::I8
    } else if i == 11 {
        Tag::I16
    } else if i == 12 {
        Tag::I32
    } else if i == 13 {
        Tag::I64
    } else if i == 14 {
        Tag::I128
    } else if i == 15 {
        Tag::VecU8
    } else if i == 16 {
        Tag::USize
    } else if i == 17 {
        Tag::Option
    } else if i == 18 {
        Tag::F32
    } else if i == 19 {
        Tag::F64
    } else {
        Tag::F64
    }
}

/// No two tags share a name.
pub proof fn lemma_names_distinct(t: Tag, u: Tag)
    requires
        t != u,
    ensures
        t.spec_name() != u.spec_name(),
{
    reveal_strlit("Map");
    reveal_strlit("String");
    reveal_strlit("Vec");
    reveal_strlit("Bool");
    reveal_strlit("SystemTime");
    reveal_strlit("U8");
    reveal_strlit("U16");
    reveal_strlit("U32");
    reveal_strlit("U64");
    reveal_strlit("U128");
    reveal_strlit("I8");
    reveal_strlit("I16");
    reveal_strlit("I32");
    reveal_strlit("I64");
    reveal_strlit("I128");
    reveal_strlit("VecU8");
    reveal_strlit("USize");
    reveal_strlit("Option");
    reveal_strlit("F32");
    reveal_strlit("F64");
    let a = t.spec_name();
    let b = u.spec_name();
    if a == b {
        assert(a.len() == b.len());
        assert(a[0] == b[0]);
        assert(a[1] == b[1]);
        if a.len() > 2 {
            assert(a[2] == b[2]);
        }
    }
}

/// The fixed registry passes validation.
pub proof fn lemma_registry_valid()
    ensures
        registry_valid(spec_registry()),
{
    let s = spec_registry();
    assert forall|i: int| 0 <= i < s.len() implies #[trigger] s[i] == registry_entry(tag_at(i))
        && tag_at(i).rank() == i by {}
    assert forall|i: int, j: int| 0 <= i < j < s.len() implies #[trigger] s[i].name != #[trigger] s[j].name by {
        assert(s[i] == registry_entry(tag_at(i)) && tag_at(i).rank() == i);
        assert(s[j] == registry_entry(tag_at(j)) && tag_at(j).rank() == j);
        lemma_names_distinct(tag_at(i), tag_at(j));
    }
}

/// The fixed registry, in declaration order.
pub fn register() -> (r: Vec<DataType>)
    ensures
        views(r@) == spec_registry(),
{
    let r = vec![
        DataType::new("String", "String"),
        DataType::new("Vec", "Vec<SonicSerdeObject>").exclude_from_froms(true).can_ref(false),
        DataType::new("Map", "BTreeMap<SonicSerdeObject, SonicSerdeObject>").exclude_from_froms(true).can_ref(false),
        DataType::new("Bool", "bool"),
        DataType::new("SystemTime", "SystemTime").can_ref(false),
        DataType::new("U8", "u8"),
        DataType::new("U16", "u16"),
        DataType::new("U32", "u32"),
        DataType::new("U64", "u64"),
        DataType::new("U128", "u128"),
        DataType::new("I8", "i8"),
        DataType::new("I16", "i16"),
        DataType::new("I32", "i32"),
        DataType::new("I64", "i64"),
        DataType::new("I128", "i128"),
        DataType::new("VecU8", "Vec<u8>").exclude_from_froms(true).can_ref(false),
        DataType::new("USize", "usize").can_ref(false),
        DataType::new("Option", "Box<Option<SonicSerdeObject>>").output_as("Option<SonicSerdeObject>").how_to_output("*(x.clone())").how_to_convert("Box::new(newval)"),
        DataType::new("F32", "OrderedFloat<f32>").output_as("f32").how_to_output("x.clone().into_inner()").how_to_convert("OrderedFloat(newval)"),
        DataType::new("F64", "OrderedFloat<f64>").output_as("f64").how_to_output("x.clone().into_inner()").how_to_convert("OrderedFloat(newval)"),
    ];
    proof {
        reveal_strlit("Map");
        reveal_strlit("String");
        reveal_strlit("Vec");
        reveal_strlit("Bool");
        reveal_strlit("SystemTime");
        reveal_strlit("U8");
        reveal_strlit("U16");
        reveal_strlit("U32");
        reveal_strlit("U64");
        reveal_strlit("U128");
        reveal_strlit("I8");
        reveal_strlit("I16");
        reveal_strlit("I32");
        reveal_strlit("I64");
        reveal_strlit("I128");
        reveal_strlit("VecU8");
        reveal_strlit("USize");
        reveal_strlit("Option");
        reveal_strlit("F32");
        reveal_strlit("F64");
        assert(views(r@) =~= spec_registry());
    }
    r
}

fn is_known_output_policy(p: &String) -> (r: bool)
    ensures
        r == known_output_policy(p@),
{
    *p == String::from_str("x.clone()") || *p == String::from_str("*(x.clone())") || *p
        == String::from_str("x.clone().into_inner()")
}

fn is_known_convert_policy(p: &String) -> (r: bool)
    ensures
        r == known_convert_policy(p@),
{
    *p == String::from_str("newval") || *p == String::from_str("Box::new(newval)") || *p
        == String::from_str("OrderedFloat(newval)")
}

/// Checks a registry before any value API is derived from it.
pub fn validate(reg: &Vec<DataType>) -> (r: bool)
    ensures
        r == registry_valid(views(reg@)),
{
    let ghost s = views(reg@);
    let n = reg.len();
    let mut i: usize = 0;
    while i < n
        invariant
            n == reg@.len(),
            s == views(reg@),
            i <= n,
            forall|a: int, b: int| 0 <= a < b < n && a < i ==> #[trigger] s[a].name != #[trigger] s[b].name,
            forall|a: int| 0 <= a < i ==> (#[trigger] s[a]).exclude_from_froms ==> !s[a].can_ref,
            forall|a: int| 0 <= a < i ==> known_output_policy((#[trigger] s[a]).how_to_output),
            forall|a: int| 0 <= a < i ==> known_convert_policy((#[trigger] s[a]).how_to_convert),
        decreases n - i,
    {
        if reg[i].exclude_from_froms && reg[i].can_ref {
            assert(s[i as int].exclude_from_froms && s[i as int].can_ref);
            return false;
        }
        if !is_known_output_policy(&reg[i].how_to_output) {
            assert(!known_output_policy(s[i as int].how_to_output));
            return false;
        }
        if !is_known_convert_policy(&reg[i].how_to_convert) {
            assert(!known_convert_policy(s[i as int].how_to_convert));
            return false;
        }
        let mut j: usize = i + 1;
        while j < n
            invariant
                n == reg@.len(),
                s == views(reg@),
                i < n,
                i < j <= n,
                forall|b: int| i < b < j ==> s[i as int].name != #[trigger] s[b].name,
            decreases n - j,
        {
            if reg[i].name == reg[j].name {
                assert(s[i as int].name == s[j as int].name);
                return false;
            }
            j = j + 1;
        }
        i = i + 1;
    }
    true
}

/// Whether a descriptor gets an owned conversion (and a vector-of-owned
/// conversion).
pub fn has_owned_conversion(d: &DataType) -> (r: bool)
    ensures
        r == owned_conversion(d@),
{
    !d.exclude_from_froms && !(d.name == String::from_str("U8"))
}

/// Whether a descriptor gets a by-reference conversion (and a
/// vector-of-references conversion).
pub fn has_ref_conversion(d: &DataType) -> (r: bool)
    ensures
        r == ref_conversion(d@),
{
    !d.exclude_from_froms && d.can_ref
}

} // verus!
