use sonic_serde::datatypes::DataType;
use sonic_serde::registry::{has_owned_conversion, has_ref_conversion, register, validate};

#[test]
fn builder_defaults() {
    let d = DataType::new("U8", "u8");
    assert_eq!(d.name, "U8");
    assert_eq!(d.stored_as, "u8");
    assert_eq!(d.output_as, "u8");
    assert!(d.can_ref);
    assert_eq!(d.how_to_output, "x.clone()");
    assert!(!d.exclude_from_froms);
    assert_eq!(d.how_to_convert, "newval");
}

#[test]
fn builder_setters() {
    let d = DataType::new("F32", "OrderedFloat<f32>")
        .output_as("f32")
        .how_to_output("x.clone().into_inner()")
        .how_to_convert("OrderedFloat(newval)")
        .can_ref(false)
        .exclude_from_froms(true);
    assert_eq!(d.stored_as, "OrderedFloat<f32>");
    assert_eq!(d.output_as, "f32");
    assert_eq!(d.how_to_output, "x.clone().into_inner()");
    assert_eq!(d.how_to_convert, "OrderedFloat(newval)");
    assert!(!d.can_ref);
    assert!(d.exclude_from_froms);
}

#[test]
fn registry_is_valid_and_ordered() {
    let r = register();
    assert_eq!(r.len(), 20);
    assert!(validate(&r));
    let names: Vec<&str> = r.iter().map(|d| d.name.as_str()).collect();
    assert_eq!(
        names,
        vec![
            "String", "Vec", "Map", "Bool", "SystemTime", "U8", "U16", "U32", "U64", "U128", "I8",
            "I16", "I32", "I64", "I128", "VecU8", "USize", "Option", "F32", "F64"
        ]
    );
}

#[test]
fn validation_rejects_duplicates() {
    let r = vec![DataType::new("A", "u8"), DataType::new("B", "u8"), DataType::new("A", "u16")];
    assert!(!validate(&r));
}

#[test]
fn validation_rejects_excluded_with_ref() {
    let r = vec![DataType::new("A", "u8").exclude_from_froms(true)];
    assert!(!validate(&r));
}

#[test]
fn validation_rejects_unknown_policies() {
    assert!(!validate(&vec![DataType::new("A", "u8").how_to_output("x.take()")]));
    assert!(!validate(&vec![DataType::new("A", "u8").how_to_convert("Rc::new(newval)")]));
    assert!(validate(&vec![]));
}

#[test]
fn conversion_rules() {
    let r = register();
    let owned: Vec<&str> = r.iter().filter(|d| has_owned_conversion(d)).map(|d| d.name.as_str()).collect();
    assert!(!owned.contains(&"U8"));
    assert!(!owned.contains(&"Vec"));
    assert!(!owned.contains(&"VecU8"));
    assert!(owned.contains(&"USize"));
    assert_eq!(owned.len(), 16);
    let by_ref: Vec<&str> = r.iter().filter(|d| has_ref_conversion(d)).map(|d| d.name.as_str()).collect();
    assert!(by_ref.contains(&"U8"));
    assert!(!by_ref.contains(&"SystemTime"));
    assert!(!by_ref.contains(&"USize"));
    assert!(!by_ref.contains(&"Map"));
    assert_eq!(by_ref.len(), 15);
}
