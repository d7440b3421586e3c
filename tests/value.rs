use sonic_serde::value::{SonicSerdeObject, SonicSerdeObjectError, Tag, Timestamp};

fn not_a(name: &str) -> SonicSerdeObjectError {
    SonicSerdeObjectError::NotA(name.to_string())
}

#[test]
fn example_scenario() {
    let v = SonicSerdeObject::from_i32(42);
    assert!(v.is_i32());
    assert_eq!(v.as_i32(), Ok(42));
    assert_eq!(v.as_str(), Err(not_a("str")));
    let mut m = SonicSerdeObject::new_map();
    m.insert(SonicSerdeObject::from_str("k"), v);
    m.insert(SonicSerdeObject::from_str("k"), SonicSerdeObject::from_i32(7));
    let entries = m.as_map().unwrap();
    assert_eq!(entries.len(), 1);
    assert_eq!(entries[0].0.as_str(), Ok("k"));
    assert_eq!(entries[0].1.as_i32(), Ok(7));
}

#[test]
fn round_trip_integers() {
    assert_eq!(SonicSerdeObject::from_bool(true).as_bool(), Ok(true));
    assert_eq!(SonicSerdeObject::from_u8(255).as_u8(), Ok(255));
    assert_eq!(SonicSerdeObject::from_u16(65535).as_u16(), Ok(65535));
    assert_eq!(SonicSerdeObject::from_u32(u32::MAX).as_u32(), Ok(u32::MAX));
    assert_eq!(SonicSerdeObject::from_u64(u64::MAX).as_u64(), Ok(u64::MAX));
    assert_eq!(SonicSerdeObject::from_u128(u128::MAX).as_u128(), Ok(u128::MAX));
    assert_eq!(SonicSerdeObject::from_i8(-128).as_i8(), Ok(-128));
    assert_eq!(SonicSerdeObject::from_i16(-300).as_i16(), Ok(-300));
    assert_eq!(SonicSerdeObject::from_i64(i64::MIN).as_i64(), Ok(i64::MIN));
    assert_eq!(SonicSerdeObject::from_i128(i128::MIN).as_i128(), Ok(i128::MIN));
    assert_eq!(SonicSerdeObject::from_usize(12345).as_usize(), Ok(12345));
    let t = Timestamp { secs: -5, nanos: 17 };
    assert_eq!(SonicSerdeObject::from_system_time(t).as_systemtime(), Ok(t));
}

#[test]
fn round_trip_text_and_bytes() {
    assert_eq!(SonicSerdeObject::from_str("héllo").as_string(), Ok("héllo".to_string()));
    assert_eq!(SonicSerdeObject::from_string("x".to_string()).as_str(), Ok("x"));
    assert_eq!(SonicSerdeObject::from_bytes(vec![0, 9]).as_vecu8(), Ok(vec![0u8, 9]));
}

#[test]
fn round_trip_floats() {
    let x: f32 = -0.0;
    let r = SonicSerdeObject::from_f32_bits(x.to_bits()).as_f32().unwrap();
    assert_eq!(f32::from_bits(r).to_bits(), x.to_bits());
    let n = f64::NAN;
    let r = SonicSerdeObject::from_f64_bits(n.to_bits()).as_f64().unwrap();
    assert!(f64::from_bits(r).is_nan());
    let y: f64 = 2.5;
    assert_eq!(f64::from_bits(SonicSerdeObject::from_f64_bits(y.to_bits()).as_f64().unwrap()), 2.5);
}

#[test]
fn round_trip_option() {
    let v = SonicSerdeObject::from_option(Some(SonicSerdeObject::from_u16(3)));
    assert!(v.is_option());
    let inner = v.as_option().unwrap().unwrap();
    assert_eq!(inner.as_u16(), Ok(3));
    let none = SonicSerdeObject::from_option(None);
    assert!(none.as_option().unwrap().is_none());
}

fn one_of_each() -> Vec<SonicSerdeObject> {
    vec![
        SonicSerdeObject::from_str("a"),
        SonicSerdeObject::new_vec(),
        SonicSerdeObject::new_map(),
        SonicSerdeObject::from_bool(false),
        SonicSerdeObject::from_system_time(Timestamp { secs: 0, nanos: 0 }),
        SonicSerdeObject::from_u8(1),
        SonicSerdeObject::from_u16(1),
        SonicSerdeObject::from_u32(1),
        SonicSerdeObject::from_u64(1),
        SonicSerdeObject::from_u128(1),
        SonicSerdeObject::from_i8(1),
        SonicSerdeObject::from_i16(1),
        SonicSerdeObject::from_i32(1),
        SonicSerdeObject::from_i64(1),
        SonicSerdeObject::from_i128(1),
        SonicSerdeObject::from_bytes(vec![1]),
        SonicSerdeObject::from_usize(1),
        SonicSerdeObject::from_option(None),
        SonicSerdeObject::from_f32_bits(0),
        SonicSerdeObject::from_f64_bits(0),
    ]
}

fn predicates(v: &SonicSerdeObject) -> Vec<bool> {
    vec![
        v.is_string(), v.is_vec(), v.is_map(), v.is_bool(), v.is_systemtime(), v.is_u8(),
        v.is_u16(), v.is_u32(), v.is_u64(), v.is_u128(), v.is_i8(), v.is_i16(), v.is_i32(),
        v.is_i64(), v.is_i128(), v.is_vecu8(), v.is_usize(), v.is_option(), v.is_f32(),
        v.is_f64(),
    ]
}

#[test]
fn exactly_one_predicate_holds() {
    for (i, v) in one_of_each().iter().enumerate() {
        let p = predicates(v);
        assert_eq!(p.iter().filter(|b| **b).count(), 1);
        assert!(p[i]);
        assert_eq!(v.tag().index(), i);
    }
}

#[test]
fn mismatch_errors_name_requested_tag() {
    let v = SonicSerdeObject::from_bool(true);
    assert_eq!(v.as_u8(), Err(not_a("U8")));
    assert_eq!(v.as_i128(), Err(not_a("I128")));
    assert_eq!(v.as_map(), Err(not_a("Map")));
    assert_eq!(v.as_vec(), Err(not_a("Vec")));
    assert_eq!(v.as_string(), Err(not_a("String")));
    assert_eq!(v.as_str(), Err(not_a("str")));
    assert_eq!(v.as_option().err(), Some(not_a("Option")));
    assert_eq!(v.as_f64(), Err(not_a("F64")));
    assert_eq!(SonicSerdeObject::from_u8(1).as_bool(), Err(not_a("Bool")));
    assert_eq!(SonicSerdeObject::new_vec().as_vecu8(), Err(not_a("VecU8")));
    assert_eq!(SonicSerdeObject::from_str("s").as_systemtime(), Err(not_a("SystemTime")));
    assert_eq!(Tag::Mapping.name(), "Map".to_string());
}

#[test]
fn push_appends_in_order() {
    let mut s = SonicSerdeObject::new_vec();
    s.push(SonicSerdeObject::from_i32(1));
    s.push(SonicSerdeObject::from_str("two"));
    s.push(SonicSerdeObject::from_bool(true));
    let items = s.as_vec().unwrap();
    assert_eq!(items.len(), 3);
    assert_eq!(items[0].as_i32(), Ok(1));
    assert_eq!(items[1].as_str(), Ok("two"));
    assert_eq!(items[2].as_bool(), Ok(true));
}

#[test]
fn push_on_non_sequence_is_ignored() {
    let mut v = SonicSerdeObject::from_u32(5);
    v.push(SonicSerdeObject::from_u32(6));
    assert_eq!(v.as_u32(), Ok(5));
    let mut m = SonicSerdeObject::new_map();
    m.push(SonicSerdeObject::from_u32(6));
    assert_eq!(m.as_map().unwrap().len(), 0);
}

#[test]
fn insert_on_non_mapping_is_ignored() {
    let mut v = SonicSerdeObject::new_vec();
    v.insert(SonicSerdeObject::from_u32(1), SonicSerdeObject::from_u32(2));
    assert_eq!(v.as_vec().unwrap().len(), 0);
}

#[test]
fn insert_keeps_keys_sorted() {
    let mut m = SonicSerdeObject::new_map();
    m.insert(SonicSerdeObject::from_i32(3), SonicSerdeObject::from_str("c"));
    m.insert(SonicSerdeObject::from_i32(1), SonicSerdeObject::from_str("a"));
    m.insert(SonicSerdeObject::from_str("z"), SonicSerdeObject::from_str("text"));
    m.insert(SonicSerdeObject::from_i32(2), SonicSerdeObject::from_str("b"));
    m.insert(SonicSerdeObject::from_i32(1), SonicSerdeObject::from_str("A"));
    let e = m.as_map().unwrap();
    assert_eq!(e.len(), 4);
    assert_eq!(e[0].0.as_str(), Ok("z"));
    assert_eq!(e[1].0.as_i32(), Ok(1));
    assert_eq!(e[1].1.as_str(), Ok("A"));
    assert_eq!(e[2].0.as_i32(), Ok(2));
    assert_eq!(e[3].0.as_i32(), Ok(3));
}

#[test]
fn new_map_with_one_entry() {
    let m = SonicSerdeObject::new_map_with(SonicSerdeObject::from_str("k"), SonicSerdeObject::from_u64(9));
    let e = m.as_map().unwrap();
    assert_eq!(e.len(), 1);
    assert_eq!(e[0].1.as_u64(), Ok(9));
}

#[test]
fn entries_later_duplicate_wins() {
    let m = SonicSerdeObject::from_entries(vec![
        (SonicSerdeObject::from_str("b"), SonicSerdeObject::from_i8(1)),
        (SonicSerdeObject::from_str("a"), SonicSerdeObject::from_i8(2)),
        (SonicSerdeObject::from_str("b"), SonicSerdeObject::from_i8(3)),
    ]);
    let e = m.as_map().unwrap();
    assert_eq!(e.len(), 2);
    assert_eq!(e[0].0.as_str(), Ok("a"));
    assert_eq!(e[1].0.as_str(), Ok("b"));
    assert_eq!(e[1].1.as_i8(), Ok(3));
}

#[test]
fn bytes_stay_a_byte_sequence() {
    let v = SonicSerdeObject::from_bytes(vec![1u8, 2, 3]);
    assert!(v.is_vecu8());
    assert!(!v.is_vec());
    assert_eq!(v.as_vecu8(), Ok(vec![1u8, 2, 3]));
}

#[test]
fn values_become_a_sequence() {
    let v = SonicSerdeObject::from_values(vec![SonicSerdeObject::from_u8(1), SonicSerdeObject::from_u8(2)]);
    assert!(v.is_vec());
    assert_eq!(v.as_vec().unwrap()[1].as_u8(), Ok(2));
}

#[test]
fn order_by_tag_rank_then_payload() {
    let all = one_of_each();
    for i in 0..all.len() {
        for j in 0..all.len() {
            let expected: i8 = if i < j { -1 } else if i > j { 1 } else { 0 };
            assert_eq!(all[i].compare(&all[j]), expected);
        }
    }
    let a = SonicSerdeObject::from_i32(-4);
    let b = SonicSerdeObject::from_i32(10);
    assert_eq!(a.compare(&b), -1);
    assert_eq!(b.compare(&a), 1);
    assert_eq!(SonicSerdeObject::from_str("ab").compare(&SonicSerdeObject::from_str("abc")), -1);
    assert_eq!(SonicSerdeObject::from_str("b").compare(&SonicSerdeObject::from_str("abc")), 1);
    let t1 = SonicSerdeObject::from_system_time(Timestamp { secs: 1, nanos: 999 });
    let t2 = SonicSerdeObject::from_system_time(Timestamp { secs: 2, nanos: 0 });
    assert_eq!(t1.compare(&t2), -1);
    assert_eq!(SonicSerdeObject::from_option(None).compare(&SonicSerdeObject::from_option(Some(SonicSerdeObject::from_u8(0)))), -1);
}

#[test]
fn float_order_is_total() {
    let f = |x: f32| SonicSerdeObject::from_f32_bits(x.to_bits());
    assert_eq!(f(-0.0).compare(&f(0.0)), 0);
    assert!(f(-0.0) == f(0.0));
    assert_eq!(f(f32::NAN).compare(&f(-f32::NAN)), 0);
    assert_eq!(f(f32::INFINITY).compare(&f(f32::NAN)), -1);
    assert_eq!(f(-1.5).compare(&f(-1.0)), -1);
    assert_eq!(f(f32::NEG_INFINITY).compare(&f(-3.0e38)), -1);
    assert_eq!(f(1.0).compare(&f(0.5)), 1);
    let g = |x: f64| SonicSerdeObject::from_f64_bits(x.to_bits());
    assert_eq!(g(-2.0).compare(&g(3.0)), -1);
    assert_eq!(g(f64::NAN).compare(&g(f64::MAX)), 1);
}

#[test]
fn sequences_compare_item_by_item() {
    let s1 = SonicSerdeObject::from_values(vec![SonicSerdeObject::from_u8(1), SonicSerdeObject::from_u8(2)]);
    let s2 = SonicSerdeObject::from_values(vec![SonicSerdeObject::from_u8(1), SonicSerdeObject::from_u8(3)]);
    let s3 = SonicSerdeObject::from_values(vec![SonicSerdeObject::from_u8(1)]);
    assert_eq!(s1.compare(&s2), -1);
    assert_eq!(s3.compare(&s1), -1);
    assert_eq!(s1.compare(&s1.deep_clone()), 0);
    let m1 = SonicSerdeObject::new_map_with(SonicSerdeObject::from_u8(1), SonicSerdeObject::from_u8(1));
    let m2 = SonicSerdeObject::new_map_with(SonicSerdeObject::from_u8(1), SonicSerdeObject::from_u8(2));
    assert_eq!(m1.compare(&m2), -1);
    assert!(m1 != m2);
}

#[test]
fn byte_vector_converts_to_raw_bytes() {
    let v = SonicSerdeObject::from(vec![1u8, 2, 3]);
    assert!(v.is_vecu8());
    assert!(!v.is_vec());
    assert_eq!(v.as_vecu8(), Ok(vec![1u8, 2, 3]));
}

#[test]
fn borrowed_bytes_convert_to_a_sequence() {
    let (a, b) = (1u8, 2u8);
    let v = SonicSerdeObject::from(vec![&a, &b]);
    let items = v.as_vec().unwrap();
    assert_eq!(items.len(), 2);
    assert_eq!(items[0].as_u8(), Ok(1));
    assert_eq!(items[1].as_u8(), Ok(2));
}

#[test]
fn owned_conversions() {
    assert_eq!(SonicSerdeObject::from(42i32).as_i32(), Ok(42));
    assert_eq!(SonicSerdeObject::from(7usize).as_usize(), Ok(7));
    assert_eq!(SonicSerdeObject::from("hi".to_string()).as_str(), Ok("hi"));
    assert_eq!(SonicSerdeObject::from(&-3i64).as_i64(), Ok(-3));
    assert_eq!(SonicSerdeObject::from(&"r".to_string()).as_str(), Ok("r"));
    assert!(SonicSerdeObject::from(Some(SonicSerdeObject::from(true))).is_option());
}

#[test]
fn vector_conversions() {
    let v = SonicSerdeObject::from(vec![5i32, -6]);
    let items = v.as_vec().unwrap();
    assert_eq!(items.len(), 2);
    assert_eq!(items[0].as_i32(), Ok(5));
    assert_eq!(items[1].as_i32(), Ok(-6));
    let w = SonicSerdeObject::from(vec!["a".to_string(), "b".to_string()]);
    assert_eq!(w.as_vec().unwrap()[1].as_str(), Ok("b"));
    let s = "x".to_string();
    let r = SonicSerdeObject::from(vec![&s]);
    assert_eq!(r.as_vec().unwrap()[0].as_str(), Ok("x"));
    let e: Vec<u64> = vec![];
    assert_eq!(SonicSerdeObject::from(e).as_vec().unwrap().len(), 0);
}

#[test]
fn sorting_groups_by_tag_in_registry_order() {
    let mut items = vec![
        SonicSerdeObject::from_f64_bits(0),
        SonicSerdeObject::from_str("b"),
        SonicSerdeObject::from_i32(3),
        SonicSerdeObject::from_bool(true),
        SonicSerdeObject::from_str("a"),
        SonicSerdeObject::from_i32(-1),
        SonicSerdeObject::new_vec(),
    ];
    items.sort_by(|a, b| a.partial_cmp(b).unwrap());
    let tags: Vec<Tag> = items.iter().map(|v| v.tag()).collect();
    assert_eq!(tags, vec![Tag::String, Tag::String, Tag::Vec, Tag::Bool, Tag::I32, Tag::I32, Tag::F64]);
    assert_eq!(items[0].as_str(), Ok("a"));
    assert_eq!(items[4].as_i32(), Ok(-1));
    assert!(SonicSerdeObject::from_str("zzz") < SonicSerdeObject::new_vec());
    assert!(SonicSerdeObject::from_u8(9) > SonicSerdeObject::from_u8(2));
}

#[test]
fn timestamp_nanos_stay_within_a_second() {
    assert_eq!(Timestamp::new(3, 999_999_999), Some(Timestamp { secs: 3, nanos: 999_999_999 }));
    assert_eq!(Timestamp::new(3, 1_000_000_000), None);
}

#[test]
fn borrowed_and_text_conversions() {
    assert_eq!(SonicSerdeObject::from("txt").as_str(), Ok("txt"));
    let o = Some(SonicSerdeObject::from_u32(4));
    let v = SonicSerdeObject::from(&o);
    assert_eq!(v.as_option().unwrap().unwrap().as_u32(), Ok(4));
    let n: Option<SonicSerdeObject> = None;
    let s = SonicSerdeObject::from(vec![&o, &n]);
    let items = s.as_vec().unwrap();
    assert_eq!(items.len(), 2);
    assert!(items[0].as_option().unwrap().is_some());
    assert!(items[1].as_option().unwrap().is_none());
    let mut w = SonicSerdeObject::new_vec();
    w.as_mut().push(SonicSerdeObject::from_u8(1));
    assert_eq!(w.as_ref().as_vec().unwrap().len(), 1);
}

#[test]
fn insert_grows_only_for_new_keys() {
    let mut m = SonicSerdeObject::new_map();
    m.insert(SonicSerdeObject::from_str("a"), SonicSerdeObject::from_u8(1));
    assert_eq!(m.as_map().unwrap().len(), 1);
    m.insert(SonicSerdeObject::from_str("b"), SonicSerdeObject::from_u8(2));
    assert_eq!(m.as_map().unwrap().len(), 2);
    m.insert(SonicSerdeObject::from_str("a"), SonicSerdeObject::from_u8(3));
    let e = m.as_map().unwrap();
    assert_eq!(e.len(), 2);
    assert_eq!(e[0].1.as_u8(), Ok(3));
    assert_eq!(e[1].1.as_u8(), Ok(2));
}

#[test]
fn float_keys_that_compare_equal_share_an_entry() {
    let mut m = SonicSerdeObject::new_map();
    m.insert(SonicSerdeObject::from_f64_bits((-0.0f64).to_bits()), SonicSerdeObject::from_u8(1));
    m.insert(SonicSerdeObject::from_f64_bits(0.0f64.to_bits()), SonicSerdeObject::from_u8(2));
    let e = m.as_map().unwrap();
    assert_eq!(e.len(), 1);
    assert_eq!(e[0].0.as_f64(), Ok((-0.0f64).to_bits()));
    assert_eq!(e[0].1.as_u8(), Ok(2));
}
