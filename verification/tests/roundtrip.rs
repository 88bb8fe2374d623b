use nuts_storable::{
    lookup_bool, lookup_f32, lookup_f64, lookup_i64, lookup_u64, lookup_vec_bool, lookup_vec_f32,
    lookup_vec_f64, lookup_vec_i64, lookup_vec_u64, str_eq, take_entry, Value,
};

fn entry(value: Value) -> Vec<(&'static str, Option<Value>)> {
    vec![("x", Some(value))]
}

#[test]
fn construction_paths_produce_matching_variants() {
    assert_eq!(Value::from(vec![1u64, 2]), Value::U64(vec![1, 2]));
    assert_eq!(Value::from(vec![-1i64, 2]), Value::I64(vec![-1, 2]));
    assert_eq!(Value::from(vec![true, false]), Value::Bool(vec![true, false]));
    assert_eq!(Value::from(7u64), Value::ScalarU64(7));
    assert_eq!(Value::from(-7i64), Value::ScalarI64(-7));
    assert_eq!(Value::from(true), Value::ScalarBool(true));
    assert_eq!(
        Value::from_f64_bits(vec![0.5f64.to_bits()]),
        Value::F64(vec![0.5f64.to_bits()])
    );
    assert_eq!(
        Value::from_f32_bits(vec![0.5f32.to_bits()]),
        Value::F32(vec![0.5f32.to_bits()])
    );
    assert_eq!(Value::from_scalar_f64_bits(2.5f64.to_bits()), Value::ScalarF64(2.5f64.to_bits()));
    assert_eq!(Value::from_scalar_f32_bits(2.5f32.to_bits()), Value::ScalarF32(2.5f32.to_bits()));
    assert_eq!(
        Value::from(vec!["a".to_string(), "b".to_string()]),
        Value::Strings(vec!["a".to_string(), "b".to_string()])
    );
}

#[test]
fn round_trip_scalar_u64() {
    assert_eq!(lookup_u64(entry(Value::from(42u64)), "x"), Some(42));
}

#[test]
fn round_trip_scalar_i64() {
    assert_eq!(lookup_i64(entry(Value::from(-42i64)), "x"), Some(-42));
}

#[test]
fn round_trip_scalar_f64_is_exact() {
    let bits = 0.1f64.to_bits();
    let got = lookup_f64(entry(Value::from_scalar_f64_bits(bits)), "x").unwrap();
    assert_eq!(f64::from_bits(got), 0.1f64);
}

#[test]
fn round_trip_scalar_f32_is_exact() {
    let bits = 0.1f32.to_bits();
    let got = lookup_f32(entry(Value::from_scalar_f32_bits(bits)), "x").unwrap();
    assert_eq!(f32::from_bits(got), 0.1f32);
}

#[test]
fn round_trip_scalar_bool() {
    assert_eq!(lookup_bool(entry(Value::from(true)), "x"), Some(true));
    assert_eq!(lookup_bool(entry(Value::from(false)), "x"), Some(false));
}

#[test]
fn round_trip_vec_u64() {
    assert_eq!(lookup_vec_u64(entry(Value::from(vec![1u64, 2, 3])), "x"), Some(vec![1, 2, 3]));
}

#[test]
fn round_trip_vec_i64() {
    assert_eq!(lookup_vec_i64(entry(Value::from(vec![-1i64, 2])), "x"), Some(vec![-1, 2]));
}

#[test]
fn round_trip_vec_f64_is_exact() {
    let floats = vec![0.1f64, 2.0, -3.5];
    let bits: Vec<u64> = floats.iter().map(|f| f.to_bits()).collect();
    let got = lookup_vec_f64(entry(Value::from_f64_bits(bits)), "x").unwrap();
    let back: Vec<f64> = got.into_iter().map(f64::from_bits).collect();
    assert_eq!(back, floats);
}

#[test]
fn round_trip_vec_f32_is_exact() {
    let floats = vec![0.1f32, 2.0, -3.5];
    let bits: Vec<u32> = floats.iter().map(|f| f.to_bits()).collect();
    let got = lookup_vec_f32(entry(Value::from_f32_bits(bits)), "x").unwrap();
    let back: Vec<f32> = got.into_iter().map(f32::from_bits).collect();
    assert_eq!(back, floats);
}

#[test]
fn round_trip_vec_bool() {
    assert_eq!(
        lookup_vec_bool(entry(Value::from(vec![true, false])), "x"),
        Some(vec![true, false])
    );
}

fn all_kinds() -> Vec<Value> {
    vec![
        Value::U64(vec![1]),
        Value::I64(vec![-1]),
        Value::F64(vec![1.5f64.to_bits()]),
        Value::F32(vec![1.5f32.to_bits()]),
        Value::Bool(vec![true]),
        Value::ScalarString("s".to_string()),
        Value::ScalarU64(1),
        Value::ScalarI64(-1),
        Value::ScalarF64(1.5f64.to_bits()),
        Value::ScalarF32(1.5f32.to_bits()),
        Value::ScalarBool(true),
        Value::Strings(vec!["s".to_string()]),
    ]
}

#[test]
fn every_accessor_is_absent_on_every_other_kind() {
    for (i, stored) in all_kinds().into_iter().enumerate() {
        let is = |k: usize| i == k;
        assert_eq!(lookup_vec_u64(entry(stored.clone()), "x").is_some(), is(0));
        assert_eq!(lookup_vec_i64(entry(stored.clone()), "x").is_some(), is(1));
        assert_eq!(lookup_vec_f64(entry(stored.clone()), "x").is_some(), is(2));
        assert_eq!(lookup_vec_f32(entry(stored.clone()), "x").is_some(), is(3));
        assert_eq!(lookup_vec_bool(entry(stored.clone()), "x").is_some(), is(4));
        assert_eq!(lookup_u64(entry(stored.clone()), "x").is_some(), is(6));
        assert_eq!(lookup_i64(entry(stored.clone()), "x").is_some(), is(7));
        assert_eq!(lookup_f64(entry(stored.clone()), "x").is_some(), is(8));
        assert_eq!(lookup_f32(entry(stored.clone()), "x").is_some(), is(9));
        assert_eq!(lookup_bool(entry(stored.clone()), "x").is_some(), is(10));
    }
}

#[test]
fn no_cross_width_float_coercion() {
    assert_eq!(lookup_f64(entry(Value::ScalarF32(1.0f32.to_bits())), "x"), None);
    assert_eq!(lookup_f32(entry(Value::ScalarF64(1.0f64.to_bits())), "x"), None);
    assert_eq!(lookup_vec_f64(entry(Value::F32(vec![1.0f32.to_bits()])), "x"), None);
    assert_eq!(lookup_vec_f32(entry(Value::F64(vec![1.0f64.to_bits()])), "x"), None);
}

#[test]
fn no_cross_signedness_coercion() {
    assert_eq!(lookup_u64(entry(Value::ScalarI64(1)), "x"), None);
    assert_eq!(lookup_i64(entry(Value::ScalarU64(1)), "x"), None);
}

#[test]
fn lookup_is_absent_on_missing_name() {
    assert_eq!(lookup_u64(entry(Value::ScalarU64(1)), "y"), None);
    assert_eq!(lookup_u64(Vec::new(), "x"), None);
}

#[test]
fn lookup_is_absent_on_explicitly_absent_entry() {
    assert_eq!(lookup_u64(vec![("x", None)], "x"), None);
    assert_eq!(take_entry(vec![("x", None)], "x"), Some(None));
}

#[test]
fn take_entry_distinguishes_missing_from_absent() {
    assert_eq!(take_entry(Vec::new(), "x"), None);
    assert_eq!(take_entry(vec![("y", Some(Value::ScalarU64(1)))], "x"), None);
}

#[test]
fn first_entry_wins_on_duplicate_names() {
    let entries = vec![
        ("x", Some(Value::ScalarU64(1))),
        ("x", Some(Value::ScalarU64(2))),
    ];
    assert_eq!(lookup_u64(entries, "x"), Some(1));
}

#[test]
fn later_entries_are_still_found() {
    let entries = vec![
        ("a", Some(Value::ScalarU64(1))),
        ("b", Some(Value::ScalarI64(-2))),
        ("c", Some(Value::ScalarBool(true))),
    ];
    assert_eq!(lookup_i64(entries.clone(), "b"), Some(-2));
    assert_eq!(lookup_bool(entries, "c"), Some(true));
}

#[test]
fn str_eq_matches_string_equality() {
    assert!(str_eq("", ""));
    assert!(str_eq("value", "value"));
    assert!(!str_eq("value", "values"));
    assert!(!str_eq("value", "velue"));
    assert!(str_eq("naïve", "naïve"));
    assert!(!str_eq("naïve", "naive"));
}

#[test]
fn structural_equality_distinguishes_variants_and_payloads() {
    assert_ne!(Value::ScalarU64(1), Value::ScalarU64(2));
    assert_ne!(Value::U64(vec![1]), Value::ScalarU64(1));
    assert_ne!(Value::ScalarF64(1.0f64.to_bits()), Value::ScalarF32(1.0f32.to_bits()));
    assert_eq!(Value::Bool(vec![]), Value::Bool(vec![]));
}
