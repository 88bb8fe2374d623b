use std::collections::HashMap;

use nuts_storable::{F64Vec, HasDims, ItemError, ItemType, Storable, Value};

struct Run {
    sizes: Vec<(String, u64)>,
}

impl HasDims for Run {
    fn dim_sizes(&self) -> HashMap<String, u64> {
        self.sizes.iter().cloned().collect()
    }
}

struct LabeledRun {
    sizes: Vec<(String, u64)>,
    labels: Vec<(String, Value)>,
}

impl HasDims for LabeledRun {
    fn dim_sizes(&self) -> HashMap<String, u64> {
        self.sizes.iter().cloned().collect()
    }

    fn coords(&self) -> HashMap<String, Value> {
        self.labels.iter().cloned().collect()
    }
}

fn run_dim_3() -> Run {
    Run { sizes: vec![("dim".to_string(), 3)] }
}

fn bits_1_2_3() -> Vec<u64> {
    vec![1.0f64.to_bits(), 2.0f64.to_bits(), 3.0f64.to_bits()]
}

#[test]
fn bare_vector_names() {
    let run = run_dim_3();
    assert_eq!(<F64Vec as Storable<Run>>::names(&run), vec!["value"]);
}

#[test]
fn bare_vector_item_type() {
    let run = run_dim_3();
    assert_eq!(<F64Vec as Storable<Run>>::item_type(&run, "value"), Ok(ItemType::F64));
}

#[test]
fn bare_vector_dims() {
    let run = run_dim_3();
    assert_eq!(<F64Vec as Storable<Run>>::dims(&run, "value"), Ok(vec!["dim"]));
}

#[test]
fn bare_vector_get_all() {
    let run = run_dim_3();
    let prod = F64Vec { bits: bits_1_2_3() };
    let all = prod.get_all(&run);
    assert_eq!(all, vec![("value", Some(Value::F64(bits_1_2_3())))]);
}

#[test]
fn bare_vector_metadata_queries_fail_on_unknown_name() {
    let run = run_dim_3();
    assert_eq!(
        <F64Vec as Storable<Run>>::item_type(&run, "other"),
        Err(ItemError::InvalidItem)
    );
    assert_eq!(<F64Vec as Storable<Run>>::dims(&run, "other"), Err(ItemError::InvalidItem));
}

#[test]
fn bare_vector_typed_accessor_returns_sequence() {
    let run = run_dim_3();
    let prod = F64Vec { bits: bits_1_2_3() };
    let got = prod.get_vec_f64(&run, "value").expect("vector accessor should find the item");
    let floats: Vec<f64> = got.into_iter().map(f64::from_bits).collect();
    assert_eq!(floats, vec![1.0, 2.0, 3.0]);
}

#[test]
fn bare_vector_scalar_accessor_is_absent_on_variant_mismatch() {
    let run = run_dim_3();
    let prod = F64Vec { bits: bits_1_2_3() };
    assert_eq!(prod.get_f64(&run, "value"), None);
}

#[test]
fn bare_vector_other_accessors_are_absent() {
    let run = run_dim_3();
    let prod = F64Vec { bits: bits_1_2_3() };
    assert_eq!(prod.get_u64(&run, "value"), None);
    assert_eq!(prod.get_i64(&run, "value"), None);
    assert_eq!(prod.get_f32(&run, "value"), None);
    assert_eq!(prod.get_bool(&run, "value"), None);
    assert_eq!(prod.get_vec_u64(&run, "value"), None);
    assert_eq!(prod.get_vec_i64(&run, "value"), None);
    assert_eq!(prod.get_vec_f32(&run, "value"), None);
    assert_eq!(prod.get_vec_bool(&run, "value"), None);
}

#[test]
fn bare_vector_accessor_is_absent_on_unknown_name() {
    let run = run_dim_3();
    let prod = F64Vec { bits: bits_1_2_3() };
    assert_eq!(prod.get_vec_f64(&run, "other"), None);
}

#[test]
fn no_items_producer_names_empty() {
    let run = run_dim_3();
    let names = <() as Storable<Run>>::names(&run);
    assert!(names.is_empty());
}

#[test]
fn no_items_producer_get_all_empty() {
    let run = run_dim_3();
    let all = ().get_all(&run);
    assert!(all.is_empty());
}

#[test]
fn no_items_producer_queries_fail_unconditionally() {
    let run = run_dim_3();
    assert_eq!(<() as Storable<Run>>::item_type(&run, "value"), Err(ItemError::InvalidItem));
    assert_eq!(<() as Storable<Run>>::item_type(&run, ""), Err(ItemError::InvalidItem));
    assert_eq!(<() as Storable<Run>>::dims(&run, "anything"), Err(ItemError::InvalidItem));
}

#[test]
fn no_items_producer_accessors_are_absent() {
    let run = run_dim_3();
    assert_eq!(().get_u64(&run, "value"), None);
    assert_eq!(().get_vec_f64(&run, "value"), None);
}

#[test]
fn dim_sizes_reports_the_mapping() {
    let run = run_dim_3();
    let sizes = run.dim_sizes();
    assert_eq!(sizes.len(), 1);
    assert_eq!(sizes.get("dim"), Some(&3));
}

#[test]
fn coords_default_is_empty() {
    let run = run_dim_3();
    assert!(run.coords().is_empty());
}

#[test]
fn coords_override_is_reported() {
    let run = LabeledRun {
        sizes: vec![("dim".to_string(), 2)],
        labels: vec![("dim".to_string(), Value::Strings(vec![
            "low".to_string(),
            "high".to_string(),
        ]))],
    };
    let coords = run.coords();
    assert_eq!(
        coords.get("dim"),
        Some(&Value::Strings(vec!["low".to_string(), "high".to_string()]))
    );
}
