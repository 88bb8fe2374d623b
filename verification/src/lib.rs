//! A typed introspection-and-extraction contract.
//!
//! Heterogeneous storage backends pull named, typed, dimensioned values out
//! of arbitrary data-producing objects without the producers and backends
//! knowing each other's concrete types. The crate provides:
//!
//! - [`ItemType`]: a closed enumeration of the scalar kinds an item can hold;
//! - [`Value`]: a tagged union holding a scalar or a homogeneous vector of
//!   one of six primitive kinds;
//! - [`HasDims`]: the capability a parent context object exposes, reporting
//!   named dimension sizes and optional coordinate labels;
//! - [`Storable`]: the generic extraction contract a producer implements
//!   against a specific parent type, with one bulk extraction primitive and
//!   ten typed accessors derived from it;
//! - free lookup functions over a bulk-extraction result, for callers that
//!   extract once and read several fields from the same result;
//! - proof functions stating the laws of the lookup: exact round trips,
//!   kind strictness, and absence on missing names or absent values.
//!
//! Floating-point payloads are carried as IEEE-754 bit patterns (`u64` for
//! 64-bit floats, `u32` for 32-bit floats), a lossless representation that
//! keeps this layer free of floating-point arithmetic.

mod dims;
mod laws;
mod lookup;
mod producers;
mod storable;
mod value;

pub use dims::HasDims;
pub use laws::{
    lemma_absent_name, lemma_absent_value, lemma_kind_mismatch, lemma_round_trip_bool,
    lemma_round_trip_f32, lemma_round_trip_f64, lemma_round_trip_i64, lemma_round_trip_u64,
    lemma_round_trip_vec_bool, lemma_round_trip_vec_f32, lemma_round_trip_vec_f64,
    lemma_round_trip_vec_i64, lemma_round_trip_vec_u64,
};
pub use lookup::{
    entry_names, find_value, lookup_bool, lookup_f32, lookup_f64, lookup_i64, lookup_u64,
    lookup_vec_bool, lookup_vec_f32, lookup_vec_f64, lookup_vec_i64, lookup_vec_u64,
    scalar_bool_at, scalar_f32_at, scalar_f64_at, scalar_i64_at, scalar_u64_at, str_eq,
    take_entry, vec_bool_at, vec_f32_at, vec_f64_at, vec_i64_at, vec_u64_at,
};
pub use producers::F64Vec;
pub use storable::{ItemError, Storable};
pub use value::{ItemType, Value, ValueView};
