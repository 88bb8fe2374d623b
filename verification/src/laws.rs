use vstd::prelude::*;

use crate::lookup::{
    entry_names, find_value, lemma_find_value_none, scalar_bool_at, scalar_f32_at, scalar_f64_at,
    scalar_i64_at, scalar_u64_at, vec_bool_at, vec_f32_at, vec_f64_at, vec_i64_at, vec_u64_at,
};
use crate::value::{Value, ValueView};

verus! {

/// Round trip for a scalar unsigned 64-bit integer: wherever a bulk
/// extraction yields, under `name`, the value built by the matching
/// construction path, the matching scalar lookup reproduces the payload
/// exactly.
pub proof fn lemma_round_trip_u64(
    entries: Seq<(Seq<char>, Option<ValueView>)>,
    name: Seq<char>,
    x: u64,
)
    requires
        find_value(entries, name) == Some(
            Some((<Value as vstd::std_specs::convert::FromSpec<u64>>::from_spec(x))@),
        ),
    ensures
        scalar_u64_at(entries, name) == Some(x),
{
}

/// Round trip for a scalar signed 64-bit integer stored through its
/// matching construction path.
pub proof fn lemma_round_trip_i64(
    entries: Seq<(Seq<char>, Option<ValueView>)>,
    name: Seq<char>,
    x: i64,
)
    requires
        find_value(entries, name) == Some(
            Some((<Value as vstd::std_specs::convert::FromSpec<i64>>::from_spec(x))@),
        ),
    ensures
        scalar_i64_at(entries, name) == Some(x),
{
}

/// Round trip for a scalar 64-bit float, carried as its IEEE-754 bit
/// pattern: the bit pattern comes back unchanged, so no precision is lost.
pub proof fn lemma_round_trip_f64(
    entries: Seq<(Seq<char>, Option<ValueView>)>,
    name: Seq<char>,
    bits: u64,
)
    requires
        find_value(entries, name) == Some(Some(ValueView::ScalarF64(bits))),
    ensures
        scalar_f64_at(entries, name) == Some(bits),
{
}

/// Round trip for a scalar 32-bit float, carried as its IEEE-754 bit
/// pattern: the bit pattern comes back unchanged, so no precision is lost.
pub proof fn lemma_round_trip_f32(
    entries: Seq<(Seq<char>, Option<ValueView>)>,
    name: Seq<char>,
    bits: u32,
)
    requires
        find_value(entries, name) == Some(Some(ValueView::ScalarF32(bits))),
    ensures
        scalar_f32_at(entries, name) == Some(bits),
{
}

/// Round trip for a scalar boolean stored through its matching
/// construction path.
pub proof fn lemma_round_trip_bool(
    entries: Seq<(Seq<char>, Option<ValueView>)>,
    name: Seq<char>,
    x: bool,
)
    requires
        find_value(entries, name) == Some(
            Some((<Value as vstd::std_specs::convert::FromSpec<bool>>::from_spec(x))@),
        ),
    ensures
        scalar_bool_at(entries, name) == Some(x),
{
}

/// Round trip for an unsigned 64-bit integer vector stored through its
/// matching construction path.
pub proof fn lemma_round_trip_vec_u64(
    entries: Seq<(Seq<char>, Option<ValueView>)>,
    name: Seq<char>,
    v: Vec<u64>,
)
    requires
        find_value(entries, name) == Some(
            Some((<Value as vstd::std_specs::convert::FromSpec<Vec<u64>>>::from_spec(v))@),
        ),
    ensures
        vec_u64_at(entries, name) == Some(v@),
{
}

/// Round trip for a signed 64-bit integer vector stored through its
/// matching construction path.
pub proof fn lemma_round_trip_vec_i64(
    entries: Seq<(Seq<char>, Option<ValueView>)>,
    name: Seq<char>,
    v: Vec<i64>,
)
    requires
        find_value(entries, name) == Some(
            Some((<Value as vstd::std_specs::convert::FromSpec<Vec<i64>>>::from_spec(v))@),
        ),
    ensures
        vec_i64_at(entries, name) == Some(v@),
{
}

/// Round trip for a 64-bit float vector, carried as IEEE-754 bit patterns:
/// the bit patterns come back unchanged, so no precision is lost.
pub proof fn lemma_round_trip_vec_f64(
    entries: Seq<(Seq<char>, Option<ValueView>)>,
    name: Seq<char>,
    bits: Seq<u64>,
)
    requires
        find_value(entries, name) == Some(Some(ValueView::F64(bits))),
    ensures
        vec_f64_at(entries, name) == Some(bits),
{
}

/// Round trip for a 32-bit float vector, carried as IEEE-754 bit patterns:
/// the bit patterns come back unchanged, so no precision is lost.
pub proof fn lemma_round_trip_vec_f32(
    entries: Seq<(Seq<char>, Option<ValueView>)>,
    name: Seq<char>,
    bits: Seq<u32>,
)
    requires
        find_value(entries, name) == Some(Some(ValueView::F32(bits))),
    ensures
        vec_f32_at(entries, name) == Some(bits),
{
}

/// Round trip for a boolean vector stored through its matching
/// construction path.
pub proof fn lemma_round_trip_vec_bool(
    entries: Seq<(Seq<char>, Option<ValueView>)>,
    name: Seq<char>,
    v: Vec<bool>,
)
    requires
        find_value(entries, name) == Some(
            Some((<Value as vstd::std_specs::convert::FromSpec<Vec<bool>>>::from_spec(v))@),
        ),
    ensures
        vec_bool_at(entries, name) == Some(v@),
{
}

/// Kind strictness: a lookup requesting one kind against a stored value of
/// any other kind reports absence — never a coerced value. In particular no
/// scalar lookup ever sees a vector, a 32-bit float never answers for a
/// 64-bit one, and an unsigned integer never answers for a signed one.
pub proof fn lemma_kind_mismatch(
    entries: Seq<(Seq<char>, Option<ValueView>)>,
    name: Seq<char>,
    v: ValueView,
)
    requires
        find_value(entries, name) == Some(Some(v)),
    ensures
        !(v is ScalarU64) ==> scalar_u64_at(entries, name) is None,
        !(v is ScalarI64) ==> scalar_i64_at(entries, name) is None,
        !(v is ScalarF64) ==> scalar_f64_at(entries, name) is None,
        !(v is ScalarF32) ==> scalar_f32_at(entries, name) is None,
        !(v is ScalarBool) ==> scalar_bool_at(entries, name) is None,
        !(v is U64) ==> vec_u64_at(entries, name) is None,
        !(v is I64) ==> vec_i64_at(entries, name) is None,
        !(v is F64) ==> vec_f64_at(entries, name) is None,
        !(v is F32) ==> vec_f32_at(entries, name) is None,
        !(v is Bool) ==> vec_bool_at(entries, name) is None,
{
}

/// A name no entry carries is reported absent: the raw lookup and every
/// typed lookup return `None` for it.
pub proof fn lemma_absent_name(entries: Seq<(Seq<char>, Option<ValueView>)>, name: Seq<char>)
    requires
        !entry_names(entries).contains(name),
    ensures
        find_value(entries, name) is None,
        scalar_u64_at(entries, name) is None,
        scalar_i64_at(entries, name) is None,
        scalar_f64_at(entries, name) is None,
        scalar_f32_at(entries, name) is None,
        scalar_bool_at(entries, name) is None,
        vec_u64_at(entries, name) is None,
        vec_i64_at(entries, name) is None,
        vec_f64_at(entries, name) is None,
        vec_f32_at(entries, name) is None,
        vec_bool_at(entries, name) is None,
{
    assert forall|j: int| 0 <= j < entries.len() implies entries[j].0 != name by {
        assert(entry_names(entries)[j] == entries[j].0);
    }
    lemma_find_value_none(entries, name);
}

/// An entry that is explicitly absent ("not computed this call") is
/// reported absent by every typed lookup, even though the raw lookup
/// distinguishes it from a missing name.
pub proof fn lemma_absent_value(entries: Seq<(Seq<char>, Option<ValueView>)>, name: Seq<char>)
    requires
        find_value(entries, name) == Some(None::<ValueView>),
    ensures
        scalar_u64_at(entries, name) is None,
        scalar_i64_at(entries, name) is None,
        scalar_f64_at(entries, name) is None,
        scalar_f32_at(entries, name) is None,
        scalar_bool_at(entries, name) is None,
        vec_u64_at(entries, name) is None,
        vec_i64_at(entries, name) is None,
        vec_f64_at(entries, name) is None,
        vec_f32_at(entries, name) is None,
        vec_bool_at(entries, name) is None,
{
}

} // verus!
