use vstd::prelude::*;
use vstd::string::StrSliceExecFns;

use crate::value::{Value, ValueView};

verus! {

/// The item names of a bulk-extraction result, in entry order.
pub open spec fn entry_names(entries: Seq<(Seq<char>, Option<ValueView>)>) -> Seq<Seq<char>> {
    entries.map_values(|e: (Seq<char>, Option<ValueView>)| e.0)
}

/// The first entry for `name` in a bulk-extraction result: `None` when no
/// entry carries the name, otherwise that entry's optional value.
pub open spec fn find_value(
    entries: Seq<(Seq<char>, Option<ValueView>)>,
    name: Seq<char>,
) -> Option<Option<ValueView>>
    decreases entries.len(),
{
    if entries.len() == 0 {
        None
    } else if entries[0].0 == name {
        Some(entries[0].1)
    } else {
        find_value(entries.drop_first(), name)
    }
}

/// The payload at `name` when it holds exactly the scalar unsigned 64-bit
/// variant; absence otherwise.
pub open spec fn scalar_u64_at(
    entries: Seq<(Seq<char>, Option<ValueView>)>,
    name: Seq<char>,
) -> Option<u64> {
    match find_value(entries, name) {
        Some(Some(ValueView::ScalarU64(x))) => Some(x),
        _ => None,
    }
}

/// The payload at `name` when it holds exactly the scalar signed 64-bit
/// variant; absence otherwise.
pub open spec fn scalar_i64_at(
    entries: Seq<(Seq<char>, Option<ValueView>)>,
    name: Seq<char>,
) -> Option<i64> {
    match find_value(entries, name) {
        Some(Some(ValueView::ScalarI64(x))) => Some(x),
        _ => None,
    }
}

/// The payload at `name` when it holds exactly the scalar 64-bit float
/// variant, as an IEEE-754 bit pattern; absence otherwise.
pub open spec fn scalar_f64_at(
    entries: Seq<(Seq<char>, Option<ValueView>)>,
    name: Seq<char>,
) -> Option<u64> {
    match find_value(entries, name) {
        Some(Some(ValueView::ScalarF64(x))) => Some(x),
        _ => None,
    }
}

/// The payload at `name` when it holds exactly the scalar 32-bit float
/// variant, as an IEEE-754 bit pattern; absence otherwise.
pub open spec fn scalar_f32_at(
    entries: Seq<(Seq<char>, Option<ValueView>)>,
    name: Seq<char>,
) -> Option<u32> {
    match find_value(entries, name) {
        Some(Some(ValueView::ScalarF32(x))) => Some(x),
        _ => None,
    }
}

/// The payload at `name` when it holds exactly the scalar boolean variant;
/// absence otherwise.
pub open spec fn scalar_bool_at(
    entries: Seq<(Seq<char>, Option<ValueView>)>,
    name: Seq<char>,
) -> Option<bool> {
    match find_value(entries, name) {
        Some(Some(ValueView::ScalarBool(x))) => Some(x),
        _ => None,
    }
}

/// The payload at `name` when it holds exactly the unsigned 64-bit vector
/// variant; absence otherwise.
pub open spec fn vec_u64_at(
    entries: Seq<(Seq<char>, Option<ValueView>)>,
    name: Seq<char>,
) -> Option<Seq<u64>> {
    match find_value(entries, name) {
        Some(Some(ValueView::U64(v))) => Some(v),
        _ => None,
    }
}

/// The payload at `name` when it holds exactly the signed 64-bit vector
/// variant; absence otherwise.
pub open spec fn vec_i64_at(
    entries: Seq<(Seq<char>, Option<ValueView>)>,
    name: Seq<char>,
) -> Option<Seq<i64>> {
    match find_value(entries, name) {
        Some(Some(ValueView::I64(v))) => Some(v),
        _ => None,
    }
}

/// The payload at `name` when it holds exactly the 64-bit float vector
/// variant, as IEEE-754 bit patterns; absence otherwise.
pub open spec fn vec_f64_at(
    entries: Seq<(Seq<char>, Option<ValueView>)>,
    name: Seq<char>,
) -> Option<Seq<u64>> {
    match find_value(entries, name) {
        Some(Some(ValueView::F64(v))) => Some(v),
        _ => None,
    }
}

/// The payload at `name` when it holds exactly the 32-bit float vector
/// variant, as IEEE-754 bit patterns; absence otherwise.
pub open spec fn vec_f32_at(
    entries: Seq<(Seq<char>, Option<ValueView>)>,
    name: Seq<char>,
) -> Option<Seq<u32>> {
    match find_value(entries, name) {
        Some(Some(ValueView::F32(v))) => Some(v),
        _ => None,
    }
}

/// The payload at `name` when it holds exactly the boolean vector variant;
/// absence otherwise.
pub open spec fn vec_bool_at(
    entries: Seq<(Seq<char>, Option<ValueView>)>,
    name: Seq<char>,
) -> Option<Seq<bool>> {
    match find_value(entries, name) {
        Some(Some(ValueView::Bool(v))) => Some(v),
        _ => None,
    }
}

/// When the first entry for `name` stands at index `i`, the lookup finds it.
pub(crate) proof fn lemma_find_value_first(
    entries: Seq<(Seq<char>, Option<ValueView>)>,
    name: Seq<char>,
    i: int,
)
    requires
        0 <= i < entries.len(),
        entries[i].0 == name,
        forall|j: int| 0 <= j < i ==> entries[j].0 != name,
    ensures
        find_value(entries, name) == Some(entries[i].1),
    decreases i,
{
    if i > 0 {
        lemma_find_value_first(entries.drop_first(), name, i - 1);
        assert(entries.drop_first()[i - 1] == entries[i]);
    }
}

/// When no entry carries `name`, the lookup reports absence.
pub(crate) proof fn lemma_find_value_none(
    entries: Seq<(Seq<char>, Option<ValueView>)>,
    name: Seq<char>,
)
    requires
        forall|j: int| 0 <= j < entries.len() ==> entries[j].0 != name,
    ensures
        find_value(entries, name) is None,
    decreases entries.len(),
{
    if entries.len() > 0 {
        lemma_find_value_none(entries.drop_first(), name);
    }
}

/// Character-wise equality of two string slices, tied to their views.
pub fn str_eq(a: &str, b: &str) -> (r: bool)
    ensures
        r == (a@ == b@),
{
    let a_len = a.unicode_len();
    let b_len = b.unicode_len();
    if a_len != b_len {
        return false;
    }
    let mut i: usize = 0;
    while i < a_len
        invariant
            i <= a_len,
            a_len == a@.len(),
            b_len == b@.len(),
            a_len == b_len,
            forall|j: int| 0 <= j < i ==> a@[j] == b@[j],
        decreases a_len - i,
    {
        if a.get_char(i) != b.get_char(i) {
            return false;
        }
        i += 1;
    }
    proof {
        assert(a@ =~= b@);
    }
    true
}

/// Removes and returns the first entry for `name` from a bulk-extraction
/// result, or `None` when no entry carries the name.
#[verifier::loop_isolation(false)]
pub fn take_entry(entries: Vec<(&str, Option<Value>)>, name: &str) -> (r: Option<Option<Value>>)
    ensures
        r.deep_view() == find_value(entries.deep_view(), name@),
{
    let ghost orig = entries.deep_view();
    let mut rest = entries;
    let mut i: usize = 0;
    while i < rest.len()
        invariant
            rest.deep_view() == orig,
            i <= rest@.len(),
            forall|j: int| 0 <= j < i ==> orig[j].0 != name@,
        decreases rest@.len() - i,
    {
        if str_eq(rest[i].0, name) {
            proof {
                assert(orig[i as int] == rest@[i as int].deep_view());
                assert(orig[i as int].0 == name@);
                lemma_find_value_first(orig, name@, i as int);
            }
            let entry = rest.remove(i);
            proof {
                assert(entry.1.deep_view() == orig[i as int].1);
            }
            return Some(entry.1);
        }
        proof {
            assert(orig[i as int].0 == rest@[i as int].0@);
        }
        i += 1;
    }
    proof {
        lemma_find_value_none(orig, name@);
    }
    None
}

/// Scans a bulk-extraction result for `name` and returns the payload only
/// when the entry holds exactly the scalar unsigned 64-bit variant.
pub fn lookup_u64(entries: Vec<(&str, Option<Value>)>, name: &str) -> (r: Option<u64>)
    ensures
        r == scalar_u64_at(entries.deep_view(), name@),
{
    match take_entry(entries, name) {
        Some(Some(Value::ScalarU64(x))) => Some(x),
        _ => None,
    }
}

/// Scans a bulk-extraction result for `name` and returns the payload only
/// when the entry holds exactly the scalar signed 64-bit variant.
pub fn lookup_i64(entries: Vec<(&str, Option<Value>)>, name: &str) -> (r: Option<i64>)
    ensures
        r == scalar_i64_at(entries.deep_view(), name@),
{
    match take_entry(entries, name) {
        Some(Some(Value::ScalarI64(x))) => Some(x),
        _ => None,
    }
}

/// Scans a bulk-extraction result for `name` and returns the payload only
/// when the entry holds exactly the scalar 64-bit float variant, as an
/// IEEE-754 bit pattern.
pub fn lookup_f64(entries: Vec<(&str, Option<Value>)>, name: &str) -> (r: Option<u64>)
    ensures
        r == scalar_f64_at(entries.deep_view(), name@),
{
    match take_entry(entries, name) {
        Some(Some(Value::ScalarF64(x))) => Some(x),
        _ => None,
    }
}

/// Scans a bulk-extraction result for `name` and returns the payload only
/// when the entry holds exactly the scalar 32-bit float variant, as an
/// IEEE-754 bit pattern.
pub fn lookup_f32(entries: Vec<(&str, Option<Value>)>, name: &str) -> (r: Option<u32>)
    ensures
        r == scalar_f32_at(entries.deep_view(), name@),
{
    match take_entry(entries, name) {
        Some(Some(Value::ScalarF32(x))) => Some(x),
        _ => None,
    }
}

/// Scans a bulk-extraction result for `name` and returns the payload only
/// when the entry holds exactly the scalar boolean variant.
pub fn lookup_bool(entries: Vec<(&str, Option<Value>)>, name: &str) -> (r: Option<bool>)
    ensures
        r == scalar_bool_at(entries.deep_view(), name@),
{
    match take_entry(entries, name) {
        Some(Some(Value::ScalarBool(x))) => Some(x),
        _ => None,
    }
}

/// Scans a bulk-extraction result for `name` and returns the payload only
/// when the entry holds exactly the unsigned 64-bit vector variant.
pub fn lookup_vec_u64(entries: Vec<(&str, Option<Value>)>, name: &str) -> (r: Option<Vec<u64>>)
    ensures
        r.deep_view() == vec_u64_at(entries.deep_view(), name@),
{
    match take_entry(entries, name) {
        Some(Some(Value::U64(v))) => Some(v),
        _ => None,
    }
}

/// Scans a bulk-extraction result for `name` and returns the payload only
/// when the entry holds exactly the signed 64-bit vector variant.
pub fn lookup_vec_i64(entries: Vec<(&str, Option<Value>)>, name: &str) -> (r: Option<Vec<i64>>)
    ensures
        r.deep_view() == vec_i64_at(entries.deep_view(), name@),
{
    match take_entry(entries, name) {
        Some(Some(Value::I64(v))) => Some(v),
        _ => None,
    }
}

/// Scans a bulk-extraction result for `name` and returns the payload only
/// when the entry holds exactly the 64-bit float vector variant, as
/// IEEE-754 bit patterns.
pub fn lookup_vec_f64(entries: Vec<(&str, Option<Value>)>, name: &str) -> (r: Option<Vec<u64>>)
    ensures
        r.deep_view() == vec_f64_at(entries.deep_view(), name@),
{
    match take_entry(entries, name) {
        Some(Some(Value::F64(v))) => Some(v),
        _ => None,
    }
}

/// Scans a bulk-extraction result for `name` and returns the payload only
/// when the entry holds exactly the 32-bit float vector variant, as
/// IEEE-754 bit patterns.
pub fn lookup_vec_f32(entries: Vec<(&str, Option<Value>)>, name: &str) -> (r: Option<Vec<u32>>)
    ensures
        r.deep_view() == vec_f32_at(entries.deep_view(), name@),
{
    match take_entry(entries, name) {
        Some(Some(Value::F32(v))) => Some(v),
        _ => None,
    }
}

/// Scans a bulk-extraction result for `name` and returns the payload only
/// when the entry holds exactly the boolean vector variant.
pub fn lookup_vec_bool(entries: Vec<(&str, Option<Value>)>, name: &str) -> (r: Option<Vec<bool>>)
    ensures
        r.deep_view() == vec_bool_at(entries.deep_view(), name@),
{
    match take_entry(entries, name) {
        Some(Some(Value::Bool(v))) => Some(v),
        _ => None,
    }
}

} // verus!
