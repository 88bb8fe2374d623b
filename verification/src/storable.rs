use vstd::prelude::*;

use crate::dims::HasDims;
use crate::lookup::{
    entry_names, lookup_bool, lookup_f32, lookup_f64, lookup_i64, lookup_u64, lookup_vec_bool,
    lookup_vec_f32, lookup_vec_f64, lookup_vec_i64, lookup_vec_u64, scalar_bool_at, scalar_f32_at,
    scalar_f64_at, scalar_i64_at, scalar_u64_at, vec_bool_at, vec_f32_at, vec_f64_at, vec_i64_at,
    vec_u64_at,
};
use crate::value::{ItemType, Value, ValueView};

verus! {

/// The failure a metadata query reports when asked about an item name
/// outside the enumerated name set: a contract violation by the caller,
/// kept loudly distinct from the ordinary absence the typed accessors
/// report through `Option`.
#[derive(Debug, Clone, Copy, PartialEq, Eq, Structural)]
pub enum ItemError {
    /// The queried item name is not one the producer enumerates.
    InvalidItem,
}

/// The generic extraction contract, implemented by a producer against a
/// specific parent type `P`. It exposes item enumeration, per-item type and
/// dimension metadata, and one bulk value-extraction operation, from which
/// ten typed accessors (five scalar, five vector) are derived.
///
/// Each implementation fixes a mathematical model: the enumerated name
/// sequence, per-name type and dimension metadata, and the entry sequence a
/// bulk extraction yields. The executable operations are tied to that model,
/// and the metadata queries report [`ItemError::InvalidItem`] exactly on the
/// names outside the enumerated set.
pub trait Storable<P: HasDims + ?Sized>: Send + Sync {
    /// The ordered item names this producer exposes against `parent`.
    spec fn spec_names(parent: &P) -> Seq<Seq<char>>;

    /// The declared kind of an item, as a total function over names; only
    /// its values on enumerated names are ever reported.
    spec fn spec_item_type(parent: &P, item: Seq<char>) -> ItemType;

    /// The declared dimension names of an item, as a total function over
    /// names; only its values on enumerated names are ever reported.
    spec fn spec_dims(parent: &P, item: Seq<char>) -> Seq<Seq<char>>;

    /// The model of one bulk extraction against `parent`: one entry per
    /// enumerated name, pairing the name with a present value or an
    /// explicit absence.
    spec fn spec_get_all(&self, parent: &P) -> Seq<(Seq<char>, Option<ValueView>)>;

    /// The ordered list of item names this producer exposes. Order defines
    /// backend iteration order and is stable across repeated calls against
    /// logically-unchanged parent state.
    fn names(parent: &P) -> (r: Vec<&str>)
        ensures
            r.deep_view() == Self::spec_names(parent),
    ;

    /// The declared kind of the item named `item`, or
    /// [`ItemError::InvalidItem`] exactly when `item` is outside the
    /// enumerated name set.
    fn item_type(parent: &P, item: &str) -> (r: Result<ItemType, ItemError>)
        ensures
            Self::spec_names(parent).contains(item@) ==> (r matches Ok(t) && t
                == Self::spec_item_type(parent, item@)),
            !Self::spec_names(parent).contains(item@) ==> (r matches Err(e) && e
                == ItemError::InvalidItem),
    ;

    /// The ordered dimension names indexing the item named `item` (empty
    /// list: a scalar item), or [`ItemError::InvalidItem`] exactly when
    /// `item` is outside the enumerated name set. Every returned name is
    /// meant to resolve within the parent's size mapping; that is a
    /// consumer-side obligation this layer does not validate.
    fn dims<'a>(parent: &'a P, item: &str) -> (r: Result<Vec<&'a str>, ItemError>)
        ensures
            Self::spec_names(parent).contains(item@) ==> (r matches Ok(d) && d.deep_view()
                == Self::spec_dims(parent, item@)),
            !Self::spec_names(parent).contains(item@) ==> (r matches Err(e) && e
                == ItemError::InvalidItem),
    ;

    /// One bulk extraction: for every enumerated name, one entry pairing the
    /// name with a present [`Value`] or an explicit absence. This is the
    /// only primitive that yields live data; the entry names form the same
    /// multiset as the enumerated names.
    fn get_all(&self, parent: &P) -> (r: Vec<(&str, Option<Value>)>)
        ensures
            r.deep_view() == self.spec_get_all(parent),
            entry_names(self.spec_get_all(parent)).to_multiset()
                == Self::spec_names(parent).to_multiset(),
    ;

    /// Extracts, then returns the payload at `name` only when it holds
    /// exactly the scalar unsigned 64-bit variant; `None` on a missing name
    /// or on any other variant, indistinguishably.
    fn get_u64(&self, parent: &P, name: &str) -> (r: Option<u64>)
        ensures
            r == scalar_u64_at(self.spec_get_all(parent), name@),
    {
        lookup_u64(self.get_all(parent), name)
    }

    /// Extracts, then returns the payload at `name` only when it holds
    /// exactly the scalar signed 64-bit variant; `None` on a missing name
    /// or on any other variant, indistinguishably.
    fn get_i64(&self, parent: &P, name: &str) -> (r: Option<i64>)
        ensures
            r == scalar_i64_at(self.spec_get_all(parent), name@),
    {
        lookup_i64(self.get_all(parent), name)
    }

    /// Extracts, then returns the payload at `name` only when it holds
    /// exactly the scalar 64-bit float variant, as an IEEE-754 bit pattern;
    /// `None` on a missing name or on any other variant, indistinguishably.
    fn get_f64(&self, parent: &P, name: &str) -> (r: Option<u64>)
        ensures
            r == scalar_f64_at(self.spec_get_all(parent), name@),
    {
        lookup_f64(self.get_all(parent), name)
    }

    /// Extracts, then returns the payload at `name` only when it holds
    /// exactly the scalar 32-bit float variant, as an IEEE-754 bit pattern;
    /// `None` on a missing name or on any other variant, indistinguishably.
    fn get_f32(&self, parent: &P, name: &str) -> (r: Option<u32>)
        ensures
            r == scalar_f32_at(self.spec_get_all(parent), name@),
    {
        lookup_f32(self.get_all(parent), name)
    }

    /// Extracts, then returns the payload at `name` only when it holds
    /// exactly the scalar boolean variant; `None` on a missing name or on
    /// any other variant, indistinguishably.
    fn get_bool(&self, parent: &P, name: &str) -> (r: Option<bool>)
        ensures
            r == scalar_bool_at(self.spec_get_all(parent), name@),
    {
        lookup_bool(self.get_all(parent), name)
    }

    /// Extracts, then returns the payload at `name` only when it holds
    /// exactly the unsigned 64-bit vector variant; `None` on a missing name
    /// or on any other variant, indistinguishably.
    fn get_vec_u64(&self, parent: &P, name: &str) -> (r: Option<Vec<u64>>)
        ensures
            r.deep_view() == vec_u64_at(self.spec_get_all(parent), name@),
    {
        lookup_vec_u64(self.get_all(parent), name)
    }

    /// Extracts, then returns the payload at `name` only when it holds
    /// exactly the signed 64-bit vector variant; `None` on a missing name
    /// or on any other variant, indistinguishably.
    fn get_vec_i64(&self, parent: &P, name: &str) -> (r: Option<Vec<i64>>)
        ensures
            r.deep_view() == vec_i64_at(self.spec_get_all(parent), name@),
    {
        lookup_vec_i64(self.get_all(parent), name)
    }

    /// Extracts, then returns the payload at `name` only when it holds
    /// exactly the 64-bit float vector variant, as IEEE-754 bit patterns;
    /// `None` on a missing name or on any other variant, indistinguishably.
    fn get_vec_f64(&self, parent: &P, name: &str) -> (r: Option<Vec<u64>>)
        ensures
            r.deep_view() == vec_f64_at(self.spec_get_all(parent), name@),
    {
        lookup_vec_f64(self.get_all(parent), name)
    }

    /// Extracts, then returns the payload at `name` only when it holds
    /// exactly the 32-bit float vector variant, as IEEE-754 bit patterns;
    /// `None` on a missing name or on any other variant, indistinguishably.
    fn get_vec_f32(&self, parent: &P, name: &str) -> (r: Option<Vec<u32>>)
        ensures
            r.deep_view() == vec_f32_at(self.spec_get_all(parent), name@),
    {
        lookup_vec_f32(self.get_all(parent), name)
    }

    /// Extracts, then returns the payload at `name` only when it holds
    /// exactly the boolean vector variant; `None` on a missing name or on
    /// any other variant, indistinguishably.
    fn get_vec_bool(&self, parent: &P, name: &str) -> (r: Option<Vec<bool>>)
        ensures
            r.deep_view() == vec_bool_at(self.spec_get_all(parent), name@),
    {
        lookup_vec_bool(self.get_all(parent), name)
    }
}

} // verus!
