use vstd::prelude::*;
use vstd::slice::slice_to_vec;

use crate::dims::HasDims;
use crate::lookup::{entry_names, str_eq};
use crate::storable::{ItemError, Storable};
use crate::value::{ItemType, Value, ValueView};

verus! {

/// A bare ordered sequence of 64-bit float values, held as IEEE-754 bit
/// patterns. As a producer it exposes, against any parent, exactly one item
/// named "value" of kind `F64`, indexed by one dimension named "dim"; its
/// bulk extraction returns that single entry with a copy of the contents.
pub struct F64Vec {
    /// The IEEE-754 bit patterns of the wrapped 64-bit float values.
    pub bits: Vec<u64>,
}

impl<P: HasDims + ?Sized> Storable<P> for F64Vec {
    open spec fn spec_names(parent: &P) -> Seq<Seq<char>> {
        seq!["value"@]
    }

    open spec fn spec_item_type(parent: &P, item: Seq<char>) -> ItemType {
        ItemType::F64
    }

    open spec fn spec_dims(parent: &P, item: Seq<char>) -> Seq<Seq<char>> {
        seq!["dim"@]
    }

    open spec fn spec_get_all(&self, parent: &P) -> Seq<(Seq<char>, Option<ValueView>)> {
        seq![("value"@, Some(ValueView::F64(self.bits@)))]
    }

    fn names(parent: &P) -> (r: Vec<&str>) {
        let r: Vec<&str> = vec!["value"];
        proof {
            assert(r.deep_view() =~= Self::spec_names(parent));
        }
        r
    }

    fn item_type(parent: &P, item: &str) -> (r: Result<ItemType, ItemError>) {
        proof {
            assert(Self::spec_names(parent)[0] == "value"@);
        }
        if str_eq(item, "value") {
            Ok(ItemType::F64)
        } else {
            Err(ItemError::InvalidItem)
        }
    }

    fn dims<'a>(parent: &'a P, item: &str) -> (r: Result<Vec<&'a str>, ItemError>) {
        proof {
            assert(Self::spec_names(parent)[0] == "value"@);
        }
        if str_eq(item, "value") {
            let d: Vec<&str> = vec!["dim"];
            proof {
                assert(d.deep_view() =~= Self::spec_dims(parent, item@));
            }
            Ok(d)
        } else {
            Err(ItemError::InvalidItem)
        }
    }

    fn get_all(&self, parent: &P) -> (r: Vec<(&str, Option<Value>)>) {
        let contents: Vec<u64> = slice_to_vec(self.bits.as_slice());
        let r: Vec<(&str, Option<Value>)> = vec![("value", Some(Value::F64(contents)))];
        proof {
            assert(r.deep_view() =~= self.spec_get_all(parent));
            assert(entry_names(self.spec_get_all(parent)) =~= Self::spec_names(parent));
        }
        r
    }
}

/// The "no items" producer: against any parent it enumerates no names, its
/// bulk extraction returns the empty result set, and every metadata query
/// reports [`ItemError::InvalidItem`], there being no valid name to query.
impl<P: HasDims + ?Sized> Storable<P> for () {
    open spec fn spec_names(parent: &P) -> Seq<Seq<char>> {
        Seq::empty()
    }

    open spec fn spec_item_type(parent: &P, item: Seq<char>) -> ItemType {
        vstd::pervasive::arbitrary()
    }

    open spec fn spec_dims(parent: &P, item: Seq<char>) -> Seq<Seq<char>> {
        vstd::pervasive::arbitrary()
    }

    open spec fn spec_get_all(&self, parent: &P) -> Seq<(Seq<char>, Option<ValueView>)> {
        Seq::empty()
    }

    fn names(parent: &P) -> (r: Vec<&str>) {
        let r: Vec<&str> = Vec::new();
        proof {
            assert(r.deep_view() =~= Self::spec_names(parent));
        }
        r
    }

    fn item_type(parent: &P, item: &str) -> (r: Result<ItemType, ItemError>) {
        Err(ItemError::InvalidItem)
    }

    fn dims<'a>(parent: &'a P, item: &str) -> (r: Result<Vec<&'a str>, ItemError>) {
        Err(ItemError::InvalidItem)
    }

    fn get_all(&self, parent: &P) -> (r: Vec<(&str, Option<Value>)>) {
        let r: Vec<(&str, Option<Value>)> = Vec::new();
        proof {
            assert(r.deep_view() =~= self.spec_get_all(parent));
            assert(entry_names(self.spec_get_all(parent)) =~= Self::spec_names(parent));
        }
        r
    }
}

} // verus!
