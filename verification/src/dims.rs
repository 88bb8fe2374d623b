use std::collections::HashMap;

use vstd::prelude::*;

use crate::value::Value;

verus! {

/// The capability a "parent" context object exposes: named dimension sizes
/// and, optionally, named coordinate labels. Required behaviour is the size
/// lookup; the coordinate lookup carries a safe default, so implementers
/// opting out of coordinate labels need no code.
pub trait HasDims {
    /// The mapping from every known dimension name to its size. Backends use
    /// this to pre-allocate or validate shape.
    fn dim_sizes(&self) -> HashMap<String, u64>;

    /// The mapping from dimension name to a labeling [`Value`], typically a
    /// vector variant whose length equals the dimension's size. The default
    /// implementation returns the empty mapping.
    fn coords(&self) -> (r: HashMap<String, Value>)
        default_ensures
            r@ == Map::<String, Value>::empty(),
    {
        HashMap::new()
    }
}

} // verus!
