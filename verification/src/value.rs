use vstd::prelude::*;

verus! {

/// The closed set of scalar kinds an item can declare. Pure metadata,
/// comparable by equality, carrying no payload.
#[derive(Debug, Clone, Copy, PartialEq, Eq, Structural)]
pub enum ItemType {
    U64,
    I64,
    F64,
    F32,
    Bool,
    String,
}

/// The mathematical model of a [`Value`]: the same twelve variants, with
/// every vector payload read as a mathematical sequence and every text
/// payload read as a sequence of characters.
pub enum ValueView {
    U64(Seq<u64>),
    I64(Seq<i64>),
    F64(Seq<u64>),
    F32(Seq<u32>),
    Bool(Seq<bool>),
    ScalarString(Seq<char>),
    ScalarU64(u64),
    ScalarI64(i64),
    ScalarF64(u64),
    ScalarF32(u32),
    ScalarBool(bool),
    Strings(Seq<Seq<char>>),
}

/// A tagged value: either a homogeneous ordered vector or a single scalar of
/// one of six primitive kinds. Equality is structural (variant plus payload);
/// there is no implicit widening or narrowing between variants.
///
/// Floating-point payloads are held as their IEEE-754 bit patterns: `F64` and
/// `ScalarF64` carry the `u64` bit patterns of 64-bit floats, `F32` and
/// `ScalarF32` the `u32` bit patterns of 32-bit floats. The conversion
/// between a float and its bit pattern is lossless, so callers on either
/// side of the contract can move between the two representations freely.
#[derive(Debug, Clone, PartialEq)]
pub enum Value {
    U64(Vec<u64>),
    I64(Vec<i64>),
    F64(Vec<u64>),
    F32(Vec<u32>),
    Bool(Vec<bool>),
    ScalarString(String),
    ScalarU64(u64),
    ScalarI64(i64),
    ScalarF64(u64),
    ScalarF32(u32),
    ScalarBool(bool),
    Strings(Vec<String>),
}

impl View for Value {
    type V = ValueView;

    open spec fn view(&self) -> ValueView {
        match self {
            Value::U64(v) => ValueView::U64(v@),
            Value::I64(v) => ValueView::I64(v@),
            Value::F64(v) => ValueView::F64(v@),
            Value::F32(v) => ValueView::F32(v@),
            Value::Bool(v) => ValueView::Bool(v@),
            Value::ScalarString(s) => ValueView::ScalarString(s@),
            Value::ScalarU64(x) => ValueView::ScalarU64(*x),
            Value::ScalarI64(x) => ValueView::ScalarI64(*x),
            Value::ScalarF64(x) => ValueView::ScalarF64(*x),
            Value::ScalarF32(x) => ValueView::ScalarF32(*x),
            Value::ScalarBool(x) => ValueView::ScalarBool(*x),
            Value::Strings(v) => ValueView::Strings(v.deep_view()),
        }
    }
}

impl DeepView for Value {
    type V = ValueView;

    open spec fn deep_view(&self) -> ValueView {
        self.view()
    }
}

impl From<Vec<u64>> for Value {
    /// Builds the vector variant holding unsigned 64-bit integers.
    fn from(value: Vec<u64>) -> (r: Self)
        ensures
            r@ == ValueView::U64(value@),
    {
        Value::U64(value)
    }
}

impl vstd::std_specs::convert::FromSpecImpl<Vec<u64>> for Value {
    open spec fn obeys_from_spec() -> bool {
        true
    }

    open spec fn from_spec(value: Vec<u64>) -> Value {
        Value::U64(value)
    }
}

impl From<Vec<i64>> for Value {
    /// Builds the vector variant holding signed 64-bit integers.
    fn from(value: Vec<i64>) -> (r: Self)
        ensures
            r@ == ValueView::I64(value@),
    {
        Value::I64(value)
    }
}

impl vstd::std_specs::convert::FromSpecImpl<Vec<i64>> for Value {
    open spec fn obeys_from_spec() -> bool {
        true
    }

    open spec fn from_spec(value: Vec<i64>) -> Value {
        Value::I64(value)
    }
}

impl From<Vec<bool>> for Value {
    /// Builds the vector variant holding booleans.
    fn from(value: Vec<bool>) -> (r: Self)
        ensures
            r@ == ValueView::Bool(value@),
    {
        Value::Bool(value)
    }
}

impl vstd::std_specs::convert::FromSpecImpl<Vec<bool>> for Value {
    open spec fn obeys_from_spec() -> bool {
        true
    }

    open spec fn from_spec(value: Vec<bool>) -> Value {
        Value::Bool(value)
    }
}

impl From<Vec<String>> for Value {
    /// Builds the vector variant holding text values.
    fn from(value: Vec<String>) -> (r: Self)
        ensures
            r@ == ValueView::Strings(value.deep_view()),
    {
        Value::Strings(value)
    }
}

impl vstd::std_specs::convert::FromSpecImpl<Vec<String>> for Value {
    open spec fn obeys_from_spec() -> bool {
        true
    }

    open spec fn from_spec(value: Vec<String>) -> Value {
        Value::Strings(value)
    }
}

impl From<u64> for Value {
    /// Builds the scalar variant holding an unsigned 64-bit integer.
    fn from(value: u64) -> (r: Self)
        ensures
            r@ == ValueView::ScalarU64(value),
    {
        Value::ScalarU64(value)
    }
}

impl vstd::std_specs::convert::FromSpecImpl<u64> for Value {
    open spec fn obeys_from_spec() -> bool {
        true
    }

    open spec fn from_spec(value: u64) -> Value {
        Value::ScalarU64(value)
    }
}

impl From<i64> for Value {
    /// Builds the scalar variant holding a signed 64-bit integer.
    fn from(value: i64) -> (r: Self)
        ensures
            r@ == ValueView::ScalarI64(value),
    {
        Value::ScalarI64(value)
    }
}

impl vstd::std_specs::convert::FromSpecImpl<i64> for Value {
    open spec fn obeys_from_spec() -> bool {
        true
    }

    open spec fn from_spec(value: i64) -> Value {
        Value::ScalarI64(value)
    }
}

impl From<bool> for Value {
    /// Builds the scalar variant holding a boolean.
    fn from(value: bool) -> (r: Self)
        ensures
            r@ == ValueView::ScalarBool(value),
    {
        Value::ScalarBool(value)
    }
}

impl vstd::std_specs::convert::FromSpecImpl<bool> for Value {
    open spec fn obeys_from_spec() -> bool {
        true
    }

    open spec fn from_spec(value: bool) -> Value {
        Value::ScalarBool(value)
    }
}

impl Value {
    /// Builds the 64-bit float vector variant from IEEE-754 bit patterns.
    pub fn from_f64_bits(bits: Vec<u64>) -> (r: Value)
        ensures
            r@ == ValueView::F64(bits@),
    {
        Value::F64(bits)
    }

    /// Builds the 32-bit float vector variant from IEEE-754 bit patterns.
    pub fn from_f32_bits(bits: Vec<u32>) -> (r: Value)
        ensures
            r@ == ValueView::F32(bits@),
    {
        Value::F32(bits)
    }

    /// Builds the scalar 64-bit float variant from an IEEE-754 bit pattern.
    pub fn from_scalar_f64_bits(bits: u64) -> (r: Value)
        ensures
            r@ == ValueView::ScalarF64(bits),
    {
        Value::ScalarF64(bits)
    }

    /// Builds the scalar 32-bit float variant from an IEEE-754 bit pattern.
    pub fn from_scalar_f32_bits(bits: u32) -> (r: Value)
        ensures
            r@ == ValueView::ScalarF32(bits),
    {
        Value::ScalarF32(bits)
    }
}

} // verus!
