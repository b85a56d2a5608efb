//! Declared value types and the sample values shown to a column mapper.

use vstd::prelude::*;

verus! {

/// A value as a column mapper sees it.
///
/// A float is held by its bit pattern, a map by its entries in their order.
#[derive(Debug)]
pub enum SampleValue {
    Null,
    Bool(bool),
    I32(i32),
    I64(i64),
    U32(u32),
    U64(u64),
    /// A 32-bit float, by its bits.
    F32(u32),
    /// A 64-bit float, by its bits.
    F64(u64),
    Text(String),
    Binary(Vec<u8>),
    Array(Vec<SampleValue>),
    /// A map, as its keys and values in order.
    Object(Vec<(SampleValue, SampleValue)>),
    /// A value of a named extension type, with the value it wraps.
    Ext(&'static str, Box<SampleValue>),
}

/// Mathematical content of a [`SampleValue`].
pub enum SampleSpec {
    Null,
    Bool(bool),
    I32(i32),
    I64(i64),
    U32(u32),
    U64(u64),
    F32(u32),
    F64(u64),
    Text(Seq<char>),
    Binary(Seq<u8>),
    Array(Seq<SampleSpec>),
    Object(Seq<(SampleSpec, SampleSpec)>),
    Ext(Seq<char>, Box<SampleSpec>),
}

/// What a sample value holds, kind by kind and down to its leaves.
pub open spec fn content(sample: SampleValue) -> SampleSpec
    decreases sample,
{
    match sample {
        SampleValue::Null => SampleSpec::Null,
        SampleValue::Bool(b) => SampleSpec::Bool(b),
        SampleValue::I32(n) => SampleSpec::I32(n),
        SampleValue::I64(n) => SampleSpec::I64(n),
        SampleValue::U32(n) => SampleSpec::U32(n),
        SampleValue::U64(n) => SampleSpec::U64(n),
        SampleValue::F32(bits) => SampleSpec::F32(bits),
        SampleValue::F64(bits) => SampleSpec::F64(bits),
        SampleValue::Text(s) => SampleSpec::Text(s@),
        SampleValue::Binary(b) => SampleSpec::Binary(b@),
        SampleValue::Array(items) => SampleSpec::Array(
            Seq::new(
                items@.len(),
                |i: int|
                    if 0 <= i < items@.len() {
                        content(items@[i])
                    } else {
                        SampleSpec::Null
                    },
            ),
        ),
        SampleValue::Object(entries) => SampleSpec::Object(
            Seq::new(
                entries@.len(),
                |i: int|
                    if 0 <= i < entries@.len() {
                        (content(entries@[i].0), content(entries@[i].1))
                    } else {
                        (SampleSpec::Null, SampleSpec::Null)
                    },
            ),
        ),
        SampleValue::Ext(name, inner) => SampleSpec::Ext(name@, Box::new(content(*inner))),
    }
}

impl View for SampleValue {
    type V = SampleSpec;

    open spec fn view(&self) -> SampleSpec {
        content(*self)
    }
}

/// The value type that a field is declared with.
#[derive(Debug)]
pub enum DeclaredType {
    /// A value that may be absent; its default is the absent value.
    Optional,
    Bool,
    I32,
    I64,
    U32,
    U64,
    F32,
    F64,
    Text,
    Binary,
    /// Any other type, known by its default value: a sequence, a map, an
    /// extension type.
    Sampled(SampleValue),
}

/// The default value of a declared type: absent, false, zero or empty, or
/// the value that the declaration carries.
pub open spec fn default_sample(declared: DeclaredType) -> SampleSpec {
    match declared {
        DeclaredType::Optional => SampleSpec::Null,
        DeclaredType::Bool => SampleSpec::Bool(false),
        DeclaredType::I32 => SampleSpec::I32(0),
        DeclaredType::I64 => SampleSpec::I64(0),
        DeclaredType::U32 => SampleSpec::U32(0),
        DeclaredType::U64 => SampleSpec::U64(0),
        DeclaredType::F32 => SampleSpec::F32(0),
        DeclaredType::F64 => SampleSpec::F64(0),
        DeclaredType::Text => SampleSpec::Text(Seq::empty()),
        DeclaredType::Binary => SampleSpec::Binary(Seq::empty()),
        DeclaredType::Sampled(value) => value@,
    }
}

impl DeclaredType {
    /// Builds the default value of the type, from which a mapper infers a
    /// storage type.
    pub fn into_sample(self) -> (value: SampleValue)
        ensures
            value@ == default_sample(self),
    {
        match self {
            DeclaredType::Optional => SampleValue::Null,
            DeclaredType::Bool => SampleValue::Bool(false),
            DeclaredType::I32 => SampleValue::I32(0),
            DeclaredType::I64 => SampleValue::I64(0),
            DeclaredType::U32 => SampleValue::U32(0),
            DeclaredType::U64 => SampleValue::U64(0),
            DeclaredType::F32 => SampleValue::F32(0),
            DeclaredType::F64 => SampleValue::F64(0),
            DeclaredType::Text => SampleValue::Text(String::new()),
            DeclaredType::Binary => SampleValue::Binary(Vec::new()),
            DeclaredType::Sampled(value) => value,
        }
    }
}

} // verus!
