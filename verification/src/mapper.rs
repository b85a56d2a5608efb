//! Column mappers: the capability that infers a storage type for a field.

use crate::sample::{SampleSpec, SampleValue};
use vstd::prelude::*;

verus! {

/// Infers the storage type of a field from its name and a sample value.
///
/// A mapper is a function of its two arguments: consulting it twice with
/// the same field and sample gives the same type string.
pub trait ColumnMapper {
    /// The type string this mapper gives `field` for `sample`.
    spec fn column_type(&self, field: Seq<char>, sample: SampleSpec) -> Seq<char>;

    /// Infers the storage type of `field` from `sample`.
    fn infer_type(&self, field: &str, sample: &SampleValue) -> (ty: String)
        ensures
            ty@ == self.column_type(field@, sample@),
    ;
}

/// Whether `infer` may answer `ty` when asked about `field` and `sample`.
pub open spec fn answers<F: Fn(&str, &SampleValue) -> String>(
    infer: F,
    field: Seq<char>,
    sample: SampleSpec,
    ty: Seq<char>,
) -> bool {
    exists|f: &str, s: &SampleValue, t: String|
        f@ == field && s@ == sample && t@ == ty && #[trigger] call_ensures(infer, (f, s), t)
}

/// Whether `infer` is a function of a field's name and a sample value: it
/// accepts every question, and gives one question one answer.
pub open spec fn is_deterministic<F: Fn(&str, &SampleValue) -> String>(infer: F) -> bool {
    &&& forall|f: &str, s: &SampleValue| #[trigger] call_requires(infer, (f, s))
    &&& forall|field: Seq<char>, sample: SampleSpec, a: Seq<char>, b: Seq<char>|
        #[trigger] answers(infer, field, sample, a) && #[trigger] answers(infer, field, sample, b)
            ==> a == b
}

/// A column mapper given by a function.
pub struct FnMapper<F: Fn(&str, &SampleValue) -> String> {
    infer: F,
}

impl<F: Fn(&str, &SampleValue) -> String> FnMapper<F> {
    #[verifier::type_invariant]
    spec fn well_formed(&self) -> bool {
        is_deterministic(self.infer)
    }

    /// The function that answers for this mapper.
    pub closed spec fn function(&self) -> F {
        self.infer
    }

    /// Makes a mapper of a function that is deterministic.
    pub fn new(infer: F) -> (mapper: Self)
        requires
            is_deterministic(infer),
        ensures
            mapper.function() == infer,
    {
        FnMapper { infer }
    }
}

impl<F: Fn(&str, &SampleValue) -> String> ColumnMapper for FnMapper<F> {
    open spec fn column_type(&self, field: Seq<char>, sample: SampleSpec) -> Seq<char> {
        choose|ty: Seq<char>| answers(self.function(), field, sample, ty)
    }

    fn infer_type(&self, field: &str, sample: &SampleValue) -> (ty: String)
        ensures
            answers(self.function(), field@, sample@, ty@),
    {
        proof {
            use_type_invariant(self);
        }
        let ty = (self.infer)(field, sample);
        assert(answers(self.function(), field@, sample@, ty@));
        ty
    }
}

} // verus!
