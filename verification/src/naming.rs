//! Canonical names for fields and tables.

use vstd::prelude::*;

verus! {

/// The snake-case form that `convert_case` gives a name.
pub uninterp spec fn snake_case(name: Seq<char>) -> Seq<char>;

/// Calls `convert_case::Casing::to_case` with `Case::Snake`.
///
/// The conversion splits the name into words at the default boundaries,
/// lower-cases each word and joins the words with underscores. It reads
/// nothing but its argument, so the result is named by [`snake_case`].
#[verifier::external_body]
pub(crate) fn to_snake_case(name: &str) -> (canonical: String)
    ensures
        canonical@ == snake_case(name@),
{
    convert_case::Casing::to_case(&name, convert_case::Case::Snake)
}

/// The canonical form of a declared field or entity name.
pub fn canonical_name(name: &str) -> (canonical: String)
    ensures
        canonical@ == snake_case(name@),
{
    to_snake_case(name)
}

} // verus!
