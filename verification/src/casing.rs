//! Identifier-case conversions for generated code, delegated to the heck
//! crate. The conversions are deterministic functions of the input
//! characters, so their results are only named here, never respelled.

use vstd::prelude::*;
use heck::ToSnakeCase;
use heck::ToUpperCamelCase;

verus! {

/// The snake_case rendering of a name.
pub uninterp spec fn snake_of(s: Seq<char>) -> Seq<char>;

/// The UpperCamelCase rendering of a name.
pub uninterp spec fn camel_of(s: Seq<char>) -> Seq<char>;

/// Relies on heck's `ToSnakeCase for str`: lower-cases the words of the name
/// and joins them with underscores, from the characters alone.
#[verifier::external_body]
pub fn to_snake_case(s: &str) -> (r: String)
    ensures
        r@ == snake_of(s@),
{
    ToSnakeCase::to_snake_case(s)
}

/// Relies on heck's `ToUpperCamelCase for str`: capitalizes the words of the
/// name and joins them directly, from the characters alone.
#[verifier::external_body]
pub fn to_camel_case(s: &str) -> (r: String)
    ensures
        r@ == camel_of(s@),
{
    ToUpperCamelCase::to_upper_camel_case(s)
}

} // verus!
