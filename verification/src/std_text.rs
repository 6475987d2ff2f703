//! Standard-library text operations whose results the subscription rules
//! depend on. Their outputs are Unicode-table driven and are named rather
//! than restated.

use vstd::prelude::*;

verus! {

/// The full Unicode upper-case mapping of a string, as `str::to_uppercase`
/// computes it.
pub uninterp spec fn unicode_uppercase(s: Seq<char>) -> Seq<char>;

/// Calls `str::to_uppercase`. The contract claims only that the result is
/// the fixed function [`unicode_uppercase`] of the input text; the case
/// tables themselves are not restated.
#[verifier::external_body]
pub(crate) fn to_uppercase(s: &str) -> (r: String)
    ensures
        r@ == unicode_uppercase(s@),
{
    s.to_uppercase()
}

/// The `Debug` rendering of a string: the text in double quotes with
/// escapes, as `format!("{:?}", s)` produces for a `str`.
pub uninterp spec fn debug_quoted(s: Seq<char>) -> Seq<char>;

/// Calls the `Debug` implementation of `str` through `format!`. The
/// contract claims only that the result is the fixed function
/// [`debug_quoted`] of the input text; the escaping rules are not restated.
#[verifier::external_body]
pub(crate) fn debug_format(s: &str) -> (r: String)
    ensures
        r@ == debug_quoted(s@),
{
    format!("{:?}", s)
}

/// The full Unicode lower-case mapping of a string, as `str::to_lowercase`
/// computes it.
pub uninterp spec fn unicode_lowercase(s: Seq<char>) -> Seq<char>;

/// Calls `str::to_lowercase`. The contract claims only that the result is
/// the fixed function [`unicode_lowercase`] of the input text; the case
/// tables themselves are not restated.
#[verifier::external_body]
pub(crate) fn to_lowercase(s: &str) -> (r: String)
    ensures
        r@ == unicode_lowercase(s@),
{
    s.to_lowercase()
}

} // verus!
