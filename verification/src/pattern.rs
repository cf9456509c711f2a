//! Whether a file name is a regular expression.

use vstd::prelude::*;

verus! {

/// The error type of the `regex` crate. Nothing is known of what it holds; it
/// is carried to the caller as it came.
#[verifier::external_type_specification]
#[verifier::external_body]
pub struct ExRegexError(regex::Error);

/// Whether `regex::Regex::new` accepts this text: it is a valid pattern and
/// what it compiles to stays under the crate's default size limit.
pub uninterp spec fn pattern_compiles(pattern: Seq<char>) -> bool;

/// Calls `regex::Regex::new` and keeps only its error. Trusted: there is an
/// error exactly where that function refuses the text. The compiled expression
/// is dropped, since no destination is computed from it.
#[verifier::external_body]
pub(crate) fn check_pattern(pattern: &str) -> (refusal: Option<regex::Error>)
    ensures
        refusal.is_none() == pattern_compiles(pattern@),
{
    regex::Regex::new(pattern).err()
}

} // verus!
