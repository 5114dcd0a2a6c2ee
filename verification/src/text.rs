//! Small string helpers shared by the modules that read names and levels.

use vstd::prelude::*;
use vstd::string::StringExecFns;

verus! {

/// Character-for-character equality of two string slices.
pub fn same_text(left: &str, right: &str) -> (same: bool)
    ensures
        same == (left@ == right@),
{
    String::from_str(left) == String::from_str(right)
}

/// The lowercase form of a string, as `str::to_lowercase` defines it: each
/// character replaced by its Unicode lowercase mapping.
pub uninterp spec fn lowercase_of(text: Seq<char>) -> Seq<char>;

/// A string without its leading and trailing whitespace, as `str::trim`
/// defines it: whitespace is the Unicode property `White_Space`.
pub uninterp spec fn trimmed_of(text: Seq<char>) -> Seq<char>;

/// Calls `str::to_lowercase`. Trusted: the result is the lowercase form of
/// the argument and depends on nothing else.
#[verifier::external_body]
pub(crate) fn lowercase(text: &str) -> (lowered: String)
    ensures
        lowered@ == lowercase_of(text@),
{
    text.to_lowercase()
}

/// Calls `str::trim`. Trusted: the result is the argument without its leading
/// and trailing whitespace and depends on nothing else.
#[verifier::external_body]
pub(crate) fn trimmed(text: &str) -> (inner: &str)
    ensures
        inner@ == trimmed_of(text@),
{
    text.trim()
}

} // verus!
