//! The text operations of the standard library that the decisions rest on.
//!
//! Each function here is a thin call into `std` whose contract is taken on
//! trust; what the call returns is given a name so that the callers'
//! contracts can speak of it exactly.

use vstd::prelude::*;
use vstd::utf8::{decode_utf8, valid_utf8};

verus! {

/// The characters that `str::trim` returns for a text: the text without its
/// leading and trailing Unicode white space.
pub uninterp spec fn trimmed(text: Seq<char>) -> Seq<char>;

/// The characters that `str::to_lowercase` returns for a text: its Unicode
/// lower-case mapping.
pub uninterp spec fn lowercased(text: Seq<char>) -> Seq<char>;

/// The characters that `String::from_utf8_lossy` returns for a run of bytes:
/// the decoded text, with U+FFFD standing in for each malformed sequence.
pub uninterp spec fn utf8_lossy(bytes: Seq<u8>) -> Seq<char>;

/// Calls `str::trim`. Trusted: the result is `trimmed` of the argument.
#[verifier::external_body]
pub(crate) fn trim(text: &str) -> (res: &str)
    ensures
        res@ == trimmed(text@),
{
    text.trim()
}

/// Calls `str::to_lowercase`. Trusted: the result is `lowercased` of the
/// argument.
#[verifier::external_body]
pub(crate) fn to_lowercase(text: &str) -> (res: String)
    ensures
        res@ == lowercased(text@),
{
    text.to_lowercase()
}

/// Calls `String::from_utf8_lossy`. Trusted: the result is `utf8_lossy` of the
/// bytes, and well-formed UTF-8 decodes to the text it encodes.
#[verifier::external_body]
pub(crate) fn decode_lossy(bytes: &[u8]) -> (res: String)
    ensures
        res@ == utf8_lossy(bytes@),
        valid_utf8(bytes@) ==> res@ == decode_utf8(bytes@),
{
    String::from_utf8_lossy(bytes).into_owned()
}

} // verus!
