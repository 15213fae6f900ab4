//! Names of waveforms are matched without regard to case.

use vstd::prelude::*;

verus! {

/// The lower-case form of a text.
pub uninterp spec fn lowercase(text: Seq<char>) -> Seq<char>;

/// The lower-case form of a text, by `str::to_lowercase` of the standard
/// library. That function maps every character as Unicode defines its
/// lower case, which takes tables to state; the contract only says that
/// the result is the one function `lowercase` of the text.
#[verifier::external_body]
pub(crate) fn to_lowercase(text: &str) -> (r: String)
    ensures
        r@ == lowercase(text@),
{
    text.to_lowercase()
}

/// Whether two texts are the same.
pub(crate) fn same_text(a: &str, b: &str) -> (r: bool)
    ensures
        r == (a@ == b@),
{
    a.to_owned() == b.to_owned()
}

} // verus!
