//! Renderings of text that error messages are made of.

use vstd::prelude::*;
use vstd::string::StringExecFns;

verus! {

/// The debug rendering of a text: the text between double quotes, with the
/// characters escaped that a string literal could not hold as they are.
pub uninterp spec fn debug_quoted(text: Seq<char>) -> Seq<char>;

/// Formats a string slice with `{:?}`, that is with `<str as Debug>::fmt`.
/// Trusted: the rendering depends on the text alone.
#[verifier::external_body]
pub(crate) fn debug_quote(text: &str) -> (r: String)
    ensures
        r@ == debug_quoted(text@),
{
    format!("{:?}", text)
}

/// `head` followed by `tail`.
pub(crate) fn joined(head: &str, tail: &str) -> (r: String)
    ensures
        r@ == head@ + tail@,
{
    String::from_str(head).concat(tail)
}

} // verus!
