//! The forms of the project's name that the context binds.

use vstd::prelude::*;
use case::CaseExt;
use heck::ToUpperCamelCase;

verus! {

/// The ASCII upper-case form of `c`; `c` itself where it has none.
pub open spec fn ascii_upper(c: char) -> char {
    if 'a' as u32 <= c as u32 <= 'z' as u32 {
        ((c as u32 - 32) as u8) as char
    } else {
        c
    }
}

/// `text` with its first character in ASCII upper case.
pub open spec fn capitalized(text: Seq<char>) -> Seq<char> {
    if text.len() == 0 {
        text
    } else {
        seq![ascii_upper(text[0])] + text.skip(1)
    }
}

/// What `heck` makes of a text in upper camel case.
pub uninterp spec fn upper_camel(text: Seq<char>) -> Seq<char>;

/// `CaseExt::to_capitalized` of the crate `case`: the text with its first
/// character replaced by its ASCII upper-case form, the rest unchanged.
#[verifier::external_body]
pub(crate) fn to_capitalized(text: &str) -> (out: String)
    ensures
        out@ == capitalized(text@),
{
    text.to_capitalized()
}

/// `ToUpperCamelCase::to_upper_camel_case` of the crate `heck`, which depends
/// on the text alone.
#[verifier::external_body]
pub(crate) fn to_upper_camel_case(text: &str) -> (out: String)
    ensures
        out@ == upper_camel(text@),
{
    text.to_upper_camel_case()
}

} // verus!
