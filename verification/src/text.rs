//! Text as it is taken in: in lower case where a field asks for it.

use vstd::prelude::*;

verus! {

/// The text in lower case, as `str::to_lowercase` gives it.
pub uninterp spec fn lowercase_of(text: Seq<char>) -> Seq<char>;

/// A text that may be absent, in lower case.
pub open spec fn lowered(text: Option<Seq<char>>) -> Option<Seq<char>> {
    match text {
        Some(text) => Some(lowercase_of(text)),
        None => None,
    }
}

/// `str::to_lowercase`: the text with every character in its lower-case
/// form, a function of the text alone.
#[verifier::external_body]
fn std_to_lowercase(text: &str) -> (lower: String)
    ensures
        lower@ == lowercase_of(text@),
{
    text.to_lowercase()
}

/// The text in lower case.
pub fn to_lower_case(text: &str) -> (lower: String)
    ensures
        lower@ == lowercase_of(text@),
{
    std_to_lowercase(text)
}

/// A text that may be absent, in lower case.
pub fn to_lower_case_optional(text: Option<String>) -> (lower: Option<String>)
    ensures
        lower.deep_view() == lowered(text.deep_view()),
{
    match text {
        Some(text) => Some(to_lower_case(text.as_str())),
        None => None,
    }
}

} // verus!
