//! Helpers on strings and lists of strings.

use vstd::prelude::*;

verus! {

/// Whether a list of strings holds a given text.
pub fn contains_text(list: &Vec<String>, text: &String) -> (found: bool)
    ensures
        found == list.deep_view().contains(text@),
{
    let mut i: usize = 0;
    while i < list.len()
        invariant
            i <= list.len(),
            forall|k: int| 0 <= k < i ==> list.deep_view()[k] != text@,
        decreases list.len() - i,
    {
        if list[i] == *text {
            assert(list.deep_view()[i as int] == text@);
            return true;
        }
        i += 1;
    }
    false
}

/// The lower-case form of a text as `str::to_lowercase` gives it.
pub uninterp spec fn lowercased(text: Seq<char>) -> Seq<char>;

/// Calls `str::to_lowercase`. The contract only names the result: the same
/// text gives the same lower-case form.
#[verifier::external_body]
pub(crate) fn to_lowercase(text: &str) -> (lower: String)
    ensures
        lower@ == lowercased(text@),
{
    text.to_lowercase()
}

/// The text of an attribute that may be absent: the text itself, or the
/// default where there is none.
pub open spec fn text_or(text: Option<Seq<char>>, default: Seq<char>) -> Seq<char> {
    match text {
        Some(text) => text,
        None => default,
    }
}

/// Gives the text of an attribute that may be absent, or the default.
pub fn text_or_default(text: Option<String>, default: &str) -> (result: String)
    ensures
        result@ == text_or(text.deep_view(), default@),
{
    match text {
        Some(text) => text,
        None => String::from_str(default),
    }
}

} // verus!
