//! The JSON text in which a list of strings is stored, as `serde_json` reads
//! and writes it.
//!
//! The two functions of this module that call `serde_json` are trusted: their
//! contracts are believed, not proved.

use vstd::prelude::*;

verus! {

/// The list that `serde_json::from_str::<Vec<String>>` reads from a text, or
/// `None` where it rejects the text.
pub uninterp spec fn json_string_list(text: Seq<char>) -> Option<Seq<Seq<char>>>;

/// The text that `serde_json::to_string` writes for a list of strings.
pub uninterp spec fn json_text(list: Seq<Seq<char>>) -> Seq<char>;

#[verifier::external_type_specification]
#[verifier::external_body]
pub struct ExJsonError(serde_json::Error);

/// Calls `serde_json::from_str::<Vec<String>>`. Trusted: the call returns
/// `Ok` with the list that [`json_string_list`] names for the text, and `Err`
/// exactly where that name is `None`; the same text always gives the same
/// answer.
#[verifier::external_body]
pub(crate) fn parse_string_list(text: &str) -> (parsed: Result<Vec<String>, serde_json::Error>)
    ensures
        match parsed {
            Ok(list) => json_string_list(text@) == Some(list.deep_view()),
            Err(_) => json_string_list(text@) is None,
        },
{
    serde_json::from_str::<Vec<String>>(text)
}

/// Calls `serde_json::to_string` on a list of strings. Trusted: the call
/// returns a text for every list of strings (the writer fails only where its
/// sink fails or a value refuses to be written, and it writes strings into
/// memory); the text is the one that [`json_text`] names for the list, and
/// `serde_json::from_str` reads the same list back from it.
#[verifier::external_body]
pub(crate) fn write_string_list(list: &Vec<String>) -> (written: Result<String, serde_json::Error>)
    ensures
        written is Ok,
        written matches Ok(text) ==> text@ == json_text(list.deep_view()) && json_string_list(text@)
            == Some(list.deep_view()),
{
    serde_json::to_string(list)
}

} // verus!
