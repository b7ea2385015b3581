//! Calls into other crates. Nothing here is proved: each contract states
//! what the called function is taken to do.

use crate::text::texts;
use vstd::prelude::*;

verus! {

/// The plural that `inflector` forms of a word.
pub uninterp spec fn plural_of(word: Seq<char>) -> Seq<char>;

/// The JSON text that `serde_json` writes for a list of strings.
pub uninterp spec fn json_of_strings(items: Seq<Seq<char>>) -> Seq<char>;

/// `serde_json::Error`, the error of `serde_json::to_string`. It is carried
/// through and never looked into.
#[verifier::external_type_specification]
#[verifier::external_body]
pub struct ExJsonError(serde_json::Error);

/// `inflector::string::pluralize::to_plural` forms the plural of an English
/// word from a fixed table of rules. The result depends on the word alone,
/// and `plural_of` is the name for it.
#[verifier::external_body]
pub(crate) fn to_plural(word: &str) -> (plural: String)
    ensures
        plural@ == plural_of(word@),
{
    inflector::string::pluralize::to_plural(word)
}

/// `serde_json::to_string`, on a list of strings, writes the list as a JSON
/// array. It succeeds on every list of strings: it writes into a buffer in
/// memory, its only errors on this way are errors of the writer, and neither
/// a list nor a string adds an error of its own. The text depends on the
/// strings alone, and `json_of_strings` is the name for it.
#[verifier::external_body]
pub(crate) fn strings_to_json(items: &Vec<String>) -> (r: Result<String, serde_json::Error>)
    ensures
        r is Ok,
        r matches Ok(json) ==> json@ == json_of_strings(texts(items@)),
{
    serde_json::to_string(items)
}

/// `syn::parse_str`, asked for a `syn::Path`, says whether a text is a path
/// of Rust and nothing but a path. The answer comes from the tokenizer of the
/// process that asks, so nothing is claimed about it.
#[verifier::external_body]
pub(crate) fn parses_as_path(s: &str) -> bool {
    syn::parse_str::<syn::Path>(s).is_ok()
}

} // verus!
