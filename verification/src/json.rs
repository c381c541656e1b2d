//! Stored names that are written as the inside of a JSON string.

use crate::models::{native_state_of, NativeState};
use crate::text::concat3;
use vstd::prelude::*;

verus! {

/// The text that `serde_json::from_str::<String>` reads from a JSON document,
/// or nothing where it reports an error.
pub uninterp spec fn json_string(document: Seq<char>) -> Option<Seq<char>>;

/// Whether a character stands for itself inside a JSON string.
pub open spec fn is_plain_char(c: char) -> bool {
    c != '"' && c != '\\' && c >= ' '
}

/// Whether every character of a text stands for itself inside a JSON string.
pub open spec fn is_plain(text: Seq<char>) -> bool {
    forall|i: int| 0 <= i < text.len() ==> is_plain_char(#[trigger] text[i])
}

/// A text between double quotes.
pub open spec fn quoted(text: Seq<char>) -> Seq<char> {
    "\""@ + text + "\""@
}

/// What a document of at least two characters holds between its first and its
/// last one.
pub open spec fn inside(document: Seq<char>) -> Seq<char> {
    document.subrange(1, document.len() - 1)
}

/// Whether a document is a JSON string without escapes: double quotes around
/// characters that stand for themselves.
pub open spec fn is_plain_string(document: Seq<char>) -> bool {
    &&& document.len() >= 2
    &&& document[0] == '"'
    &&& document[document.len() - 1] == '"'
    &&& is_plain(inside(document))
}

/// `serde_json::from_str::<String>`: the text of the JSON string that the
/// document consists of, or nothing where the call fails. A string without
/// escapes is read as what stands between its quotes.
#[verifier::external_body]
fn read_json_string(document: &str) -> (text: Option<String>)
    ensures
        (match text {
            Some(value) => Some(value@),
            None => None,
        }) == json_string(document@),
        is_plain_string(document@) ==> text is Some && text->Some_0@ == inside(document@),
{
    serde_json::from_str::<String>(document).ok()
}

/// The native state that a stored text stands for: the text is read as the
/// inside of a JSON string, and what it says must name a state.
pub open spec fn stored_native_state(text: Seq<char>) -> Option<NativeState> {
    match json_string(quoted(text)) {
        Some(name) => native_state_of(name),
        None => None,
    }
}

/// The native state that a decoded name stands for; none if decoding failed.
pub fn native_state_from_decoded(decoded: Option<String>) -> (state: Option<NativeState>)
    ensures
        state == (match decoded {
            Some(name) => native_state_of(name@),
            None => None,
        }),
{
    match decoded {
        Some(name) => NativeState::from_name(name.as_str()),
        None => None,
    }
}

/// The native state that a stored text stands for. A text without quotes,
/// backslashes and control characters stands for the state that it names.
pub fn native_state_from_stored(text: &str) -> (state: Option<NativeState>)
    ensures
        state == stored_native_state(text@),
        is_plain(text@) ==> state == native_state_of(text@),
{
    let document = concat3("\"", text, "\"");
    proof {
        reveal_strlit("\"");
        assert("\""@.len() == 1 && "\""@[0] == '"');
        assert(inside(document@) =~= text@);
    }
    native_state_from_decoded(read_json_string(document.as_str()))
}

/// A stored text without quotes, backslashes and control characters stands for
/// the state that it names.
pub proof fn plain_texts_stand_for_the_state_they_name(
    text: &str,
    stored: Option<NativeState>,
    named: Option<NativeState>,
)
    requires
        call_ensures(native_state_from_stored, (text,), stored),
        call_ensures(NativeState::from_name, (text,), named),
        forall|i: int|
            0 <= i < text@.len() ==> #[trigger] text@[i] != '"' && text@[i] != '\\' && text@[i]
                >= ' ',
    ensures
        stored == named,
{
}

/// A decoded name stands for the state of that name; without one there is none.
pub proof fn decoded_names_stand_for_their_state(
    name: String,
    there: Option<NativeState>,
    missing: Option<NativeState>,
    text: &str,
    named: Option<NativeState>,
)
    requires
        call_ensures(native_state_from_decoded, (Some(name),), there),
        call_ensures(native_state_from_decoded, (None,), missing),
        text@ == name@,
        call_ensures(NativeState::from_name, (text,), named),
    ensures
        there == named,
        missing is None,
{
}

} // verus!
