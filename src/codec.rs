//! The text form in which a session state is stored: a JSON object whose
//! members are the state's entries.

use std::collections::BTreeMap;
use vstd::prelude::*;
use crate::error::SessionError;
use crate::assoc::{entries_map, keys_distinct};
use crate::payload::{pairs_view, SessionState};

verus! {

/// The JSON text that serde_json writes for an object holding the mapping.
pub uninterp spec fn json_text(m: Map<Seq<char>, Seq<char>>) -> Seq<char>;

/// The mapping that serde_json reads from a text, if the text is a JSON
/// object whose members all have string values.
pub uninterp spec fn json_parse(text: Seq<char>) -> Option<Map<Seq<char>, Seq<char>>>;

/// Relies on serde_json::to_string over the entries collected into a
/// `BTreeMap<&str, &str>`; the keys are distinct, so every entry becomes one
/// member. The members come out in key order, so the text depends on the mapping
/// alone. serde_json documents that serialising fails only for a failing
/// `Serialize` impl or non-string map keys, neither of which occurs here, and
/// its `from_str` reads the text back as the same mapping.
#[verifier::external_body]
fn json_object_text(entries: &Vec<(String, String)>) -> (r: String)
    requires
        keys_distinct(pairs_view(entries@)),
    ensures
        r@ == json_text(entries_map(pairs_view(entries@))),
        json_parse(r@) == Some(entries_map(pairs_view(entries@))),
{
    let object: BTreeMap<&str, &str> = entries.iter().map(|e| (e.0.as_str(), e.1.as_str())).collect();
    serde_json::to_string(&object).expect("a map of strings always serialises")
}

/// Relies on serde_json::from_str into a `BTreeMap<String, String>`: it
/// succeeds exactly on a JSON object whose members all have string values,
/// and the map's entries are handed back in key order.
#[verifier::external_body]
fn json_object_entries(text: &str) -> (r: Option<Vec<(String, String)>>)
    ensures
        match r {
            Some(v) => json_parse(text@) == Some(entries_map(pairs_view(v@))),
            None => json_parse(text@) is None,
        },
{
    serde_json::from_str::<BTreeMap<String, String>>(text).ok().map(|m| m.into_iter().collect())
}

/// What decoding a text yields: the mapping it holds, or a deserialization
/// error when it holds none.
pub open spec fn decode_view(text: Seq<char>) -> Result<Map<Seq<char>, Seq<char>>, SessionError> {
    match json_parse(text) {
        Some(m) => Ok(m),
        None => Err(SessionError::Deserialization),
    }
}

/// Encodes a session state as a JSON object; decoding the text gives the
/// same state back.
pub fn encode(state: &SessionState) -> (r: String)
    requires
        state.wf(),
    ensures
        r@ == json_text(state@),
        decode_view(r@) == Ok::<Map<Seq<char>, Seq<char>>, SessionError>(state@),
{
    json_object_text(state.entries())
}

/// Decodes a session state from its JSON text.
pub fn decode(text: &str) -> (r: Result<SessionState, SessionError>)
    ensures
        match r {
            Ok(state) => state.wf() && decode_view(text@) == Ok::<Map<Seq<char>, Seq<char>>, SessionError>(state@),
            Err(e) => decode_view(text@) == Err::<Map<Seq<char>, Seq<char>>, SessionError>(e),
        },
{
    match json_object_entries(text) {
        Some(entries) => Ok(SessionState::from_entries(entries)),
        None => Err(SessionError::Deserialization),
    }
}

} // verus!
