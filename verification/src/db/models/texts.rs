//! The full-text index of message texts.

use crate::json::{json_index, json_str, JsonValue};
use vstd::prelude::*;

verus! {

/// The text that a message's content indexes: its `text` field, when that is
/// a string.
pub fn text_of(content: &JsonValue) -> (text: Option<String>)
    ensures
        match json_str(json_index(*content, "text"@)) {
            Some(t) => text matches Some(s) && s@ == t,
            None => text is None,
        },
{
    match content.get("text") {
        Some(JsonValue::String(s)) => Some(s.clone()),
        _ => None,
    }
}

} // verus!
