//! Rows of the `messages` table: what a message row records of the
//! message's content. The row's timestamps are floats and stay with the
//! caller.

use crate::json::{json_index, json_str, JsonValue};
use vstd::prelude::*;

verus! {

/// The content fields a message row records: its `type`, and the keys of
/// the thread root and of the message it forks from, each when that field
/// is a string.
#[derive(Debug)]
pub struct MessageFields {
    pub content_type: Option<String>,
    pub root: Option<String>,
    pub fork: Option<String>,
}

/// The string under `key` in a content, if it is one.
fn string_field(content: &JsonValue, key: &str) -> (field: Option<String>)
    ensures
        match json_str(json_index(*content, key@)) {
            Some(t) => field matches Some(s) && s@ == t,
            None => field is None,
        },
{
    match content.get(key) {
        Some(JsonValue::String(s)) => Some(s.clone()),
        _ => None,
    }
}

/// Whether `field` holds the text `expected`, or nothing when there is none.
pub open spec fn field_is(field: Option<String>, expected: Option<Seq<char>>) -> bool {
    match expected {
        Some(t) => field matches Some(s) && s@ == t,
        None => field is None,
    }
}

/// Reads the fields a message row records of a content.
pub fn message_fields(content: &JsonValue) -> (fields: MessageFields)
    ensures
        field_is(fields.content_type, json_str(json_index(*content, "type"@))),
        field_is(fields.root, json_str(json_index(*content, "root"@))),
        field_is(fields.fork, json_str(json_index(*content, "fork"@))),
{
    MessageFields {
        content_type: string_field(content, "type"),
        root: string_field(content, "root"),
        fork: string_field(content, "fork"),
    }
}

} // verus!
