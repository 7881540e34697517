//! Rows of the `votes` table: one vote per author and voted message.

use crate::json::{json_index, json_str, number_as_i64, JsonNumber, JsonValue};
use vstd::prelude::*;

verus! {

/// A stored vote.
#[derive(Debug, Default)]
pub struct Vote {
    pub id: Option<i32>,
    pub link_from_author_id: Option<i32>,
    pub link_to_key_id: Option<i32>,
    pub value: Option<i32>,
}

/// What a vote message says: the key it votes on, and its value when that is
/// an integer that fits in an `i64` (then cut to its low 32 bits).
#[derive(Debug)]
pub struct VoteLink {
    pub link: String,
    pub value: Option<i32>,
}

/// `n.as_i64()` cut to an `i32`.
pub open spec fn vote_value(n: JsonNumber) -> Option<i32> {
    match number_as_i64(n) {
        Some(v) => Some(v as i32),
        None => None,
    }
}

/// Reads the vote in a message's content: `vote.value` must be a number and
/// `vote.link` a string, or there is none.
pub fn vote_link(content: &JsonValue) -> (vote: Option<VoteLink>)
    ensures
        ({
            let v = json_index(*content, "vote"@);
            match (json_index(v, "value"@), json_str(json_index(v, "link"@))) {
                (JsonValue::Number(n), Some(link)) => vote matches Some(x) && x.link@ == link
                    && x.value == vote_value(n),
                _ => vote is None,
            }
        }),
{
    let vote = match content.get("vote") {
        Some(v) => v,
        None => {
            return None;
        },
    };
    match (vote.get("value"), vote.get("link")) {
        (Some(JsonValue::Number(n)), Some(JsonValue::String(link))) => {
            let value = match n.as_i64() {
                Some(v) => Some(v as i32),
                None => None,
            };
            Some(VoteLink { link: link.clone(), value })
        },
        _ => None,
    }
}

} // verus!
