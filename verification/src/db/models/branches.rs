//! Rows of the `branches` table: the messages a message names as its
//! immediate predecessors in a thread.

use super::string_views;
use crate::json::{json_get, json_str, JsonValue};
use vstd::prelude::*;

verus! {

/// The branch keys a content names: its `branch` field, when that is a string
/// (one key) or an array of strings (each, in order). Any other `branch`, or
/// none, names no key.
pub open spec fn branches_of(content: JsonValue) -> Seq<Seq<char>> {
    match json_get(content, "branch"@) {
        Some(JsonValue::Array(items)) => items@.map_values(|v: JsonValue| json_str(v)->0),
        Some(JsonValue::String(s)) => seq![s@],
        _ => Seq::empty(),
    }
}

/// The keys a readable `branch` names: for an array of strings, one key per
/// element, each that element's text, in order; for a string, that one
/// key; for anything else, or no `branch`, none.
pub proof fn lemma_branches_of_shape(content: JsonValue)
    requires
        branches_readable(content),
    ensures
        json_get(content, "branch"@) matches Some(JsonValue::Array(items)) ==> {
            &&& branches_of(content).len() == items@.len()
            &&& forall|i: int|
                0 <= i < items@.len() ==> json_str(#[trigger] items@[i]) == Some(
                    branches_of(content)[i],
                )
        },
        json_get(content, "branch"@) matches Some(JsonValue::String(s)) ==> branches_of(content)
            == seq![s@],
        !(json_get(content, "branch"@) matches Some(JsonValue::Array(_))) && !(json_get(
            content,
            "branch"@,
        ) matches Some(JsonValue::String(_))) ==> branches_of(content).len() == 0,
{
    match json_get(content, "branch"@) {
        Some(JsonValue::Array(items)) => {
            assert forall|i: int| 0 <= i < items@.len() implies json_str(#[trigger] items@[i])
                == Some(branches_of(content)[i]) by {
                assert(items@[i] is String);
            }
        },
        _ => {},
    }
}

/// Whether every element of a `branch` array is a string; reading a branch
/// that is not panics.
pub open spec fn branches_readable(content: JsonValue) -> bool {
    match json_get(content, "branch"@) {
        Some(JsonValue::Array(items)) => forall|i: int|
            0 <= i < items@.len() ==> #[trigger] items@[i] is String,
        _ => true,
    }
}

/// Whether the branches of a content can be read without panicking.
pub fn are_branches_readable(content: &JsonValue) -> (readable: bool)
    ensures
        readable == branches_readable(*content),
{
    match content.get("branch") {
        Some(JsonValue::Array(items)) => {
            let mut i: usize = 0;
            while i < items.len()
                invariant
                    i <= items@.len(),
                    json_get(*content, "branch"@) == Some(JsonValue::Array(*items)),
                    forall|j: int| 0 <= j < i ==> #[trigger] items@[j] is String,
                decreases items.len() - i,
            {
                if !items[i].is_string() {
                    assert(!(items@[i as int] is String));
                    return false;
                }
                i = i + 1;
            }
            true
        },
        _ => true,
    }
}

/// Reads the branch keys of a message's content.
pub fn branch_keys(content: &JsonValue) -> (keys: Vec<String>)
    requires
        branches_readable(*content),
    ensures
        string_views(keys@) == branches_of(*content),
{
    match content.get("branch") {
        Some(JsonValue::Array(items)) => {
            let mut keys: Vec<String> = Vec::new();
            let mut i: usize = 0;
            while i < items.len()
                invariant
                    i <= items@.len(),
                    forall|j: int| 0 <= j < items@.len() ==> #[trigger] items@[j] is String,
                    string_views(keys@) == items@.take(i as int).map_values(
                        |v: JsonValue| json_str(v)->0,
                    ),
                decreases items.len() - i,
            {
                let ghost prev = keys@;
                assert(items@.take(i + 1) =~= items@.take(i as int).push(items@[i as int]));
                match &items[i] {
                    JsonValue::String(s) => {
                        keys.push(s.clone());
                        assert(string_views(keys@) =~= string_views(prev).push(s@));
                    },
                    _ => {},
                }
                assert(string_views(keys@) =~= items@.take(i + 1).map_values(
                    |v: JsonValue| json_str(v)->0,
                ));
                i = i + 1;
            }
            assert(items@.take(items@.len() as int) =~= items@);
            keys
        },
        Some(JsonValue::String(s)) => {
            let mut keys: Vec<String> = Vec::new();
            keys.push(s.clone());
            assert(string_views(keys@) =~= seq![s@]);
            keys
        },
        _ => {
            let keys: Vec<String> = Vec::new();
            assert(string_views(keys@) =~= Seq::<Seq<char>>::empty());
            keys
        },
    }
}

} // verus!
