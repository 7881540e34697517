//! Rows of the `root_posts` and `reply_posts` tables.

use crate::json::{json_index, json_str, JsonValue};
use vstd::prelude::*;

verus! {

/// A post that starts a thread.
#[derive(Debug, Default)]
pub struct RootPost {
    pub flume_seq: i64,
    pub key_id: i32,
    pub author_id: i32,
}

/// A post that replies in the thread started by `root_post_id`.
#[derive(Debug, Default)]
pub struct ReplyPost {
    pub flume_seq: i64,
    pub key_id: i32,
    pub root_post_id: i32,
    pub author_id: i32,
}

/// Where a post goes: it starts a thread, or replies to the thread whose
/// root message has the given key.
#[derive(Debug)]
pub enum PostKind {
    Root,
    Reply(String),
}

/// Classifies a post by its content: a `root` field that is a string makes
/// it a reply to that key; anything else makes it a root.
pub fn post_kind(content: &JsonValue) -> (kind: PostKind)
    ensures
        match json_str(json_index(*content, "root"@)) {
            Some(root) => kind matches PostKind::Reply(k) && k@ == root,
            None => kind is Root,
        },
{
    match content.get("root") {
        Some(JsonValue::String(key)) => PostKind::Reply(key.clone()),
        _ => PostKind::Root,
    }
}

} // verus!
