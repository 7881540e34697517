//! A thread: a root post and its replies.

use super::post::Post;
use vstd::prelude::*;

verus! {

/// A thread of posts, named by its root post.
#[derive(Debug, Clone, Copy, PartialEq, Eq, Structural)]
pub struct Thread {
    /// Whether the thread's messages are encrypted.
    pub is_private: bool,
    /// The root (initial) post.
    pub root: Post,
}

} // verus!
