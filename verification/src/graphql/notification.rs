//! Notifications for an author: mentions published after a cursor.

use vstd::prelude::*;

verus! {

/// The mentions of `author_id` in messages after the sequence number
/// `after_cursor`.
#[derive(Debug, Clone, Copy, PartialEq, Eq, Structural, Default)]
pub struct Notification {
    pub after_cursor: i64,
    pub author_id: i32,
}

} // verus!
