//! A like or vote published about a message.

use vstd::prelude::*;

verus! {

/// A like or vote published about a certain message.
#[derive(Debug, Clone, Copy, PartialEq, Eq, Structural, Default)]
pub struct Like {
    /// The row id of the author of the like.
    pub author_id: i32,
    /// The integer value of the like, may be positive or negative.
    pub value: i32,
}

} // verus!
