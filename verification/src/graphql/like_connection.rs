//! The connection to the likes on a message.

use vstd::prelude::*;

verus! {

/// The connection to the likes on a message.
#[derive(Debug, Clone, Copy, PartialEq, Eq, Structural)]
pub struct LikeConnection {
    /// The number of likes.
    pub count: i32,
}

} // verus!
