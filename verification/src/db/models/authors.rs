//! Rows of the `authors` table: the feed ids seen so far.

use vstd::prelude::*;

verus! {

/// A feed id and its row id.
#[derive(Debug)]
pub struct Author {
    pub id: Option<i32>,
    pub author: String,
}

} // verus!
