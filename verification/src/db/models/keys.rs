//! Rows of the `keys` table: the message keys seen so far.

use vstd::prelude::*;

verus! {

/// A message key and its row id.
#[derive(Debug)]
pub struct Key {
    pub id: Option<i32>,
    pub key: String,
}

} // verus!
