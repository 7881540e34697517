//! Rows of the `blobs` table: the blob ids seen so far.

use vstd::prelude::*;

verus! {

/// A blob id and its row id.
#[derive(Debug)]
pub struct Blob {
    pub id: Option<i32>,
    pub blob: String,
}

} // verus!
