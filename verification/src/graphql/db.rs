//! The `process` mutation: where in the log the next chunk starts.

use vstd::prelude::*;

verus! {

/// Mutations available to change the state of the db.
#[derive(Debug, Default)]
pub struct DbMutation {}

/// Queries about the state of the db.
#[derive(Debug, Default)]
pub struct Db {}

/// The part of the log one `process` call reads: from the entry at offset
/// `start_offset`, skipping `skip` entries, then at most `take` entries.
#[derive(Debug, Clone, Copy, PartialEq, Eq, Structural)]
pub struct ProcessWindow {
    pub start_offset: u64,
    pub skip: usize,
    pub take: usize,
}

/// Where the next `process` call reads, given the newest sequence number
/// already stored (none when the db is empty) and the chunk size asked for.
/// It starts at that entry and skips it, since it is stored already; on an
/// empty db it starts at the beginning and skips nothing. It takes
/// `chunk_size` entries, read as a `usize` (a negative size wraps to a very
/// large one).
pub fn process_window(latest: Option<u64>, chunk_size: i32) -> (window: ProcessWindow)
    ensures
        window.start_offset == match latest {
            Some(s) => s,
            None => 0,
        },
        window.skip == (if latest is Some { 1usize } else { 0usize }),
        window.take == chunk_size as usize,
{
    let skip: usize = match latest {
        None => 0,
        Some(_) => 1,
    };
    let start_offset: u64 = match latest {
        Some(s) => s,
        None => 0,
    };
    ProcessWindow { start_offset, skip, take: chunk_size as usize }
}

} // verus!
