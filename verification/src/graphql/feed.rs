//! A feed of threads.

use super::thread::Thread;
use vstd::prelude::*;

verus! {

/// A feed: a list of threads.
#[derive(Debug)]
pub struct Feed {
    pub threads: Vec<Thread>,
}

} // verus!
