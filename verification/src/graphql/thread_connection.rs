//! A page of threads.

use super::page_info::PageInfo;
use super::post::Post;
use super::thread::Thread;
use vstd::prelude::*;

verus! {

/// A page of threads: the key ids of their root posts, newest first, and
/// the page information.
#[derive(Debug)]
pub struct ThreadConnection {
    pub next: i32,
    pub page_info: PageInfo,
    pub thread_keys: Vec<i32>,
}

/// An edge to one thread.
#[derive(Debug, Clone, Copy, PartialEq, Eq, Structural)]
pub struct ThreadEdge {
    pub node: Thread,
}

/// One edge per root key id, in order; the threads are public.
pub open spec fn edges_of(keys: Seq<i32>) -> Seq<ThreadEdge> {
    keys.map_values(
        |key_id: i32| ThreadEdge { node: Thread { is_private: false, root: Post { key_id } } },
    )
}

impl ThreadConnection {
    /// The edges in this connection.
    pub fn edges(&self) -> (edges: Vec<ThreadEdge>)
        ensures
            edges@ == edges_of(self.thread_keys@),
    {
        let mut edges: Vec<ThreadEdge> = Vec::new();
        let mut i: usize = 0;
        while i < self.thread_keys.len()
            invariant
                i <= self.thread_keys@.len(),
                edges@ == edges_of(self.thread_keys@.take(i as int)),
            decreases self.thread_keys.len() - i,
        {
            let key_id = self.thread_keys[i];
            edges.push(ThreadEdge { node: Thread { is_private: false, root: Post { key_id } } });
            assert(edges@ =~= edges_of(self.thread_keys@.take(i + 1)));
            i = i + 1;
        }
        assert(self.thread_keys@.take(self.thread_keys@.len() as int) =~= self.thread_keys@);
        edges
    }

    /// The number of threads in this page, cut to an `i32`.
    pub fn total_count(&self) -> (count: i32)
        ensures
            count == self.thread_keys@.len() as i32,
    {
        self.thread_keys.len() as i32
    }
}

} // verus!
