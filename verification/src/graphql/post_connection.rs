//! A page of posts.

use super::page_info::PageInfo;
use super::post::Post;
use vstd::prelude::*;

verus! {

/// A page of posts: their key ids, newest first, and the page information.
#[derive(Debug)]
pub struct PostConnection {
    pub next: i32,
    pub page_info: PageInfo,
    pub post_keys: Vec<i32>,
}

/// One post per key id, in order.
pub open spec fn posts_of(keys: Seq<i32>) -> Seq<Post> {
    keys.map_values(|key_id: i32| Post { key_id })
}

/// One post per key id, in order.
pub fn posts_for(keys: &[i32]) -> (posts: Vec<Post>)
    ensures
        posts@ == posts_of(keys@),
{
    let mut posts: Vec<Post> = Vec::new();
    let mut i: usize = 0;
    while i < keys.len()
        invariant
            i <= keys@.len(),
            posts@ == posts_of(keys@.take(i as int)),
        decreases keys.len() - i,
    {
        posts.push(Post { key_id: keys[i] });
        assert(posts@ =~= posts_of(keys@.take(i + 1)));
        i = i + 1;
    }
    assert(keys@.take(keys@.len() as int) =~= keys@);
    posts
}

impl PostConnection {
    /// The number of posts in this page, cut to an `i32`.
    pub fn total_count(&self) -> (count: i32)
        ensures
            count == self.post_keys@.len() as i32,
    {
        self.post_keys.len() as i32
    }

    /// The posts in this page.
    pub fn nodes(&self) -> (nodes: Vec<Post>)
        ensures
            nodes@ == posts_of(self.post_keys@),
    {
        posts_for(self.post_keys.as_slice())
    }
}

} // verus!
