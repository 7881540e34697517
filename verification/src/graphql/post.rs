//! A post, and what its votes say about it.

use super::like::Like;
use super::like_connection::LikeConnection;
use vstd::prelude::*;

verus! {

/// A post by an author, named by the row id of its key.
#[derive(Debug, Clone, Copy, PartialEq, Eq, Structural, Default)]
pub struct Post {
    pub key_id: i32,
}

/// How many of `values` equal `x`.
pub open spec fn count_equal(values: Seq<i32>, x: i32) -> nat
    decreases values.len(),
{
    if values.len() == 0 {
        0
    } else {
        count_equal(values.drop_last(), x) + if values.last() == x {
            1nat
        } else {
            0nat
        }
    }
}

proof fn lemma_count_equal_bound(values: Seq<i32>, x: i32)
    ensures
        count_equal(values, x) <= values.len(),
    decreases values.len(),
{
    if values.len() > 0 {
        lemma_count_equal_bound(values.drop_last(), x);
    }
}

/// Counting one value at a time: no values count nothing, appending `x`
/// raises the count by one, and appending any other value leaves it.
pub proof fn lemma_count_equal_push(values: Seq<i32>, x: i32, y: i32)
    ensures
        count_equal(Seq::<i32>::empty(), x) == 0,
        y == x ==> count_equal(values.push(y), x) == count_equal(values, x) + 1,
        y != x ==> count_equal(values.push(y), x) == count_equal(values, x),
{
    assert(values.push(y).drop_last() =~= values);
}

/// The count is positive exactly when some value equals `x`, and never
/// more than the number of values.
pub proof fn lemma_count_equal_positive(values: Seq<i32>, x: i32)
    ensures
        count_equal(values, x) > 0 <==> exists|i: int| 0 <= i < values.len() && values[i] == x,
        count_equal(values, x) <= values.len(),
    decreases values.len(),
{
    lemma_count_equal_bound(values, x);
    if values.len() > 0 {
        let rest = values.drop_last();
        lemma_count_equal_positive(rest, x);
        if exists|i: int| 0 <= i < values.len() && values[i] == x {
            let i = choose|i: int| 0 <= i < values.len() && values[i] == x;
            if i < values.len() - 1 {
                assert(rest[i] == x);
            }
        }
        if exists|i: int| 0 <= i < rest.len() && rest[i] == x {
            let i = choose|i: int| 0 <= i < rest.len() && rest[i] == x;
            assert(values[i] == x);
        }
    }
}

/// How many of the vote values are `1`.
fn count_ones(values: &[i32]) -> (n: usize)
    ensures
        n == count_equal(values@, 1),
{
    let mut n: usize = 0;
    let mut i: usize = 0;
    while i < values.len()
        invariant
            i <= values@.len(),
            n == count_equal(values@.take(i as int), 1),
        decreases values.len() - i,
    {
        assert(values@.take(i + 1).drop_last() =~= values@.take(i as int));
        proof {
            lemma_count_equal_bound(values@.take(i as int), 1);
        }
        if values[i] == 1 {
            n = n + 1;
        }
        i = i + 1;
    }
    assert(values@.take(values@.len() as int) =~= values@);
    n
}

/// The number of likes on a post: how many of its votes have the value `1`,
/// cut to an `i32`.
pub fn likes_count(vote_values: &[i32]) -> (count: i32)
    ensures
        count == count_equal(vote_values@, 1) as i32,
{
    count_ones(vote_values) as i32
}

/// The connection to the likes on a post.
pub fn likes_connection(vote_values: &[i32]) -> (connection: LikeConnection)
    ensures
        connection.count == count_equal(vote_values@, 1) as i32,
{
    LikeConnection { count: likes_count(vote_values) }
}

/// Whether a post is liked by me, given the values of my votes on it: one of
/// them is `1`.
pub fn liked_by_me(my_vote_values: &[i32]) -> (liked: bool)
    ensures
        liked == (count_equal(my_vote_values@, 1) > 0),
{
    count_ones(my_vote_values) > 0
}

/// The likes among a post's votes, given as (author id, value) pairs: each
/// vote whose value is not `0`, in order.
pub open spec fn likes_of(votes: Seq<(i32, i32)>) -> Seq<Like>
    decreases votes.len(),
{
    if votes.len() == 0 {
        Seq::empty()
    } else {
        let rest = likes_of(votes.drop_last());
        let (author_id, value) = votes.last();
        if value != 0 {
            rest.push(Like { author_id, value })
        } else {
            rest
        }
    }
}

/// The likes other authors have published about a post.
pub fn likes(votes: &[(i32, i32)]) -> (result: Vec<Like>)
    ensures
        result@ == likes_of(votes@),
{
    let mut result: Vec<Like> = Vec::new();
    let mut i: usize = 0;
    while i < votes.len()
        invariant
            i <= votes@.len(),
            result@ == likes_of(votes@.take(i as int)),
        decreases votes.len() - i,
    {
        assert(votes@.take(i + 1).drop_last() =~= votes@.take(i as int));
        let (author_id, value) = votes[i];
        if value != 0 {
            result.push(Like { author_id, value });
        }
        i = i + 1;
    }
    assert(votes@.take(votes@.len() as int) =~= votes@);
    result
}

} // verus!
