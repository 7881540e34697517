//! An author, and the contact state between two authors.

use vstd::prelude::*;

verus! {

/// An author, named by the row id of their feed id.
#[derive(Debug, Clone, Copy, PartialEq, Eq, Structural, Default)]
pub struct Author {
    pub author_id: i32,
}

/// Whether one author follows, blocks, or neither, another.
#[derive(Debug, Clone, Copy, PartialEq, Eq, Structural)]
pub enum ContactState {
    Follow,
    Block,
    Neutral,
}

/// The public and private contact state between two authors.
#[derive(Debug, Clone, Copy, PartialEq, Eq, Structural)]
pub struct PublicPrivateContactStatus {
    pub public: ContactState,
    pub private: Option<ContactState>,
}

/// The contact state stored as `state`: `1` follows, `-1` blocks; any other
/// value, a null one, or no contact row at all is neutral. Private contacts
/// are not tracked.
pub fn contact_status(state: Option<Option<i32>>) -> (status: PublicPrivateContactStatus)
    ensures
        status.public == match state {
            Some(Some(1)) => ContactState::Follow,
            Some(Some(-1)) => ContactState::Block,
            _ => ContactState::Neutral,
        },
        status.private is None,
{
    let public = match state {
        Some(Some(1)) => ContactState::Follow,
        Some(Some(-1)) => ContactState::Block,
        _ => ContactState::Neutral,
    };
    PublicPrivateContactStatus { public, private: None }
}

/// One author per row id, in order.
pub fn authors_for(author_ids: &[i32]) -> (authors: Vec<Author>)
    ensures
        authors@ == author_ids@.map_values(|author_id: i32| Author { author_id }),
{
    let mut authors: Vec<Author> = Vec::new();
    let mut i: usize = 0;
    while i < author_ids.len()
        invariant
            i <= author_ids@.len(),
            authors@ == author_ids@.take(i as int).map_values(
                |author_id: i32| Author { author_id },
            ),
        decreases author_ids.len() - i,
    {
        authors.push(Author { author_id: author_ids[i] });
        assert(authors@ =~= author_ids@.take(i + 1).map_values(
            |author_id: i32| Author { author_id },
        ));
        i = i + 1;
    }
    assert(author_ids@.take(author_ids@.len() as int) =~= author_ids@);
    authors
}

} // verus!
