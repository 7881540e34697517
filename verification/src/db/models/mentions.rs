//! Rows of the `mentions` table: messages that link to a feed.

use super::{links_with_sigil, sigil_links, string_views};
use crate::json::{derefs, JsonValue};
use vstd::prelude::*;

verus! {

/// The feed ids among a message's links: the string links that start with
/// `@`, in order.
pub fn mentioned_authors(links: &[&JsonValue]) -> (authors: Vec<String>)
    ensures
        string_views(authors@) == sigil_links(derefs(links@), '@'),
{
    links_with_sigil(links, '@')
}

} // verus!
