//! Rows of the `blob_links` table: messages that link to a blob.

use super::{links_with_sigil, sigil_links, string_views};
use crate::json::{derefs, JsonValue};
use vstd::prelude::*;

verus! {

/// The blob ids among a message's links: the string links that start with
/// `&`, in order.
pub fn linked_blobs(links: &[&JsonValue]) -> (blobs: Vec<String>)
    ensures
        string_views(blobs@) == sigil_links(derefs(links@), '&'),
{
    links_with_sigil(links, '&')
}

} // verus!
