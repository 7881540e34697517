//! The relay-spec page information of a connection.

use vstd::prelude::*;

verus! {

/// A relay-spec PageInfo object used for pagination of queries.
#[derive(Debug)]
pub struct PageInfo {
    /// Is there a next page available to read?
    pub has_next_page: bool,
    /// Is there a previous page available to read?
    pub has_previous_page: bool,
    /// The cursor for the last item in the page.
    pub end_cursor: Option<String>,
    /// The cursor for the first item in the page.
    pub start_cursor: Option<String>,
}

impl Default for PageInfo {
    /// No pages either way and no cursors.
    fn default() -> (info: Self)
        ensures
            !info.has_next_page,
            !info.has_previous_page,
            info.end_cursor is None,
            info.start_cursor is None,
    {
        PageInfo { has_next_page: false, has_previous_page: false, end_cursor: None, start_cursor: None }
    }
}

} // verus!
