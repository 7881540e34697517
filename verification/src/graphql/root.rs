//! The root queries' pagination: which rows a page asks for, and the page
//! built from the rows found.

use super::author::Author;
use super::page_info::PageInfo;
use super::post_connection::PostConnection;
use super::thread_connection::ThreadConnection;
use crate::cursor::{
    cursor_decoding, cursor_text, cursor_value, decode_cursor, encode_cursor,
};
use vstd::prelude::*;

verus! {

/// All the available root queries.
#[derive(Debug)]
pub struct Query;

/// Which sequence numbers a page may hold.
#[derive(Debug, Clone, Copy, PartialEq, Eq, Structural)]
pub enum SeqBound {
    /// Any.
    Unbounded,
    /// Only those greater than this one (the page before a cursor).
    Above(i64),
    /// Only those less than this one (the page after a cursor).
    Below(i64),
}

/// The rows a page asks for: at most `limit` of them (as a SQL limit, where
/// a negative one sets none), newest first, within `bound`.
#[derive(Debug, Clone, Copy, PartialEq, Eq, Structural)]
pub struct PageRequest {
    pub limit: i32,
    pub bound: SeqBound,
}

/// The error for a page asked both before and after a cursor.
pub open spec fn both_cursors_message() -> Seq<char> {
    "Before and After can't be set at the same time."@
}

/// The error for a page with no rows.
pub open spec fn no_results_message() -> Seq<char> {
    "No results found"@
}

/// The page that pagination arguments ask for, when they are valid: the
/// cursor texts are given by their characters.
pub open spec fn requested_page(
    before: Option<Seq<char>>,
    after: Option<Seq<char>>,
    first: i32,
    last: i32,
) -> Option<PageRequest> {
    match (before, after) {
        (Some(b), None) => match cursor_value(b) {
            Some(c) => Some(PageRequest { limit: last, bound: SeqBound::Above(c) }),
            None => None,
        },
        (None, Some(a)) => match cursor_value(a) {
            Some(c) => Some(PageRequest { limit: first, bound: SeqBound::Below(c) }),
            None => None,
        },
        (None, None) => Some(PageRequest { limit: 10, bound: SeqBound::Unbounded }),
        (Some(_), Some(_)) => None,
    }
}

/// The text of an optional cursor argument.
pub open spec fn arg_text(arg: Option<&str>) -> Option<Seq<char>> {
    match arg {
        Some(s) => Some(s@),
        None => None,
    }
}

/// Reads the pagination arguments of a query. With `before`, the page holds
/// the `last` rows newer than that cursor; with `after`, the `first` rows
/// older than it; with neither, the ten newest rows. Both at once is an
/// error, and so is a cursor that does not decode (with `decode_cursor`'s
/// error).
pub fn page_request(before: Option<&str>, after: Option<&str>, first: i32, last: i32) -> (res:
    Result<PageRequest, String>)
    ensures
        match requested_page(arg_text(before), arg_text(after), first, last) {
            Some(r) => res == Ok::<PageRequest, String>(r),
            None => res is Err,
        },
        match (before, after) {
            (Some(_), Some(_)) => res matches Err(m) && m@ == both_cursors_message(),
            (Some(b), None) => match cursor_value(b@) {
                Some(c) => res == Ok::<PageRequest, String>(
                    PageRequest { limit: last, bound: SeqBound::Above(c) },
                ),
                None => res matches Err(m) && cursor_decoding(b@) == Err::<i64, Seq<char>>(m@),
            },
            (None, Some(a)) => match cursor_value(a@) {
                Some(c) => res == Ok::<PageRequest, String>(
                    PageRequest { limit: first, bound: SeqBound::Below(c) },
                ),
                None => res matches Err(m) && cursor_decoding(a@) == Err::<i64, Seq<char>>(m@),
            },
            (None, None) => res == Ok::<PageRequest, String>(
                PageRequest { limit: 10, bound: SeqBound::Unbounded },
            ),
        },
{
    match (before, after) {
        (Some(b), None) => {
            let start_cursor = decode_cursor(b)?;
            Ok(PageRequest { limit: last, bound: SeqBound::Above(start_cursor) })
        },
        (None, Some(a)) => {
            let start_cursor = decode_cursor(a)?;
            Ok(PageRequest { limit: first, bound: SeqBound::Below(start_cursor) })
        },
        (None, None) => Ok(PageRequest { limit: 10, bound: SeqBound::Unbounded }),
        (Some(_), Some(_)) => {
            proof {
                reveal_strlit("Before and After can't be set at the same time.");
            }
            Err(String::from_str("Before and After can't be set at the same time."))
        },
    }
}

/// The page information for a page whose newest row has sequence number
/// `first_seq` and whose oldest has `last_seq`: cursors for both, a next
/// page unless the oldest is the log's first entry, and always a previous
/// page.
pub open spec fn page_info_is(info: PageInfo, first_seq: i64, last_seq: i64) -> bool {
    &&& info.start_cursor matches Some(s) && s@ == cursor_text(first_seq)
    &&& info.end_cursor matches Some(e) && e@ == cursor_text(last_seq)
    &&& info.has_next_page == (last_seq != 0)
    &&& info.has_previous_page
}

/// What a page's information says, whatever its rows: there is a next page
/// exactly when the oldest row's sequence number is not `0` (the newest
/// row's plays no part), a previous page is always announced, and the
/// cursors are those of the newest and the oldest row.
pub proof fn lemma_page_info_flags(info: PageInfo, first_seq: i64, last_seq: i64)
    requires
        page_info_is(info, first_seq, last_seq),
    ensures
        info.has_next_page <==> last_seq != 0,
        info.has_previous_page,
        info.start_cursor matches Some(s) && s@ == cursor_text(first_seq),
        info.end_cursor matches Some(e) && e@ == cursor_text(last_seq),
{
}

/// Builds the page information for a page from its first and last sequence
/// numbers.
pub fn page_info_for(first_seq: i64, last_seq: i64) -> (info: PageInfo)
    ensures
        page_info_is(info, first_seq, last_seq),
        cursor_value(info.start_cursor->0@) == Some(first_seq),
        cursor_value(info.end_cursor->0@) == Some(last_seq),
{
    PageInfo {
        start_cursor: Some(encode_cursor(first_seq)),
        end_cursor: Some(encode_cursor(last_seq)),
        has_next_page: last_seq != 0,
        has_previous_page: true,
    }
}

/// Paging on from a page: asking for the page after its end cursor asks for
/// the `first` rows older than its oldest row, and asking for the page
/// before its start cursor asks for the `last` rows newer than its newest.
pub proof fn lemma_paging_from_page_info(
    info: PageInfo,
    first_seq: i64,
    last_seq: i64,
    first: i32,
    last: i32,
)
    requires
        page_info_is(info, first_seq, last_seq),
        cursor_value(info.start_cursor->0@) == Some(first_seq),
        cursor_value(info.end_cursor->0@) == Some(last_seq),
    ensures
        requested_page(None, Some(info.end_cursor->0@), first, last) == Some(
            PageRequest { limit: first, bound: SeqBound::Below(last_seq) },
        ),
        requested_page(Some(info.start_cursor->0@), None, first, last) == Some(
            PageRequest { limit: last, bound: SeqBound::Above(first_seq) },
        ),
{
}

/// The key ids of a page's rows, in order.
pub open spec fn row_keys<S>(rows: Seq<(i32, S)>) -> Seq<i32> {
    rows.map_values(|r: (i32, S)| r.0)
}

/// The key ids of a page's rows, in order.
fn keys_of<S: Copy>(rows: &[(i32, S)]) -> (keys: Vec<i32>)
    ensures
        keys@ == row_keys(rows@),
{
    let mut keys: Vec<i32> = Vec::new();
    let mut i: usize = 0;
    while i < rows.len()
        invariant
            i <= rows@.len(),
            keys@ == row_keys(rows@.take(i as int)),
        decreases rows.len() - i,
    {
        keys.push(rows[i].0);
        assert(keys@ =~= row_keys(rows@.take(i + 1)));
        i = i + 1;
    }
    assert(rows@.take(rows@.len() as int) =~= rows@);
    keys
}

/// The error for an author id that is not stored.
pub open spec fn no_author_message() -> Seq<char> {
    "No author found"@
}

/// The author found by a lookup of their feed id: the row's id, or an error
/// when there is no id.
pub fn found_author(row_id: Option<i32>) -> (res: Result<Author, String>)
    ensures
        match row_id {
            Some(id) => res == Ok::<Author, String>(Author { author_id: id }),
            None => res matches Err(m) && m@ == no_author_message(),
        },
{
    match row_id {
        Some(author_id) => Ok(Author { author_id }),
        None => {
            proof {
                reveal_strlit("No author found");
            }
            Err(String::from_str("No author found"))
        },
    }
}

fn no_results() -> (m: String)
    ensures
        m@ == no_results_message(),
{
    proof {
        reveal_strlit("No results found");
    }
    String::from_str("No results found")
}

/// Builds a page of threads from the rows found, each the key id of a root
/// post and its sequence number, newest first. No rows is an error.
pub fn thread_connection(next: i32, rows: &[(i32, i64)]) -> (res: Result<
    ThreadConnection,
    String,
>)
    ensures
        rows@.len() == 0 ==> (res matches Err(m) && m@ == no_results_message()),
        rows@.len() > 0 ==> (res matches Ok(c) && c.next == next && c.thread_keys@ == row_keys(
            rows@,
        ) && page_info_is(c.page_info, rows@[0].1, rows@.last().1)),
{
    if rows.len() == 0 {
        return Err(no_results());
    }
    let first_seq = rows[0].1;
    let last_seq = rows[rows.len() - 1].1;
    Ok(ThreadConnection { next, page_info: page_info_for(first_seq, last_seq), thread_keys: keys_of(rows) })
}

/// Builds a page of posts from the rows found, each the key id of a post and
/// its sequence number (which the schema lets be null), newest first. No
/// rows, or a null sequence number on the first or last row, is an error.
pub fn post_connection(next: i32, rows: &[(i32, Option<i64>)]) -> (res: Result<
    PostConnection,
    String,
>)
    ensures
        (rows@.len() == 0 || rows@[0].1 is None || rows@.last().1 is None) ==> (res matches Err(m)
            && m@ == no_results_message()),
        (rows@.len() > 0 && rows@[0].1 is Some && rows@.last().1 is Some) ==> (res matches Ok(c)
            && c.next == next && c.post_keys@ == row_keys(rows@) && page_info_is(
            c.page_info,
            rows@[0].1->0,
            rows@.last().1->0,
        )),
{
    if rows.len() == 0 {
        return Err(no_results());
    }
    let first_seq = match rows[0].1 {
        Some(s) => s,
        None => {
            return Err(no_results());
        },
    };
    let last_seq = match rows[rows.len() - 1].1 {
        Some(s) => s,
        None => {
            return Err(no_results());
        },
    };
    Ok(PostConnection { next, page_info: page_info_for(first_seq, last_seq), post_keys: keys_of(rows) })
}

} // verus!
