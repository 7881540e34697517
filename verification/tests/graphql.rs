use ssb_patchql::cursor::encode_cursor;
use ssb_patchql::graphql::author::{authors_for, contact_status, Author, ContactState};
use ssb_patchql::graphql::db::process_window;
use ssb_patchql::graphql::input_objects::{decryption_filter, Privacy};
use ssb_patchql::graphql::like::Like;
use ssb_patchql::graphql::page_info::PageInfo;
use ssb_patchql::graphql::post::{liked_by_me, likes, likes_connection, likes_count, Post};
use ssb_patchql::graphql::post_connection::posts_for;
use ssb_patchql::graphql::root::{
    found_author,
    page_info_for, page_request, post_connection, thread_connection, PageRequest, SeqBound,
};

#[test]
fn page_request_forms() {
    let c = encode_cursor(100);
    assert_eq!(
        page_request(Some(&c), None, 5, 7),
        Ok(PageRequest { limit: 7, bound: SeqBound::Above(100) })
    );
    assert_eq!(
        page_request(None, Some(&c), 5, 7),
        Ok(PageRequest { limit: 5, bound: SeqBound::Below(100) })
    );
    assert_eq!(page_request(None, None, 5, 7), Ok(PageRequest { limit: 10, bound: SeqBound::Unbounded }));
    assert_eq!(
        page_request(Some(&c), Some(&c), 5, 7),
        Err("Before and After can't be set at the same time.".to_string())
    );
    assert_eq!(
        page_request(Some("AAAA"), None, 5, 7),
        Err("Error decoding cursor. Is it a valid base64 encoded i64?".to_string())
    );
}

#[test]
fn paging_on_from_end_cursor() {
    let info = page_info_for(50, 41);
    let next = page_request(None, info.end_cursor.as_deref(), 10, 10).unwrap();
    assert_eq!(next.bound, SeqBound::Below(41));
    let prev = page_request(info.start_cursor.as_deref(), None, 10, 10).unwrap();
    assert_eq!(prev.bound, SeqBound::Above(50));
}

#[test]
fn page_info_values() {
    let info = page_info_for(9, 0);
    assert_eq!(info.start_cursor, Some(encode_cursor(9)));
    assert_eq!(info.end_cursor, Some("AAAAAAAAAAA=".to_string()));
    assert!(!info.has_next_page);
    assert!(info.has_previous_page);
    assert!(page_info_for(9, 3).has_next_page);
    let d = PageInfo::default();
    assert!(!d.has_next_page && !d.has_previous_page && d.end_cursor.is_none() && d.start_cursor.is_none());
}

#[test]
fn thread_pages() {
    let c = thread_connection(3, &[(7, 30), (5, 20), (2, 10)]).unwrap();
    assert_eq!(c.next, 3);
    assert_eq!(c.thread_keys, vec![7, 5, 2]);
    assert_eq!(c.total_count(), 3);
    assert_eq!(c.page_info.start_cursor, Some(encode_cursor(30)));
    assert_eq!(c.page_info.end_cursor, Some(encode_cursor(10)));
    let edges = c.edges();
    assert_eq!(edges.len(), 3);
    assert_eq!(edges[1].node.root, Post { key_id: 5 });
    assert!(!edges[1].node.is_private);
    assert_eq!(thread_connection(3, &[]).unwrap_err(), "No results found");
}

#[test]
fn post_pages() {
    let c = post_connection(10, &[(1, Some(8)), (4, None), (6, Some(3))]).unwrap();
    assert_eq!(c.post_keys, vec![1, 4, 6]);
    assert_eq!(c.nodes(), vec![Post { key_id: 1 }, Post { key_id: 4 }, Post { key_id: 6 }]);
    assert_eq!(c.total_count(), 3);
    assert!(c.page_info.has_next_page);
    assert_eq!(post_connection(10, &[(1, None)]).unwrap_err(), "No results found");
    assert_eq!(post_connection(10, &[(1, Some(2)), (3, None)]).unwrap_err(), "No results found");
    assert_eq!(post_connection(10, &[]).unwrap_err(), "No results found");
}

#[test]
fn contact_states() {
    assert_eq!(contact_status(Some(Some(1))).public, ContactState::Follow);
    assert_eq!(contact_status(Some(Some(-1))).public, ContactState::Block);
    assert_eq!(contact_status(Some(Some(0))).public, ContactState::Neutral);
    assert_eq!(contact_status(Some(None)).public, ContactState::Neutral);
    assert_eq!(contact_status(None).public, ContactState::Neutral);
    assert_eq!(contact_status(Some(Some(1))).private, None);
    assert_eq!(authors_for(&[3, 1]), vec![Author { author_id: 3 }, Author { author_id: 1 }]);
}

#[test]
fn like_counts() {
    assert_eq!(likes_count(&[1, 0, 1, -1, 2]), 2);
    assert_eq!(likes_connection(&[1, 1, 1]).count, 3);
    assert_eq!(likes_count(&[]), 0);
    assert!(liked_by_me(&[0, 1]));
    assert!(!liked_by_me(&[0, -1]));
    assert_eq!(
        likes(&[(1, 1), (2, 0), (3, -1)]),
        vec![Like { author_id: 1, value: 1 }, Like { author_id: 3, value: -1 }]
    );
    assert_eq!(posts_for(&[]), Vec::<Post>::new());
}

#[test]
fn process_windows() {
    let w = process_window(None, 100);
    assert_eq!((w.start_offset, w.skip, w.take), (0, 0, 100));
    let w = process_window(Some(4096), 10);
    assert_eq!((w.start_offset, w.skip, w.take), (4096, 1, 10));
    assert_eq!(process_window(None, -1).take, usize::MAX);
}

#[test]
fn privacy_filters() {
    assert_eq!(decryption_filter(Privacy::All), None);
    assert_eq!(decryption_filter(Privacy::Private), Some(true));
    assert_eq!(decryption_filter(Privacy::Public), Some(false));
}

#[test]
fn author_lookup() {
    assert_eq!(found_author(Some(4)), Ok(Author { author_id: 4 }));
    assert_eq!(found_author(None), Err("No author found".to_string()));
}
