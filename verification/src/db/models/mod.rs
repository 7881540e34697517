//! What storing one message from the log writes: the decisions of appending
//! an item, made over the message alone. Executing them against the
//! database is the caller's part.

use crate::cursor::{base64_decode, base64_decoding};
use crate::json::{
    derefs, find_values_in_object_by_key, is_container, json_get, json_index, json_str,
    lemma_values_by_key_here, lemma_values_by_key_nested, values_by_key, JsonValue,
};
use crate::ssb_message::SsbMessage;
use crate::text::{first_char_is, starts_with_char, trim_end_matches, trim_suffix_all};
use vstd::prelude::*;

use abouts::{about_target, AboutTarget};
use blob_links::linked_blobs;
use branches::{branch_keys, branches_of, branches_readable};
use mentions::mentioned_authors;
use posts::{post_kind, PostKind};
use texts::text_of;
use votes::{vote_link, VoteLink};

pub mod abouts;
pub mod authors;
pub mod blob_links;
pub mod blobs;
pub mod branches;
pub mod decryption;
pub mod keys;
pub mod mentions;
pub mod messages;
pub mod posts;
pub mod texts;
pub mod votes;

verus! {

/// The texts of a sequence of strings.
pub open spec fn string_views(strings: Seq<String>) -> Seq<Seq<char>> {
    strings.map_values(|s: String| s@)
}

/// The string links among `links` that start with `sigil`, in order.
pub open spec fn sigil_links(links: Seq<JsonValue>, sigil: char) -> Seq<Seq<char>>
    decreases links.len(),
{
    if links.len() == 0 {
        Seq::empty()
    } else {
        let rest = sigil_links(links.drop_last(), sigil);
        match json_str(links.last()) {
            Some(s) => if starts_with_char(s, sigil) {
                rest.push(s)
            } else {
                rest
            },
            None => rest,
        }
    }
}

/// Every link `sigil_links` keeps starts with the sigil, and is one of the
/// string links it was given.
pub proof fn lemma_sigil_links_members(links: Seq<JsonValue>, sigil: char)
    ensures
        forall|i: int|
            0 <= i < sigil_links(links, sigil).len() ==> starts_with_char(
                #[trigger] sigil_links(links, sigil)[i],
                sigil,
            ) && exists|j: int| 0 <= j < links.len() && json_str(links[j]) == Some(
                sigil_links(links, sigil)[i],
            ),
    decreases links.len(),
{
    if links.len() > 0 {
        let rest = links.drop_last();
        lemma_sigil_links_members(rest, sigil);
        let found = sigil_links(links, sigil);
        assert forall|i: int| 0 <= i < found.len() implies starts_with_char(
            #[trigger] found[i],
            sigil,
        ) && exists|j: int| 0 <= j < links.len() && json_str(links[j]) == Some(found[i]) by {
            if i < sigil_links(rest, sigil).len() {
                let j = choose|j: int|
                    0 <= j < rest.len() && json_str(rest[j]) == Some(sigil_links(rest, sigil)[i]);
                assert(links[j] == rest[j]);
            } else {
                assert(json_str(links[links.len() - 1]) == Some(found[i]));
            }
        }
    }
}

/// A message's mentions and its blob links never share a link: one starts
/// with `@`, the other with `&`.
pub proof fn lemma_mentions_and_blobs_disjoint(links: Seq<JsonValue>)
    ensures
        forall|i: int, j: int|
            0 <= i < sigil_links(links, '@').len() && 0 <= j < sigil_links(links, '&').len()
                ==> #[trigger] sigil_links(links, '@')[i] != #[trigger] sigil_links(links, '&')[j],
{
    lemma_sigil_links_members(links, '@');
    lemma_sigil_links_members(links, '&');
}

/// The string links among `links` that start with `sigil`, in order.
pub fn links_with_sigil(links: &[&JsonValue], sigil: char) -> (found: Vec<String>)
    ensures
        string_views(found@) == sigil_links(derefs(links@), sigil),
{
    let mut found: Vec<String> = Vec::new();
    let mut i: usize = 0;
    while i < links.len()
        invariant
            i <= links@.len(),
            string_views(found@) == sigil_links(derefs(links@).take(i as int), sigil),
        decreases links.len() - i,
    {
        let ghost prev = found@;
        assert(derefs(links@).take(i + 1).drop_last() =~= derefs(links@).take(i as int));
        assert(derefs(links@).take(i + 1).last() == *links@[i as int]);
        if let Some(s) = links[i].as_str() {
            if first_char_is(s, sigil) {
                found.push(String::from_str(s));
                assert(string_views(found@) =~= string_views(prev).push(s@));
            }
        }
        i = i + 1;
    }
    assert(derefs(links@).take(links@.len() as int) =~= derefs(links@));
    found
}

/// Whether a content's `type` field is the string `name`.
pub open spec fn has_type(content: JsonValue, name: Seq<char>) -> bool {
    json_str(json_index(content, "type"@)) == Some(name)
}

/// Whether a content's `type` field is the string `name`.
pub fn type_is(content: &JsonValue, name: &str) -> (res: bool)
    ensures
        res == has_type(*content, name@),
{
    match content.get("type") {
        Some(JsonValue::String(t)) => t.eq(&String::from_str(name)),
        _ => false,
    }
}

/// What storing a message writes, beyond its key, author and message rows.
#[derive(Debug)]
pub struct AppendPlan {
    /// For a vote: the vote it casts, if it reads as one.
    pub vote: Option<VoteLink>,
    /// For any other message: the feeds its links mention.
    pub mentions: Vec<String>,
    /// For any other message: the blobs it links.
    pub blob_links: Vec<String>,
    /// For a post: whether it starts a thread or replies in one.
    pub post: Option<PostKind>,
    /// The branch keys it names.
    pub branches: Vec<String>,
    /// What it is about, if it is about something.
    pub about: Option<AboutTarget>,
    /// The text it indexes, if any.
    pub text: Option<String>,
}

/// The links of a message's content: every value under a `link` key.
pub open spec fn content_links(content: JsonValue) -> Seq<JsonValue> {
    values_by_key(content, "link"@)
}

/// The links of a content are all it holds under a `link` key, at any
/// depth: the whole content is searched, not one field of it.
pub proof fn lemma_content_links_search_all(content: JsonValue)
    ensures
        content_links(content) == values_by_key(content, "link"@),
{
}

/// `sigil_links` keeps every string link that starts with the sigil.
pub proof fn lemma_sigil_links_keeps(links: Seq<JsonValue>, sigil: char, j: int, s: Seq<char>)
    requires
        0 <= j < links.len(),
        json_str(links[j]) == Some(s),
        starts_with_char(s, sigil),
    ensures
        sigil_links(links, sigil).contains(s),
    decreases links.len(),
{
    let rest = links.drop_last();
    let prev = sigil_links(rest, sigil);
    if j == links.len() - 1 {
        assert(sigil_links(links, sigil) == prev.push(s));
        assert(prev.push(s)[prev.len() as int] == s);
    } else {
        assert(rest[j] == links[j]);
        lemma_sigil_links_keeps(rest, sigil, j, s);
        let k = choose|k: int| 0 <= k < prev.len() && prev[k] == s;
        let found = sigil_links(links, sigil);
        assert(found == prev || found == prev.push(json_str(links.last())->0));
        assert(found[k] == s);
    }
}

/// A link stored one level down in a content, such as the `link` of an
/// `image` object, is recorded: as a mention when it starts with `@`, as a
/// blob link when it starts with `&`.
pub proof fn lemma_nested_link_recorded(content: JsonValue, i: int, link: Seq<char>, sigil: char)
    requires
        content matches JsonValue::Object(entries) && 0 <= i < entries@.len() && is_container(
            entries@[i].1,
        ) && json_str(json_index(entries@[i].1, "link"@)) == Some(link),
        starts_with_char(link, sigil),
    ensures
        sigil_links(content_links(content), sigil).contains(link),
{
    match content {
        JsonValue::Object(entries) => {
            let inner = entries@[i].1;
            let x = json_index(inner, "link"@);
            assert(json_get(inner, "link"@) == Some(x));
            lemma_values_by_key_here(inner, "link"@, x);
            lemma_values_by_key_nested(content, "link"@, i, x);
            let links = content_links(content);
            let j = choose|j: int| 0 <= j < links.len() && links[j] == x;
            lemma_sigil_links_keeps(links, sigil, j, link);
        },
        _ => {},
    }
}

/// A link stored directly under the content's own `link` key is recorded
/// the same way.
pub proof fn lemma_top_link_recorded(content: JsonValue, link: Seq<char>, sigil: char)
    requires
        json_str(json_index(content, "link"@)) == Some(link),
        starts_with_char(link, sigil),
    ensures
        sigil_links(content_links(content), sigil).contains(link),
{
    let x = json_index(content, "link"@);
    assert(json_get(content, "link"@) == Some(x));
    lemma_values_by_key_here(content, "link"@, x);
    let links = content_links(content);
    let j = choose|j: int| 0 <= j < links.len() && links[j] == x;
    lemma_sigil_links_keeps(links, sigil, j, link);
}

/// Decides what storing `message` writes. A vote writes its vote and no
/// links; any other message writes the mentions and blob links among the
/// values under its `link` keys. A post also writes a root or reply row.
/// Every message writes its branches, what it is about, and its text.
pub fn plan_append(message: &SsbMessage) -> (plan: AppendPlan)
    requires
        branches_readable(message.value.content),
    ensures
        ({
            let content = message.value.content;
            &&& has_type(content, "vote"@) ==> {
                &&& plan.mentions@.len() == 0
                &&& plan.blob_links@.len() == 0
                &&& match vote_link_spec(content) {
                    Some((link, value)) => plan.vote matches Some(v) && v.link@ == link && v.value
                        == value,
                    None => plan.vote is None,
                }
            }
            &&& !has_type(content, "vote"@) ==> {
                &&& plan.vote is None
                &&& string_views(plan.mentions@) == sigil_links(content_links(content), '@')
                &&& string_views(plan.blob_links@) == sigil_links(content_links(content), '&')
            }
            &&& has_type(content, "post"@) ==> match json_str(json_index(content, "root"@)) {
                Some(root) => plan.post matches Some(PostKind::Reply(k)) && k@ == root,
                None => plan.post matches Some(PostKind::Root),
            }
            &&& !has_type(content, "post"@) ==> plan.post is None
            &&& string_views(plan.branches@) == branches_of(content)
            &&& match json_str(json_index(content, "about"@)) {
                None => plan.about is None,
                Some(t) => match plan.about {
                    Some(AboutTarget::Author(a)) => starts_with_char(t, '@') && a@ == t,
                    Some(AboutTarget::Key(k)) => starts_with_char(t, '%') && k@ == t,
                    Some(AboutTarget::Other) => !starts_with_char(t, '@') && !starts_with_char(
                        t,
                        '%',
                    ),
                    None => false,
                },
            }
            &&& match json_str(json_index(content, "text"@)) {
                Some(t) => plan.text matches Some(s) && s@ == t,
                None => plan.text is None,
            }
        }),
{
    let content = &message.value.content;
    let (vote, mentions, blob_links) = if type_is(content, "vote") {
        (vote_link(content), Vec::new(), Vec::new())
    } else {
        let mut links: Vec<&JsonValue> = Vec::new();
        find_values_in_object_by_key(content, "link", &mut links);
        assert(derefs(links@) =~= content_links(*content));
        (None, mentioned_authors(links.as_slice()), linked_blobs(links.as_slice()))
    };
    let post = if type_is(content, "post") {
        Some(post_kind(content))
    } else {
        None
    };
    AppendPlan {
        vote,
        mentions,
        blob_links,
        post,
        branches: branch_keys(content),
        about: about_target(content),
        text: text_of(content),
    }
}

/// The vote a content casts, as a key and a value.
pub open spec fn vote_link_spec(content: JsonValue) -> Option<(Seq<char>, Option<i32>)> {
    let v = json_index(content, "vote"@);
    match (json_index(v, "value"@), json_str(json_index(v, "link"@))) {
        (JsonValue::Number(n), Some(link)) => Some((link, votes::vote_value(n))),
        _ => None,
    }
}

/// The ciphertext of a private message: its content is a string
/// `<base64>.box` in place of an object with a `type`. The `.box` suffix is
/// trimmed (every trailing repetition of it) and the rest decoded.
pub open spec fn boxed_payload(content: JsonValue) -> Option<Result<Seq<u8>, Seq<char>>> {
    if json_index(content, "type"@) is Null {
        Some(base64_decoding(trim_suffix_all(json_str(content)->0, ".box"@)))
    } else {
        None
    }
}

/// Whether a content is read as a private message: its `type` is missing or
/// null. Such a content must be a string; reading any other panics.
pub open spec fn boxed_readable(content: JsonValue) -> bool {
    json_index(content, "type"@) is Null ==> content is String
}

/// Whether a content can be read as a private message without panicking.
pub fn is_boxed_readable(content: &JsonValue) -> (readable: bool)
    ensures
        readable == boxed_readable(*content),
{
    match content.get("type") {
        None | Some(JsonValue::Null) => content.is_string(),
        _ => true,
    }
}

/// Reads the ciphertext of a private message: `None` for a public one (it has
/// a `type`), else the decoded bytes of its content, or the decoder's error
/// text when the text is not valid base64.
pub fn boxed_ciphertext(content: &JsonValue) -> (res: Option<Result<Vec<u8>, String>>)
    requires
        boxed_readable(*content),
    ensures
        match boxed_payload(*content) {
            None => res is None,
            Some(Ok(b)) => res matches Some(Ok(bytes)) && bytes@ == b,
            Some(Err(m)) => res matches Some(Err(e)) && e@ == m,
        },
{
    let is_boxed = match content.get("type") {
        None => true,
        Some(JsonValue::Null) => true,
        _ => false,
    };
    if !is_boxed {
        return None;
    }
    match content {
        JsonValue::String(s) => {
            let trimmed = trim_end_matches(s.as_str(), ".box");
            Some(base64_decode(trimmed.as_str()))
        },
        _ => None,
    }
}

} // verus!
