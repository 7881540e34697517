//! Rows of the `abouts` table, and the texts that `about` messages set.

use crate::json::{json_index, json_str, JsonValue};
use crate::text::{first_char_is, starts_with_char};
use vstd::prelude::*;

verus! {

/// What an `about` message is about: a feed (`@...`), a message (`%...`), or
/// something else, which is stored with no link.
#[derive(Debug)]
pub enum AboutTarget {
    Author(String),
    Key(String),
    Other,
}

/// Reads what a message is about: its `about` field, when that is a string.
pub fn about_target(content: &JsonValue) -> (target: Option<AboutTarget>)
    ensures
        match json_str(json_index(*content, "about"@)) {
            None => target is None,
            Some(t) => match target {
                Some(AboutTarget::Author(a)) => starts_with_char(t, '@') && a@ == t,
                Some(AboutTarget::Key(k)) => starts_with_char(t, '%') && k@ == t,
                Some(AboutTarget::Other) => !starts_with_char(t, '@') && !starts_with_char(t, '%'),
                None => false,
            },
        },
{
    match content.get("about") {
        Some(JsonValue::String(about_key)) => {
            if first_char_is(about_key.as_str(), '@') {
                Some(AboutTarget::Author(about_key.clone()))
            } else if first_char_is(about_key.as_str(), '%') {
                Some(AboutTarget::Key(about_key.clone()))
            } else {
                Some(AboutTarget::Other)
            }
        },
        _ => None,
    }
}

/// An `about` message that sets a name.
#[derive(Debug)]
pub struct AboutName {
    pub name: String,
}

/// An `about` message that sets a description.
#[derive(Debug)]
pub struct AboutDescription {
    pub description: String,
}

/// The image field of an `about` message.
#[derive(Debug)]
pub struct ImageInfo {
    pub link: String,
}

/// An `about` message that sets an image.
#[derive(Debug)]
pub struct AboutImage {
    pub image: ImageInfo,
}

/// An `about` message that sets one text about an author.
pub trait About {
    /// The text this message sets.
    spec fn about_spec(&self) -> Seq<char>;

    /// The text this message sets.
    fn about(&self) -> (text: &str)
        ensures
            text@ == self.about_spec(),
    ;
}

impl About for AboutName {
    open spec fn about_spec(&self) -> Seq<char> {
        self.name@
    }

    fn about(&self) -> (text: &str) {
        self.name.as_str()
    }
}

impl About for AboutDescription {
    open spec fn about_spec(&self) -> Seq<char> {
        self.description@
    }

    fn about(&self) -> (text: &str) {
        self.description.as_str()
    }
}

impl About for AboutImage {
    open spec fn about_spec(&self) -> Seq<char> {
        self.image.link@
    }

    fn about(&self) -> (text: &str) {
        self.image.link.as_str()
    }
}

/// The first of `candidates` that is there, or none.
pub open spec fn first_present(candidates: Seq<Option<String>>) -> Option<String>
    decreases candidates.len(),
{
    if candidates.len() == 0 {
        None
    } else if candidates[0] is Some {
        candidates[0]
    } else {
        first_present(candidates.drop_first())
    }
}

/// The first present candidate is the one at the smallest index that is
/// there: none only when every candidate is missing, and the candidate at
/// `i` when it is there and every earlier one is missing (so the newest,
/// when it is there).
pub proof fn lemma_first_present_is_earliest(candidates: Seq<Option<String>>)
    ensures
        (forall|i: int| 0 <= i < candidates.len() ==> #[trigger] candidates[i] is None)
            ==> first_present(candidates) is None,
        forall|i: int|
            0 <= i < candidates.len() && #[trigger] candidates[i] is Some && (forall|j: int|
                0 <= j < i ==> candidates[j] is None) ==> first_present(candidates)
                == candidates[i],
        candidates.len() > 0 && candidates[0] is Some ==> first_present(candidates)
            == candidates[0],
    decreases candidates.len(),
{
    if candidates.len() > 0 {
        let rest = candidates.drop_first();
        lemma_first_present_is_earliest(rest);
        assert forall|i: int| 0 <= i < rest.len() implies rest[i] == candidates[i + 1] by {}
        assert forall|i: int|
            0 <= i < candidates.len() && #[trigger] candidates[i] is Some && (forall|j: int|
                0 <= j < i ==> candidates[j] is None) implies first_present(candidates)
            == candidates[i] by {
            if i > 0 {
                assert(candidates[0] is None);
                assert(rest[i - 1] is Some);
                assert forall|j: int| 0 <= j < i - 1 implies rest[j] is None by {
                    assert(candidates[j + 1] is None);
                }
            }
        }
        if forall|i: int| 0 <= i < candidates.len() ==> #[trigger] candidates[i] is None {
            assert(candidates[0] is None);
            assert forall|i: int| 0 <= i < rest.len() implies #[trigger] rest[i] is None by {
                assert(candidates[i + 1] is None);
            }
        }
    }
}

/// Picks an author's current text from the contents of their `about`
/// messages, newest first, each already read as the wanted kind (`None` when
/// it is not of that kind): the newest that was.
pub fn latest_about(candidates: Vec<Option<String>>) -> (text: Option<String>)
    ensures
        text == first_present(candidates@),
{
    let mut i: usize = 0;
    assert(candidates@.skip(0) =~= candidates@);
    while i < candidates.len()
        invariant
            i <= candidates@.len(),
            first_present(candidates@) == first_present(candidates@.skip(i as int)),
        decreases candidates.len() - i,
    {
        assert(candidates@.skip(i as int).drop_first() =~= candidates@.skip(i + 1));
        assert(candidates@.skip(i as int)[0] == candidates@[i as int]);
        if candidates[i].is_some() {
            return candidates[i].clone();
        }
        i = i + 1;
    }
    None
}

} // verus!
