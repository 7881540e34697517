use ssb_patchql::db::models::abouts::{
    about_target, latest_about, About, AboutDescription, AboutImage, AboutName, AboutTarget,
    ImageInfo,
};
use ssb_patchql::db::models::blob_links::linked_blobs;
use ssb_patchql::db::models::branches::{are_branches_readable, branch_keys};
use ssb_patchql::db::models::messages::message_fields;
use ssb_patchql::db::models::mentions::mentioned_authors;
use ssb_patchql::db::models::posts::{post_kind, PostKind};
use ssb_patchql::db::models::texts::text_of;
use ssb_patchql::db::models::votes::vote_link;
use ssb_patchql::db::models::{
    boxed_ciphertext, is_boxed_readable, links_with_sigil, plan_append, type_is,
};
use ssb_patchql::json::{JsonNumber, JsonValue};
use ssb_patchql::ssb_message::{SsbMessage, SsbValue};

fn s(x: &str) -> JsonValue {
    JsonValue::String(x.to_string())
}

fn obj(entries: Vec<(&str, JsonValue)>) -> JsonValue {
    JsonValue::Object(entries.into_iter().map(|(k, v)| (k.to_string(), v)).collect())
}

fn message(content: JsonValue) -> SsbMessage {
    SsbMessage {
        key: "%msg.sha256".to_string(),
        value: SsbValue { author: "@me.ed25519".to_string(), sequence: 1, content },
    }
}

#[test]
fn plan_for_post_reply() {
    let m = message(obj(vec![
        ("branch", JsonValue::Array(vec![s("%a"), s("%b")])),
        ("mentions", JsonValue::Array(vec![obj(vec![("link", s("@carol"))]), obj(vec![("link", s("&img"))])])),
        ("root", s("%root")),
        ("text", s("hello")),
        ("type", s("post")),
    ]));
    let plan = plan_append(&m);
    assert!(plan.vote.is_none());
    assert_eq!(plan.mentions, vec!["@carol".to_string()]);
    assert_eq!(plan.blob_links, vec!["&img".to_string()]);
    assert!(matches!(plan.post, Some(PostKind::Reply(ref k)) if k == "%root"));
    assert_eq!(plan.branches, vec!["%a".to_string(), "%b".to_string()]);
    assert!(plan.about.is_none());
    assert_eq!(plan.text, Some("hello".to_string()));
}

#[test]
fn plan_for_vote_has_no_links() {
    let m = message(obj(vec![
        ("type", s("vote")),
        (
            "vote",
            obj(vec![
                ("expression", s("Like")),
                ("link", s("%liked")),
                ("value", JsonValue::Number(JsonNumber::PosInt(1))),
            ]),
        ),
    ]));
    let plan = plan_append(&m);
    let vote = plan.vote.expect("a vote");
    assert_eq!(vote.link, "%liked");
    assert_eq!(vote.value, Some(1));
    assert!(plan.mentions.is_empty());
    assert!(plan.blob_links.is_empty());
    assert!(plan.post.is_none());
}

#[test]
fn plan_for_about_author() {
    let m = message(obj(vec![("about", s("@me")), ("name", s("me")), ("type", s("about"))]));
    let plan = plan_append(&m);
    assert!(matches!(plan.about, Some(AboutTarget::Author(ref a)) if a == "@me"));
    assert!(plan.post.is_none());
    assert!(plan.text.is_none());
    assert!(plan.branches.is_empty());
}

#[test]
fn root_post_kind() {
    assert!(matches!(post_kind(&obj(vec![("type", s("post"))])), PostKind::Root));
    assert!(matches!(post_kind(&obj(vec![("root", JsonValue::Null)])), PostKind::Root));
}

#[test]
fn about_targets() {
    assert!(matches!(about_target(&obj(vec![("about", s("%key"))])), Some(AboutTarget::Key(ref k)) if k == "%key"));
    assert!(matches!(about_target(&obj(vec![("about", s("#channel"))])), Some(AboutTarget::Other)));
    assert!(matches!(about_target(&obj(vec![("about", s(""))])), Some(AboutTarget::Other)));
    assert!(about_target(&obj(vec![("about", JsonValue::Bool(true))])).is_none());
}

#[test]
fn vote_values() {
    let vote = |v: JsonValue| obj(vec![("vote", obj(vec![("link", s("%x")), ("value", v)]))]);
    assert_eq!(vote_link(&vote(JsonValue::Number(JsonNumber::NegInt(-1)))).unwrap().value, Some(-1));
    assert_eq!(vote_link(&vote(JsonValue::Number(JsonNumber::PosInt(4294967297)))).unwrap().value, Some(1));
    assert_eq!(vote_link(&vote(JsonValue::Number(JsonNumber::PosInt(u64::MAX)))).unwrap().value, None);
    assert_eq!(vote_link(&vote(JsonValue::Number(JsonNumber::Float))).unwrap().value, None);
    assert!(vote_link(&vote(s("1"))).is_none());
    assert!(vote_link(&obj(vec![("vote", obj(vec![("value", JsonValue::Number(JsonNumber::PosInt(1)))]))])).is_none());
}

#[test]
fn branch_forms() {
    assert_eq!(branch_keys(&obj(vec![("branch", s("%one"))])), vec!["%one".to_string()]);
    assert!(branch_keys(&obj(vec![("branch", JsonValue::Null)])).is_empty());
    assert!(branch_keys(&obj(vec![])).is_empty());
    assert!(branch_keys(&s("%not-an-object")).is_empty());
}

#[test]
fn texts() {
    assert_eq!(text_of(&obj(vec![("text", s("hi"))])), Some("hi".to_string()));
    assert_eq!(text_of(&obj(vec![("text", JsonValue::Bool(false))])), None);
}

#[test]
fn link_filters() {
    let a = s("@alice");
    let b = s("&blob");
    let c = s("%msg");
    let d = JsonValue::Bool(true);
    let e = s("@bob");
    let links = vec![&a, &b, &c, &d, &e];
    assert_eq!(mentioned_authors(&links), vec!["@alice".to_string(), "@bob".to_string()]);
    assert_eq!(linked_blobs(&links), vec!["&blob".to_string()]);
    assert_eq!(links_with_sigil(&links, '%'), vec!["%msg".to_string()]);
}

#[test]
fn message_types() {
    assert!(type_is(&obj(vec![("type", s("post"))]), "post"));
    assert!(!type_is(&obj(vec![("type", s("vote"))]), "post"));
    assert!(!type_is(&s("post"), "post"));
}

#[test]
fn boxed_content() {
    // "aGVsbG8=" is "hello"
    match boxed_ciphertext(&s("aGVsbG8=.box")) {
        Some(Ok(bytes)) => assert_eq!(bytes, b"hello".to_vec()),
        other => panic!("unexpected {:?}", other),
    }
    match boxed_ciphertext(&s("aGVsbG8=.box.box")) {
        Some(Ok(bytes)) => assert_eq!(bytes, b"hello".to_vec()),
        other => panic!("unexpected {:?}", other),
    }
    assert!(matches!(boxed_ciphertext(&s("***.box")), Some(Err(_))));
    assert!(boxed_ciphertext(&obj(vec![("type", s("post"))])).is_none());
}

#[test]
fn about_texts() {
    assert_eq!(AboutName { name: "n".to_string() }.about(), "n");
    assert_eq!(AboutDescription { description: "d".to_string() }.about(), "d");
    assert_eq!(AboutImage { image: ImageInfo { link: "&i".to_string() } }.about(), "&i");
}

#[test]
fn latest_about_takes_first_present() {
    assert_eq!(latest_about(vec![None, Some("b".to_string()), Some("c".to_string())]), Some("b".to_string()));
    assert_eq!(latest_about(vec![None, None]), None);
    assert_eq!(latest_about(vec![]), None);
}

#[test]
fn readability_checks() {
    assert!(are_branches_readable(&obj(vec![("branch", JsonValue::Array(vec![s("%a")]))])));
    assert!(!are_branches_readable(&obj(vec![("branch", JsonValue::Array(vec![s("%a"), JsonValue::Null]))])));
    assert!(are_branches_readable(&obj(vec![("branch", JsonValue::Bool(true))])));
    assert!(is_boxed_readable(&s("abc.box")));
    assert!(!is_boxed_readable(&obj(vec![("text", s("hi"))])));
    assert!(!is_boxed_readable(&obj(vec![("type", JsonValue::Null)])));
    assert!(is_boxed_readable(&obj(vec![("type", s("post"))])));
}

#[test]
fn message_row_fields() {
    let f = message_fields(&obj(vec![("fork", s("%f")), ("root", s("%r")), ("type", s("post"))]));
    assert_eq!(f.content_type, Some("post".to_string()));
    assert_eq!(f.root, Some("%r".to_string()));
    assert_eq!(f.fork, Some("%f".to_string()));
    let g = message_fields(&s("boxed"));
    assert!(g.content_type.is_none() && g.root.is_none() && g.fork.is_none());
}
