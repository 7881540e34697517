use ssb_patchql::json::{find_values_in_object_by_key, JsonNumber, JsonValue};

fn s(x: &str) -> JsonValue {
    JsonValue::String(x.to_string())
}

fn obj(entries: Vec<(&str, JsonValue)>) -> JsonValue {
    JsonValue::Object(entries.into_iter().map(|(k, v)| (k.to_string(), v)).collect())
}

fn strings(values: &[&JsonValue]) -> Vec<String> {
    values
        .iter()
        .map(|v| match v {
            JsonValue::String(t) => t.clone(),
            _ => "<other>".to_string(),
        })
        .collect()
}

#[test]
fn find_values_nested() {
    let content = obj(vec![
        ("link", s("%root")),
        (
            "mentions",
            JsonValue::Array(vec![
                obj(vec![("link", s("@alice")), ("name", s("alice"))]),
                obj(vec![("link", s("&blob")), ("size", JsonValue::Number(JsonNumber::PosInt(3)))]),
            ]),
        ),
        ("nested", obj(vec![("deeper", obj(vec![("link", s("@bob"))]))])),
        ("text", s("link")),
    ]);
    let mut values = Vec::new();
    find_values_in_object_by_key(&content, "link", &mut values);
    assert_eq!(strings(&values), vec!["%root", "@alice", "&blob", "@bob"]);
}

#[test]
fn find_values_appends_to_existing() {
    let first = s("kept");
    let content = obj(vec![("link", s("@x"))]);
    let mut values = vec![&first];
    find_values_in_object_by_key(&content, "link", &mut values);
    assert_eq!(strings(&values), vec!["kept", "@x"]);
}

#[test]
fn find_values_skips_scalars_and_top_level_array_get() {
    let content = JsonValue::Array(vec![s("link"), obj(vec![("link", JsonValue::Null)])]);
    let mut values = Vec::new();
    find_values_in_object_by_key(&content, "link", &mut values);
    assert_eq!(values.len(), 1);
    assert!(matches!(values[0], JsonValue::Null));
}

#[test]
fn find_values_none() {
    let content = s("just text");
    let mut values = Vec::new();
    find_values_in_object_by_key(&content, "link", &mut values);
    assert!(values.is_empty());
}

#[test]
fn get_and_as_str() {
    let content = obj(vec![("a", s("x")), ("b", JsonValue::Bool(true))]);
    assert_eq!(content.get("a").and_then(|v| v.as_str()), Some("x"));
    assert!(content.get("b").unwrap().as_str().is_none());
    assert!(content.get("c").is_none());
    assert!(s("a").get("a").is_none());
    assert!(content.get("a").unwrap().is_string());
}

#[test]
fn number_as_i64() {
    assert_eq!(JsonNumber::PosInt(7).as_i64(), Some(7));
    assert_eq!(JsonNumber::PosInt(u64::MAX).as_i64(), None);
    assert_eq!(JsonNumber::PosInt(i64::MAX as u64).as_i64(), Some(i64::MAX));
    assert_eq!(JsonNumber::NegInt(-5).as_i64(), Some(-5));
    assert_eq!(JsonNumber::Float.as_i64(), None);
}

#[test]
fn get_finds_each_key_of_an_object_with_distinct_keys() {
    let o = obj(vec![("a", s("1")), ("b", s("2")), ("c", s("3"))]);
    for (k, v) in [("a", "1"), ("b", "2"), ("c", "3")] {
        assert_eq!(o.get(k).and_then(|x| x.as_str()), Some(v));
    }
    assert!(o.get("d").is_none());
}
