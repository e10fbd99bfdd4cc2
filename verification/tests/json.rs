use chat_api::json::{Json, Member};
use chat_api::text::same_text;

fn text(value: &str) -> Json {
    Json::Text(value.to_string())
}

fn object(members: Vec<(&str, Json)>) -> Json {
    Json::Object(
        members.into_iter().map(|(key, value)| Member { key: key.to_string(), value }).collect(),
    )
}

#[test]
fn get_finds_a_member() {
    let doc = object(vec![("a", text("1")), ("b", Json::Bool(true)), ("c", Json::Null)]);
    assert_eq!(doc.get("a"), Some(&text("1")));
    assert_eq!(doc.get("b"), Some(&Json::Bool(true)));
    assert_eq!(doc.get("c"), Some(&Json::Null));
    assert_eq!(doc.get("d"), None);
    assert_eq!(doc.get(""), None);
    assert_eq!(doc.get("A"), None);
}

#[test]
fn get_finds_the_first_of_equal_keys() {
    let doc = object(vec![("k", text("first")), ("k", text("second"))]);
    assert_eq!(doc.get("k"), Some(&text("first")));
}

#[test]
fn get_on_what_is_no_object() {
    assert_eq!(Json::Null.get("a"), None);
    assert_eq!(text("a").get("a"), None);
    assert_eq!(Json::Array(vec![text("a")]).get("a"), None);
    assert_eq!(Json::Integer(3).get("a"), None);
    assert_eq!(object(vec![]).get("a"), None);
}

#[test]
fn at_finds_an_element() {
    let doc = Json::Array(vec![text("zero"), Json::Integer(1), Json::Null]);
    assert_eq!(doc.at(0), Some(&text("zero")));
    assert_eq!(doc.at(1), Some(&Json::Integer(1)));
    assert_eq!(doc.at(2), Some(&Json::Null));
    assert_eq!(doc.at(3), None);
    assert_eq!(doc.at(usize::MAX), None);
}

#[test]
fn at_on_what_is_no_array() {
    assert_eq!(Json::Null.at(0), None);
    assert_eq!(object(vec![("0", text("x"))]).at(0), None);
    assert_eq!(Json::Array(vec![]).at(0), None);
}

#[test]
fn as_str_gives_only_strings() {
    assert_eq!(text("hello").as_str(), Some("hello"));
    assert_eq!(text("").as_str(), Some(""));
    assert_eq!(Json::Null.as_str(), None);
    assert_eq!(Json::Real("1.5".to_string()).as_str(), None);
    assert_eq!(Json::Integer(7).as_str(), None);
    assert_eq!(Json::Array(vec![text("x")]).as_str(), None);
}

#[test]
fn as_array_gives_only_arrays() {
    let items = vec![text("a"), Json::Null];
    assert_eq!(Json::Array(vec![text("a"), Json::Null]).as_array(), Some(&items));
    assert_eq!(Json::Array(vec![]).as_array(), Some(&Vec::new()));
    assert_eq!(text("a").as_array(), None);
    assert_eq!(object(vec![]).as_array(), None);
}

#[test]
fn same_text_compares_characters() {
    assert!(same_text("", ""));
    assert!(same_text("héllo", "héllo"));
    assert!(!same_text("hello", "hellO"));
    assert!(!same_text("hello", "hell"));
    assert!(!same_text("", " "));
    assert!(!same_text("é", "e\u{301}"));
}
