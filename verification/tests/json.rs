use hawkbit_fleet::json::attributes_from_json;
use hawkbit_fleet::json::collect_attributes;
use hawkbit_fleet::json::first_distribution;
use hawkbit_fleet::json::latest_distribution;
use hawkbit_fleet::json::read_members;
use hawkbit_fleet::json::Member;
use serde_json::Value;

fn parse(text: &str) -> Value {
    serde_json::from_str(text).unwrap()
}

#[test]
fn attributes_are_the_members_of_the_answer() {
    let answer = parse(r#"{"update_channel": "beta", "build_channel": "stable", "serial": "0042"}"#);
    let attributes = attributes_from_json(&answer);
    assert_eq!(attributes.len(), 3);
    assert_eq!(attributes.get("update_channel").unwrap(), "beta");
    assert_eq!(attributes.get("build_channel").unwrap(), "stable");
    assert_eq!(attributes.get("serial").unwrap(), "0042");
    assert!(attributes.get("other").is_none());
}

#[test]
fn attributes_that_are_no_strings_are_empty() {
    let answer = parse(r#"{"count": 3, "flag": true, "nested": {"a": "b"}, "none": null, "name": "x"}"#);
    let attributes = attributes_from_json(&answer);
    assert_eq!(attributes.len(), 5);
    assert_eq!(attributes.get("count").unwrap(), "");
    assert_eq!(attributes.get("flag").unwrap(), "");
    assert_eq!(attributes.get("nested").unwrap(), "");
    assert_eq!(attributes.get("none").unwrap(), "");
    assert_eq!(attributes.get("name").unwrap(), "x");
}

#[test]
fn an_answer_that_is_no_object_has_no_attributes() {
    assert!(attributes_from_json(&parse("[1, 2]")).is_empty());
    assert!(attributes_from_json(&parse("\"text\"")).is_empty());
    assert!(attributes_from_json(&Value::Null).is_empty());
    assert!(attributes_from_json(&parse("{}")).is_empty());
}

#[test]
fn members_are_read_with_their_texts() {
    let list = read_members(&parse(r#"{"a": "x", "b": 1}"#)).unwrap();
    assert_eq!(list.len(), 2);
    let a = list.iter().find(|m| m.name == "a").unwrap();
    assert_eq!(a.text.as_deref(), Some("x"));
    let b = list.iter().find(|m| m.name == "b").unwrap();
    assert_eq!(b.text, None);
    assert!(read_members(&parse("7")).is_none());
}

#[test]
fn later_members_override_earlier_ones() {
    let list = vec![
        Member { name: "k".to_string(), text: Some("first".to_string()) },
        Member { name: "other".to_string(), text: None },
        Member { name: "k".to_string(), text: Some("second".to_string()) },
    ];
    let attributes = collect_attributes(&Some(list));
    assert_eq!(attributes.len(), 2);
    assert_eq!(attributes.get("k").unwrap(), "second");
    assert_eq!(attributes.get("other").unwrap(), "");
    assert!(collect_attributes(&None).is_empty());
}

#[test]
fn latest_distribution_is_the_first_of_the_content() {
    let page = parse(r#"{"content": [{"id": 9, "name": "beta EMMC"}, {"id": 3}], "size": 2, "total": 2}"#);
    let latest = latest_distribution(&page).unwrap();
    assert_eq!(latest, parse(r#"{"id": 9, "name": "beta EMMC"}"#));
}

#[test]
fn no_distribution_is_an_error() {
    for text in [r#"{"content": [], "size": 0, "total": 0}"#, r#"{"size": 0}"#, r#"{"content": "x"}"#, "[]", "null"] {
        let e = latest_distribution(&parse(text)).unwrap_err();
        assert_eq!(e.message(), "No available distributions found");
    }
}

#[test]
fn first_of_a_given_listing() {
    let list = vec![parse("1"), parse("2")];
    assert_eq!(first_distribution(Some(&list)).unwrap(), parse("1"));
    let empty: Vec<Value> = Vec::new();
    assert_eq!(
        first_distribution(Some(&empty)).unwrap_err().message(),
        "No available distributions found"
    );
    assert_eq!(first_distribution(None).unwrap_err().message(), "No available distributions found");
}
