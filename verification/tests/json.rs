use rustshell::json::{
    count_field, flag_field, flag_is_set, json_line, set_count, set_flag, set_text, text_field, text_is,
};
use serde_json::Value;

fn sample() -> Value {
    let mut members = serde_json::Map::new();
    members.insert("text".to_owned(), Value::from("a \"b\"\n"));
    members.insert("flag".to_owned(), Value::from(true));
    members.insert("count".to_owned(), Value::from(7u64));
    members.insert("negative".to_owned(), Value::from(-7));
    Value::Object(members)
}

#[test]
fn members_are_read_by_their_kind() {
    let value = sample();
    assert_eq!(text_field(&value, "text").as_deref(), Some("a \"b\"\n"));
    assert_eq!(text_field(&value, "flag"), None);
    assert_eq!(text_field(&value, "absent"), None);
    assert!(text_is(&value, "text", "a \"b\"\n"));
    assert!(!text_is(&value, "text", "a"));
    assert!(!text_is(&value, "flag", "true"));
    assert_eq!(flag_field(&value, "flag"), Some(true));
    assert_eq!(flag_field(&value, "text"), None);
    assert!(flag_is_set(&value, "flag"));
    assert!(!flag_is_set(&value, "absent"));
    assert_eq!(count_field(&value, "count"), Some(7));
    assert_eq!(count_field(&value, "negative"), None);
    assert_eq!(text_field(&Value::from("text"), "text"), None);
}

#[test]
fn members_are_set_on_objects_only() {
    let mut value = sample();
    set_text(&mut value, "text", "new");
    set_flag(&mut value, "other", false);
    set_count(&mut value, "count", u64::MAX);
    assert_eq!(text_field(&value, "text").as_deref(), Some("new"));
    assert_eq!(flag_field(&value, "other"), Some(false));
    assert_eq!(count_field(&value, "count"), Some(u64::MAX));
    let mut list = Value::from(vec![1, 2]);
    set_flag(&mut list, "flag", true);
    assert_eq!(list, Value::from(vec![1, 2]));
}

#[test]
fn a_document_is_one_line_that_reads_back() {
    let line = json_line(&sample()).unwrap();
    assert_eq!(line.iter().filter(|b| **b == b'\n').count(), 1);
    assert_eq!(line.last(), Some(&b'\n'));
    let back: Value = serde_json::from_slice(&line[..line.len() - 1]).unwrap();
    assert_eq!(back, sample());
}

#[test]
fn nested_documents_read_back_up_to_a_depth() {
    let nested = |depth: usize| (0..depth).fold(sample(), |value, _| Value::Array(vec![value]));
    let deepest = nested(126);
    let line = json_line(&deepest).unwrap();
    assert_eq!(serde_json::from_slice::<Value>(&line).unwrap(), deepest);
    assert!(serde_json::from_slice::<Value>(&json_line(&nested(127)).unwrap()).is_err());
}
