use kvedit::app::{App, InputKey, Step};
use kvedit::store::{parse_mapping, StoreError};

fn commit(app: &mut App, k: &str, v: &str) {
    app.handle_key(InputKey::Char('e'));
    for c in k.chars() {
        app.handle_key(InputKey::Char(c));
    }
    app.handle_key(InputKey::Enter);
    for c in v.chars() {
        app.handle_key(InputKey::Char(c));
    }
    assert_eq!(app.handle_key(InputKey::Enter), Step::Committed);
}

#[test]
fn export_single_pair_is_exact_json() {
    let mut app = App::new();
    commit(&mut app, "name", "Alice");
    assert_eq!(app.export_json(), "{\"name\":\"Alice\"}");
}

#[test]
fn export_empty_mapping_is_empty_object() {
    let app = App::new();
    assert_eq!(app.export_json(), "{}");
}

#[test]
fn export_joins_pairs_with_commas() {
    let mut app = App::new();
    commit(&mut app, "a", "1");
    commit(&mut app, "b", "2");
    assert_eq!(app.export_json(), "{\"a\":\"1\",\"b\":\"2\"}");
}

#[test]
fn export_escapes_special_characters() {
    let mut app = App::new();
    commit(&mut app, "q\"b\\", "l1\nl2\tend");
    assert_eq!(app.export_json(), "{\"q\\\"b\\\\\":\"l1\\nl2\\tend\"}");
}

#[test]
fn export_escapes_control_characters() {
    let mut app = App::new();
    commit(&mut app, "k", "\u{01}\u{1f}");
    assert_eq!(app.export_json(), "{\"k\":\"\\u0001\\u001f\"}");
}

#[test]
fn export_agrees_with_serde_encoding() {
    let mut app = App::new();
    commit(&mut app, "name", "Al\"ice\n");
    let mut m = serde_json::Map::new();
    m.insert(
        "name".to_string(),
        serde_json::Value::String("Al\"ice\n".to_string()),
    );
    let expected = serde_json::to_string(&serde_json::Value::Object(m)).unwrap();
    assert_eq!(app.export_json(), expected);
}

#[test]
fn parse_valid_object_yields_pairs() {
    let pairs = parse_mapping("{\"a\":\"b\",\"c\":\"d\"}").unwrap();
    let mut pairs = pairs;
    pairs.sort();
    assert_eq!(
        pairs,
        vec![
            ("a".to_string(), "b".to_string()),
            ("c".to_string(), "d".to_string())
        ]
    );
}

#[test]
fn parse_accepts_whitespace_and_escapes() {
    let pairs = parse_mapping(" { \"a\" : \"b\\n\" } ").unwrap();
    assert_eq!(pairs, vec![("a".to_string(), "b\n".to_string())]);
}

#[test]
fn parse_rejects_non_object() {
    assert_eq!(parse_mapping("[\"a\",\"b\"]"), Err(StoreError::MalformedData));
}

#[test]
fn parse_rejects_non_string_value() {
    assert_eq!(parse_mapping("{\"a\":1}"), Err(StoreError::MalformedData));
}

#[test]
fn parse_rejects_garbage() {
    assert_eq!(parse_mapping("not json"), Err(StoreError::MalformedData));
}

#[test]
fn load_from_str_replaces_mapping() {
    let mut app = App::new();
    commit(&mut app, "old", "gone");
    app.load_from_str("{\"x\":\"y\"}").unwrap();
    assert_eq!(app.pairs, vec![("x".to_string(), "y".to_string())]);
}

#[test]
fn load_from_str_rejects_and_keeps_state() {
    let mut app = App::new();
    commit(&mut app, "keep", "me");
    assert_eq!(app.load_from_str("{\"a\":3}"), Err(StoreError::MalformedData));
    assert_eq!(app.pairs, vec![("keep".to_string(), "me".to_string())]);
}

#[test]
fn load_pairs_last_duplicate_wins() {
    let mut app = App::new();
    app.load_pairs(&vec![
        ("k".to_string(), "first".to_string()),
        ("k".to_string(), "second".to_string()),
    ]);
    assert_eq!(app.pairs, vec![("k".to_string(), "second".to_string())]);
}

#[test]
fn export_then_load_round_trips() {
    let mut app = App::new();
    commit(&mut app, "one", "1");
    commit(&mut app, "two", "v\"al\\ue\n");
    let text = app.export_json();
    let mut other = App::new();
    other.load_from_str(&text).unwrap();
    let mut got = other.pairs.clone();
    got.sort();
    let mut want = app.pairs.clone();
    want.sort();
    assert_eq!(got, want);
}
