use moltis_sessions::store::{SessionStore, StoreError};
use serde_json::Value;

fn value(text: &str) -> Value {
    serde_json::from_str(text).unwrap()
}

/// The lines that a log holds after appending `records` to an empty one.
fn appended(records: &[Value]) -> Vec<String> {
    records
        .iter()
        .map(|r| SessionStore::record_line(r).ok().unwrap())
        .collect()
}

#[test]
fn test_append_and_read() {
    let lines = appended(&[
        value(r#"{"role": "user", "content": "hello"}"#),
        value(r#"{"role": "assistant", "content": "hi"}"#),
    ]);
    let msgs = SessionStore::read(&lines);
    assert_eq!(msgs.len(), 2);
    assert_eq!(msgs[0]["role"], "user");
    assert_eq!(msgs[1]["role"], "assistant");
}

#[test]
fn test_read_empty() {
    let msgs = SessionStore::read(&Vec::new());
    assert!(msgs.is_empty());
}

#[test]
fn test_read_last_n() {
    let records: Vec<Value> = (0..10).map(|i| value(&format!(r#"{{"i": {i}}}"#))).collect();
    let lines = appended(&records);
    let last3 = SessionStore::read_last_n(&lines, 3);
    assert_eq!(last3.len(), 3);
    assert_eq!(last3[0]["i"], 7);
    assert_eq!(last3[1]["i"], 8);
    assert_eq!(last3[2]["i"], 9);
}

#[test]
fn test_clear() {
    let lines = appended(&[value(r#"{"role": "user", "content": "hello"}"#)]);
    assert_eq!(SessionStore::read(&lines).len(), 1);
    // A cleared log has no file, which reads as no lines.
    let cleared: Vec<String> = Vec::new();
    assert!(SessionStore::read(&cleared).is_empty());
    assert_eq!(SessionStore::count(&cleared), 0);
}

#[test]
fn test_count() {
    assert_eq!(SessionStore::count(&Vec::new()), 0);
    let lines = appended(&[value(r#"{"role": "user"}"#), value(r#"{"role": "assistant"}"#)]);
    assert_eq!(SessionStore::count(&lines), 2);
}

#[test]
fn test_key_sanitization() {
    assert_eq!(SessionStore::key_to_filename("session:abc-123"), "session_abc-123");
    assert_eq!(SessionStore::file_name("session:abc-123"), "session_abc-123.jsonl");
    let lines = appended(&[value(r#"{"role": "user"}"#)]);
    assert_eq!(SessionStore::read(&lines).len(), 1);
}

#[test]
fn appended_records_read_back_in_order() {
    let records = vec![
        value(r#"{"role": "user", "content": "line one\nline two"}"#),
        value(r#"[1, 2.5, -3, null, true]"#),
        value(r#""just a string""#),
        value(r#"{"nested": {"k": [0.1, 1e300]}}"#),
    ];
    let lines = appended(&records);
    assert_eq!(SessionStore::read(&lines), records);
}

#[test]
fn record_line_is_compact_single_line() {
    let line = SessionStore::record_line(&value("{ \"a\" : 1,\n \"b\": \"x\\ny\" }")).ok().unwrap();
    assert_eq!(line, r#"{"a":1,"b":"x\ny"}"#);
    assert!(!line.contains('\n'));
}

#[test]
fn malformed_line_is_skipped() {
    let lines: Vec<String> = vec![
        r#"{"n": 1}"#.to_string(),
        "{not json".to_string(),
        r#"{"n": 2}"#.to_string(),
    ];
    let msgs = SessionStore::read(&lines);
    assert_eq!(msgs, vec![value(r#"{"n": 1}"#), value(r#"{"n": 2}"#)]);
    assert_eq!(SessionStore::read_last_n(&lines, 5).len(), 2);
}

#[test]
fn blank_lines_are_ignored_and_lines_are_trimmed() {
    let lines: Vec<String> = vec![
        "".to_string(),
        "   \t ".to_string(),
        "   {\"n\": 1}  ".to_string(),
    ];
    assert_eq!(SessionStore::read(&lines), vec![value(r#"{"n": 1}"#)]);
    assert_eq!(SessionStore::count(&lines), 1);
}

#[test]
fn count_does_not_parse() {
    let lines: Vec<String> = vec!["garbage".to_string(), "".to_string(), "{}".to_string()];
    assert_eq!(SessionStore::count(&lines), 2);
    assert_eq!(SessionStore::read(&lines).len(), 1);
}

#[test]
fn read_last_n_edges() {
    let records: Vec<Value> = (0..4).map(|i| value(&i.to_string())).collect();
    let lines = appended(&records);
    assert_eq!(SessionStore::read_last_n(&lines, 0), Vec::<Value>::new());
    assert_eq!(SessionStore::read_last_n(&lines, 4), records);
    assert_eq!(SessionStore::read_last_n(&lines, 100), records);
    assert_eq!(SessionStore::read_last_n(&lines, 1), vec![value("3")]);
    assert!(SessionStore::read_last_n(&Vec::new(), 3).is_empty());
}

#[test]
fn substitute_keys_collide() {
    assert_ne!("a:b", "a_b");
    assert_eq!(SessionStore::file_name("a:b"), SessionStore::file_name("a_b"));
    assert_eq!(SessionStore::file_name("a:b"), "a_b.jsonl");
    assert_eq!(SessionStore::key_to_filename("x::y:"), "x__y_");
}

#[test]
fn path_for_joins_base_dir() {
    let store = SessionStore::new(std::path::PathBuf::from("/data/sessions"));
    assert_eq!(
        store.path_for("telegram:42"),
        std::path::PathBuf::from("/data/sessions/telegram_42.jsonl")
    );
}

#[test]
fn unsafe_path_characters_are_replaced() {
    assert_eq!(SessionStore::key_to_filename("a/b"), "a_b");
    assert_eq!(SessionStore::key_to_filename("a\\b\0c"), "a_b_c");
    assert_eq!(SessionStore::file_name("../x"), ".._x.jsonl");
    assert_eq!(SessionStore::file_name(".."), "...jsonl");
    let store = SessionStore::new(std::path::PathBuf::from("/data"));
    let path = store.path_for("../../etc/passwd");
    assert_eq!(path.parent(), Some(std::path::Path::new("/data")));
}

#[test]
fn record_too_deep_to_read_back_is_refused() {
    let mut v = Value::Null;
    for _ in 0..200 {
        v = Value::Array(vec![v]);
    }
    assert!(matches!(SessionStore::record_line(&v), Err(StoreError::Encode)));
    let mut shallow = Value::Null;
    for _ in 0..10 {
        shallow = Value::Array(vec![shallow]);
    }
    let line = SessionStore::record_line(&shallow).ok().unwrap();
    assert_eq!(SessionStore::read(&vec![line]), vec![shallow]);
}

#[test]
fn record_of_trimmed_text() {
    assert_eq!(SessionStore::record_of_trimmed(""), None);
    assert_eq!(SessionStore::record_of_trimmed("{oops"), None);
    assert_eq!(SessionStore::record_of_trimmed("[1]"), Some(value("[1]")));
}

#[test]
fn unicode_white_space_lines_are_blank() {
    let lines: Vec<String> = vec!["\u{3000}\u{a0}".to_string(), "\u{2028}{}\u{85}".to_string()];
    assert_eq!(SessionStore::count(&lines), 1);
    assert_eq!(SessionStore::read(&lines), vec![value("{}")]);
}

#[test]
fn split_lines_frames_log_bytes() {
    let bytes = b"{\"a\":1}\r\n\n  \nlast".to_vec();
    let lines = SessionStore::split_lines(&bytes);
    assert_eq!(
        lines,
        vec![b"{\"a\":1}".to_vec(), Vec::new(), b"  ".to_vec(), b"last".to_vec()]
    );
    assert_eq!(SessionStore::split_lines(&b"x\n".to_vec()), vec![b"x".to_vec()]);
    assert_eq!(SessionStore::split_lines(&Vec::new()), Vec::<Vec<u8>>::new());
    assert_eq!(SessionStore::split_lines(&b"\n".to_vec()), vec![Vec::<u8>::new()]);
    assert_eq!(SessionStore::split_lines(&b"\xff\xfe\nok\r".to_vec()), vec![vec![0xff, 0xfe], b"ok".to_vec()]);
}
