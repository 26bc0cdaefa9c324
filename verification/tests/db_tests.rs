use aria_gui::db::{
    column_listed, document_names_task, encode_pending_confirmation, loaded_pending_confirmation,
    pending_matches_task_id, seconds_as_i64, sessions_to_clear, unix_now, PendingConfirmation,
};
use aria_gui::json::JsonValue;

#[test]
fn pending_confirmations_are_stored_as_json() {
    assert_eq!(
        encode_pending_confirmation("t1", "Pay 5?", Some("payment"), "web"),
        r#"{"task_id":"t1","content":"Pay 5?","kind":"payment","skill_type":"web"}"#
    );
    assert_eq!(
        encode_pending_confirmation("t1", "a\"b", None, "fs"),
        r#"{"task_id":"t1","content":"a\"b","kind":null,"skill_type":"fs"}"#
    );
}

#[test]
fn stored_confirmations_are_the_json_serde_reads() {
    for kind in [None, Some("payment")] {
        let text = encode_pending_confirmation("t-1", "Allow?\n\u{1}\u{e9}", kind, "os");
        let v: serde_json::Value = serde_json::from_str(&text).unwrap();
        assert_eq!(v["task_id"].as_str(), Some("t-1"));
        assert_eq!(v["content"].as_str(), Some("Allow?\n\u{1}\u{e9}"));
        assert_eq!(v["kind"].as_str(), kind);
        assert_eq!(v["skill_type"].as_str(), Some("os"));
        assert_eq!(v.as_object().unwrap().len(), 4);
    }
}

fn pending(task_id: &str, kind: Option<&str>) -> PendingConfirmation {
    PendingConfirmation {
        task_id: task_id.to_string(),
        content: "c".to_string(),
        kind: kind.map(|k| k.to_string()),
        skill_type: "fs".to_string(),
    }
}

#[test]
fn loading_a_stored_confirmation() {
    assert_eq!(loaded_pending_confirmation(None), None);
    assert_eq!(loaded_pending_confirmation(Some(Err("duplicate field `task_id`".to_string()))), None);
    assert_eq!(loaded_pending_confirmation(Some(Ok(pending("t", Some("k"))))), Some(pending("t", Some("k"))));
    assert_eq!(loaded_pending_confirmation(Some(Ok(pending("u", None)))), Some(pending("u", None)));
}

#[test]
fn documents_name_their_task() {
    let v = JsonValue::Object(vec![
        ("task_id".to_string(), JsonValue::Str("a".to_string())),
        ("content".to_string(), JsonValue::Str("c".to_string())),
    ]);
    assert!(document_names_task(&v, "a"));
    assert!(!document_names_task(&v, "b"));
    let n = JsonValue::Object(vec![("task_id".to_string(), JsonValue::Number("1".to_string()))]);
    assert!(!document_names_task(&n, "1"));
    assert!(!document_names_task(&JsonValue::Array(vec![]), "a"));
}

#[test]
fn confirmations_match_their_task() {
    let text = encode_pending_confirmation("task-9", "c", None, "fs");
    assert!(pending_matches_task_id(&text, "task-9"));
    assert!(!pending_matches_task_id(&text, "task-1"));
    assert!(!pending_matches_task_id("not json", "task-9"));
    assert!(!pending_matches_task_id(r#"{"task_id":9}"#, "9"));
}

#[test]
fn clearing_picks_the_sessions_of_the_task() {
    let rows = vec![
        ("s1".to_string(), Some(encode_pending_confirmation("a", "c", None, "fs"))),
        ("s2".to_string(), None),
        ("s3".to_string(), Some(encode_pending_confirmation("b", "c", None, "fs"))),
        ("s4".to_string(), Some(encode_pending_confirmation("a", "d", Some("k"), "os"))),
        ("s5".to_string(), Some("broken".to_string())),
    ];
    assert_eq!(sessions_to_clear(&rows, "a"), vec!["s1".to_string(), "s4".to_string()]);
    assert!(sessions_to_clear(&rows, "zzz").is_empty());
}

#[test]
fn clearing_a_task_twice_changes_nothing_more() {
    let mut rows = vec![
        ("s1".to_string(), Some(encode_pending_confirmation("a", "c", None, "fs"))),
        ("s2".to_string(), Some(encode_pending_confirmation("b", "c", None, "fs"))),
        ("s3".to_string(), Some(r#"{"task_id":"b","task_id":"a"}"#.to_string())),
        ("s4".to_string(), None),
    ];
    let ids = sessions_to_clear(&rows, "a");
    assert_eq!(ids, vec!["s1".to_string(), "s3".to_string()]);
    for row in rows.iter_mut() {
        if ids.contains(&row.0) {
            row.1 = None;
        }
    }
    let after = rows.clone();
    assert!(sessions_to_clear(&rows, "a").is_empty());
    assert_eq!(rows, after);
    assert_eq!(sessions_to_clear(&rows, "b"), vec!["s2".to_string()]);
}

#[test]
fn columns() {
    let names = vec!["id".to_string(), "title".to_string(), "created_at".to_string()];
    assert!(column_listed(&names, "title"));
    assert!(!column_listed(&names, "pending_confirmation"));
    assert!(!column_listed(&vec![], "id"));
}

#[test]
fn clock() {
    assert_eq!(seconds_as_i64(1_700_000_000), 1_700_000_000i64);
    assert_eq!(seconds_as_i64(u64::MAX), -1);
    assert!(unix_now() > 1_600_000_000);
}
