use phi_agent::error::AgentError;
use phi_agent::session::{
    cleanup_decision, session_age_days, snapshot_info_from_text, snapshot_info_text, updated_session_meta,
    whole_days_between, count_turn_logs, generate_session_id, is_turn_log_name, last_turn_number, parse_turn_file_name,
    resolve_session_id, session_id_from_parts, session_in_use, should_remove_session, snapshot_info,
    snapshot_not_found, sort_snapshots_newest_first, turn_file_name, validate_session_id, validate_snapshot_name,
    SnapshotInfo,
};

fn message(e: AgentError) -> String {
    e.message().to_string()
}

#[test]
fn session_test_validate_session_id_valid() {
    assert!(validate_session_id("my-session-123").is_ok());
    assert!(validate_session_id("test_456").is_ok());
    assert!(validate_session_id("a").is_ok());
}

#[test]
fn session_test_validate_session_id_invalid() {
    assert!(validate_session_id("").is_err());
    assert!(validate_session_id("my session").is_err());
    assert!(validate_session_id("../etc").is_err());
    assert!(validate_session_id("path/traversal").is_err());
}

#[test]
fn integration_test_test_validate_session_id_valid() {
    assert!(validate_session_id("my-session-123").is_ok());
    assert!(validate_session_id("test_456").is_ok());
    assert!(validate_session_id("a").is_ok());
}

#[test]
fn integration_test_test_validate_session_id_invalid() {
    assert!(validate_session_id("").is_err());
    assert!(validate_session_id("my session").is_err());
    assert!(validate_session_id("../etc").is_err());
    assert!(validate_session_id("path/traversal").is_err());
}

#[test]
fn test_generate_session_id() {
    let id = generate_session_id();
    assert!(id.contains('_'));
    let parts: Vec<&str> = id.split('_').collect();
    assert_eq!(parts.len(), 2);
    assert_eq!(parts[0].len(), 8);
    assert_eq!(parts[1].len(), 8);
}

#[test]
fn test_validate_session_id_returns_config_error() {
    let err = validate_session_id("").unwrap_err();
    assert!(matches!(err, AgentError::ConfigError(_)));
    let err = validate_session_id("../etc").unwrap_err();
    assert!(matches!(err, AgentError::ConfigError(_)));
}

#[test]
fn test_validate_snapshot_name_valid() {
    assert!(validate_snapshot_name("my-snapshot").is_ok());
    assert!(validate_snapshot_name("test_123").is_ok());
    assert!(validate_snapshot_name("a").is_ok());
    assert!(validate_snapshot_name("snapshot-2024-01-01").is_ok());
}

#[test]
fn test_validate_snapshot_name_invalid() {
    assert!(validate_snapshot_name("").is_err());
    assert!(validate_snapshot_name("../etc").is_err());
    assert!(validate_snapshot_name("path/traversal").is_err());
    assert!(validate_snapshot_name("back\\slash").is_err());
    assert!(validate_snapshot_name("dot..dot").is_err());
    assert!(validate_snapshot_name("has space").is_err());
    assert!(validate_snapshot_name(&"x".repeat(65)).is_err());
}

#[test]
fn test_validate_snapshot_name_returns_config_error() {
    let err = validate_snapshot_name("").unwrap_err();
    assert!(matches!(err, AgentError::ConfigError(_)));
    let err = validate_snapshot_name("../etc").unwrap_err();
    assert!(matches!(err, AgentError::ConfigError(_)));
}

// ── Exact messages ──

#[test]
fn session_id_length_error_message() {
    assert_eq!(message(validate_session_id("").unwrap_err()), "Session ID must be 1-128 characters, got 0");
    let long = "a".repeat(129);
    assert_eq!(message(validate_session_id(&long).unwrap_err()), "Session ID must be 1-128 characters, got 129");
    assert!(validate_session_id(&"a".repeat(128)).is_ok());
}

#[test]
fn session_id_format_error_message() {
    assert_eq!(
        message(validate_session_id("my session").unwrap_err()),
        "Invalid session_id format 'my session'. Only alphanumeric, hyphens, and underscores allowed."
    );
}

#[test]
fn session_id_length_counts_bytes() {
    // 65 two-byte characters are 130 bytes.
    let wide = "é".repeat(65);
    assert_eq!(message(validate_session_id(&wide).unwrap_err()), "Session ID must be 1-128 characters, got 130");
}

#[test]
fn snapshot_name_error_messages() {
    assert_eq!(message(validate_snapshot_name(&"x".repeat(65)).unwrap_err()), "Snapshot name must be 1-64 characters, got 65");
    assert_eq!(
        message(validate_snapshot_name("a/b").unwrap_err()),
        "Invalid snapshot name 'a/b': path separators and '..' are not allowed"
    );
    assert_eq!(
        message(validate_snapshot_name("has space").unwrap_err()),
        "Invalid snapshot name 'has space'. Only alphanumeric, hyphens, and underscores allowed."
    );
    assert!(validate_snapshot_name(&"x".repeat(64)).is_ok());
}

// ── Session id resolution ──

#[test]
fn resolve_prefers_the_command_line() {
    assert_eq!(resolve_session_id(Some("cli-id"), Some("env-id")).unwrap(), "cli-id");
    assert_eq!(resolve_session_id(None, Some("env-id")).unwrap(), "env-id");
}

#[test]
fn resolve_rejects_invalid_ids() {
    assert!(matches!(resolve_session_id(Some("bad id"), None), Err(AgentError::ConfigError(_))));
    assert!(matches!(resolve_session_id(None, Some("bad id")), Err(AgentError::ConfigError(_))));
}

#[test]
fn resolve_generates_when_nothing_given() {
    let id = resolve_session_id(None, None).unwrap();
    assert_eq!(id.len(), 17);
    let id2 = resolve_session_id(None, Some("")).unwrap();
    assert_eq!(id2.len(), 17);
    assert!(validate_session_id(&id).is_ok());
}

#[test]
fn session_id_from_parts_keeps_eight_uuid_chars() {
    assert_eq!(session_id_from_parts("20240102", "0123abcd-4567-89ef"), "20240102_0123abcd");
    assert_eq!(session_id_from_parts("20240102", "abc"), "20240102_abc");
}

// ── Turn logs ──

#[test]
fn turn_file_names_are_padded() {
    assert_eq!(turn_file_name(1), "turn_001.jsonl");
    assert_eq!(turn_file_name(42), "turn_042.jsonl");
    assert_eq!(turn_file_name(1234), "turn_1234.jsonl");
}

#[test]
fn turn_file_names_parse_back() {
    assert_eq!(parse_turn_file_name("turn_001.jsonl"), Some(1));
    assert_eq!(parse_turn_file_name("turn_17.jsonl"), Some(17));
    assert_eq!(parse_turn_file_name("turn_x.jsonl"), None);
    assert_eq!(parse_turn_file_name("session.log"), None);
    assert!(is_turn_log_name("turn_001.jsonl"));
    assert!(!is_turn_log_name("turn_001.json"));
}

#[test]
fn last_turn_number_is_the_largest() {
    let names: Vec<String> = vec!["turn_001.jsonl", "session.log", "turn_010.jsonl", "turn_003.jsonl", "turn_bad.jsonl"]
        .into_iter()
        .map(String::from)
        .collect();
    assert_eq!(last_turn_number(&names), 10);
    assert_eq!(last_turn_number(&Vec::new()), 0);
}

#[test]
fn count_turn_logs_counts_only_turn_logs() {
    let names: Vec<String> =
        vec!["turn_001.jsonl", "session_meta.json", "turn_002.jsonl", "session.lock"].into_iter().map(String::from).collect();
    assert_eq!(count_turn_logs(&names), 2);
}

// ── Cleanup ──

#[test]
fn cleanup_rules() {
    assert!(!should_remove_session(true, false, None, 7));
    assert!(should_remove_session(false, false, None, 7));
    assert!(should_remove_session(false, true, Some(8), 7));
    assert!(!should_remove_session(false, true, Some(7), 7));
    assert!(!should_remove_session(false, true, None, 7));
}

// ── Snapshots ──

fn snap(name: &str, created_at: &str) -> SnapshotInfo {
    SnapshotInfo {
        name: name.to_string(),
        session_id: "s".to_string(),
        created_at: created_at.to_string(),
        turn_count: 0,
        path: std::path::PathBuf::from(name),
    }
}

#[test]
fn snapshots_are_listed_newest_first_stably() {
    let snaps = vec![
        snap("first", "2024-01-01T00:00:00Z"),
        snap("second", "2024-03-01T00:00:00Z"),
        snap("twin-a", "2024-02-01T00:00:00Z"),
        snap("twin-b", "2024-02-01T00:00:00Z"),
    ];
    let sorted = sort_snapshots_newest_first(snaps);
    let names: Vec<&str> = sorted.iter().map(|s| s.name.as_str()).collect();
    assert_eq!(names, vec!["second", "twin-a", "twin-b", "first"]);
}

#[test]
fn snapshot_info_defaults() {
    let info = snapshot_info("n".to_string(), None, None, None, std::path::PathBuf::from("p"));
    assert_eq!(info.session_id, "-");
    assert_eq!(info.created_at, "-");
    assert_eq!(info.turn_count, 0);
    let info = snapshot_info("n".to_string(), Some("sid"), Some("t"), Some(5), std::path::PathBuf::from("p"));
    assert_eq!(info.session_id, "sid");
    assert_eq!(info.created_at, "t");
    assert_eq!(info.turn_count, 5);
    let info = snapshot_info("n".to_string(), None, None, Some((1u64 << 32) + 3), std::path::PathBuf::from("p"));
    assert_eq!(info.turn_count, 3);
}

#[test]
fn error_messages_of_missing_and_locked() {
    assert_eq!(message(snapshot_not_found("x", None)), "Snapshot 'x' not found");
    assert_eq!(message(snapshot_not_found("x", Some("/tmp/s/x"))), "Snapshot 'x' not found at /tmp/s/x");
    let e = session_in_use("abc");
    assert!(matches!(e, AgentError::ResourceUnavailable(_)));
    assert_eq!(message(e), "Session 'abc' is currently in use by another process");
}

#[test]
fn whole_days_round_toward_zero() {
    let day: i64 = 86_400_000;
    assert_eq!(whole_days_between(3 * day - 1, 0), 2);
    assert_eq!(whole_days_between(3 * day, 0), 3);
    assert_eq!(whole_days_between(0, 3 * day - 1), -2);
    assert_eq!(whole_days_between(5, 5), 0);
    assert_eq!(whole_days_between(i64::MAX, i64::MIN), 213_503_982_334);
}

#[test]
fn session_age_from_rfc3339() {
    let now = 1_714_557_600_000; // 2024-05-01T10:00:00Z
    assert_eq!(session_age_days("2024-04-21T10:00:00Z", now), Some(10));
    assert_eq!(session_age_days("2024-04-21T10:00:00.001+00:00", now), Some(9));
    assert_eq!(session_age_days("2024-04-21T12:00:00+02:00", now), Some(10));
    assert_eq!(session_age_days("yesterday", now), None);
}

#[test]
fn cleanup_decisions() {
    let now = 1_714_557_600_000; // 2024-05-01T10:00:00Z
    let old = r#"{"last_active_at": "2024-04-01T10:00:00+00:00"}"#;
    let recent = r#"{"last_active_at": "2024-04-30T10:00:00+00:00"}"#;
    assert_eq!(cleanup_decision(true, Some(old), now, 7).unwrap(), false);
    assert_eq!(cleanup_decision(true, Some("not json"), now, 7).unwrap(), false);
    assert_eq!(cleanup_decision(false, None, now, 7).unwrap(), true);
    assert_eq!(cleanup_decision(false, Some(old), now, 7).unwrap(), true);
    assert_eq!(cleanup_decision(false, Some(recent), now, 7).unwrap(), false);
    assert_eq!(cleanup_decision(false, Some(r#"{"session_id": "s"}"#), now, 7).unwrap(), false);
    assert_eq!(cleanup_decision(false, Some(r#"{"last_active_at": "soon"}"#), now, 7).unwrap(), false);
    assert!(matches!(cleanup_decision(false, Some("{broken"), now, 7), Err(AgentError::Internal(_))));
}

#[test]
fn snapshot_info_read_from_its_file() {
    let text = r#"{"session_id": "s1", "snapshot_name": "a", "created_at": "2024-05-01T10:00:00+00:00", "turn_count": 3}"#;
    let info = snapshot_info_from_text("a".to_string(), text, std::path::PathBuf::from("/tmp/a")).unwrap();
    assert_eq!(info.name, "a");
    assert_eq!(info.session_id, "s1");
    assert_eq!(info.created_at, "2024-05-01T10:00:00+00:00");
    assert_eq!(info.turn_count, 3);
    let bare = snapshot_info_from_text("b".to_string(), "{}", std::path::PathBuf::from("/tmp/b")).unwrap();
    assert_eq!(bare.session_id, "-");
    assert_eq!(bare.created_at, "-");
    assert_eq!(bare.turn_count, 0);
    assert!(matches!(
        snapshot_info_from_text("c".to_string(), "nope", std::path::PathBuf::from("/tmp/c")),
        Err(AgentError::Internal(_))
    ));
}

#[test]
fn snapshot_info_text_round_trips() {
    let text = snapshot_info_text("s1", "before-refactor", "2024-05-01T10:00:00+00:00", 4).unwrap();
    assert!(text.contains('\n'));
    let v: serde_json::Value = serde_json::from_str(&text).unwrap();
    assert_eq!(v["session_id"], "s1");
    assert_eq!(v["snapshot_name"], "before-refactor");
    assert_eq!(v["created_at"], "2024-05-01T10:00:00+00:00");
    assert_eq!(v["turn_count"], 4);
    let info = snapshot_info_from_text("before-refactor".to_string(), &text, std::path::PathBuf::from("/x")).unwrap();
    assert_eq!(info.turn_count, 4);
    assert_eq!(info.session_id, "s1");
}

#[test]
fn session_metadata_is_created_then_updated() {
    let first = updated_session_meta(None, "s1", "2024-05-01T10:00:00+00:00").unwrap();
    let v: serde_json::Value = serde_json::from_str(&first).unwrap();
    assert_eq!(v["session_id"], "s1");
    assert_eq!(v["created_at"], "2024-05-01T10:00:00+00:00");
    assert_eq!(v["last_active_at"], "2024-05-01T10:00:00+00:00");
    let second = updated_session_meta(Some(&first), "ignored", "2024-05-02T10:00:00+00:00").unwrap();
    let v: serde_json::Value = serde_json::from_str(&second).unwrap();
    assert_eq!(v["session_id"], "s1");
    assert_eq!(v["created_at"], "2024-05-01T10:00:00+00:00");
    assert_eq!(v["last_active_at"], "2024-05-02T10:00:00+00:00");
    let extra = updated_session_meta(Some(r#"{"note": 1}"#), "s", "t").unwrap();
    let v: serde_json::Value = serde_json::from_str(&extra).unwrap();
    assert_eq!(v["note"], 1);
    assert_eq!(v["last_active_at"], "t");
    assert!(matches!(updated_session_meta(Some("{"), "s", "t"), Err(AgentError::Internal(_))));
    assert!(matches!(updated_session_meta(Some("[1]"), "s", "t"), Err(AgentError::Internal(_))));
}

#[test]
fn expiry_needs_full_days_past_the_limit() {
    let now = 1_714_557_600_000; // 2024-05-01T10:00:00Z
    let eight_days = r#"{"last_active_at": "2024-04-23T10:00:00Z"}"#;
    let almost = r#"{"last_active_at": "2024-04-23T10:00:00.001Z"}"#;
    assert_eq!(cleanup_decision(false, Some(eight_days), now, 7).unwrap(), true);
    assert_eq!(cleanup_decision(false, Some(almost), now, 7).unwrap(), false);
    let future = r#"{"last_active_at": "2024-06-01T10:00:00Z"}"#;
    assert_eq!(cleanup_decision(false, Some(future), now, 0).unwrap(), false);
}
