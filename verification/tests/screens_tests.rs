use phi_agent::scaffold::{cargo_toml_text, created_text, main_source, ENV_EXAMPLE, LIB_RS, MAIN_RS};
use phi_agent::screens::{
    compaction_failed_text, compaction_text, events_text, session_context_text, session_info_line,
    snapshot_list_failed_text, snapshot_save_failed_text, snapshot_saved_text, snapshots_text, tools_text,
    turn_error_text, welcome_banner, ToolListing, TurnLogFile, SESSION_RESET_TEXT, SNAPSHOT_USAGE_TEXT,
};
use phi_agent::session::SnapshotInfo;

#[test]
fn banner_pads_model_and_session() {
    let b = welcome_banner("gpt-4o", "20240501_abcd1234", true);
    let lines: Vec<&str> = b.split('\n').collect();
    assert_eq!(lines[0], "");
    assert_eq!(lines[1], "╔═══════════════════════════════════════════════════╗");
    assert_eq!(lines[4], format!("║  Model: {:<42}║", "gpt-4o"));
    assert_eq!(lines[5], format!("║  Session: {:<40}║", "20240501_abcd1234"));
    assert_eq!(lines[6], "║  Status: New session                                ║");
    assert_eq!(lines[10], "╚═══════════════════════════════════════════════════╝");
    assert!(b.ends_with("╝\n\n"));
    assert_eq!(lines[1].chars().count(), lines[4].chars().count());
    assert_eq!(lines[4].chars().count(), lines[5].chars().count());
}

#[test]
fn banner_names_default_model_and_reused_session() {
    let b = welcome_banner("", "s", false);
    assert!(b.contains(&format!("║  Model: {:<42}║", "default")));
    assert!(b.contains("║  Status: Reusing session                            ║"));
}

#[test]
fn session_report_lines() {
    let out = session_context_text("s1", "/tmp/sessions/s1", false, 3, "/tmp/sessions/s1/phi.log");
    assert_eq!(
        out,
        "\n  \x1b[1mSession Context\x1b[0m\n  ─────────────────\n  Session ID:  s1\n  Directory:   /tmp/sessions/s1\n  Status:      reused\n  Turn:        3\n  Log:         /tmp/sessions/s1/phi.log\n\n"
    );
    assert!(session_context_text("s", "d", true, 0, "l").contains("  Status:      new\n"));
}

#[test]
fn events_report_lists_each_turn() {
    let logs = vec![
        TurnLogFile { path: "/s/turn_001.jsonl".to_string(), size: 120 },
        TurnLogFile { path: "/s/turn_002.jsonl".to_string(), size: 0 },
    ];
    let out = events_text(2, &logs);
    assert_eq!(
        out,
        "\n  \x1b[1mEvent Stream\x1b[0m\n  ────────────────\n  Turns completed: 2\n    turn 001: /s/turn_001.jsonl (120 bytes)\n    turn 002: /s/turn_002.jsonl (0 bytes)\n\n"
    );
    let none = events_text(0, &Vec::new());
    assert!(none.ends_with("  Turns completed: 0\n  (no turns yet)\n\n"));
}

#[test]
fn tools_report() {
    assert_eq!(tools_text(&Vec::new()), "\n  (no tools registered)\n\n");
    let tools = vec![
        ToolListing {
            name: "shell".to_string(),
            origin: "builtin".to_string(),
            version: "1.0".to_string(),
            description: "Runs commands".to_string(),
            requirements: vec!["bash".to_string(), "coreutils".to_string()],
        },
        ToolListing {
            name: "get_time".to_string(),
            origin: "custom".to_string(),
            version: "0.1".to_string(),
            description: "Tells the time".to_string(),
            requirements: Vec::new(),
        },
    ];
    assert_eq!(
        tools_text(&tools),
        "\n  Registered tools (2):\n\n  \x1b[1mshell\x1b[0m  builtin  v1.0\n    Runs commands\n    requirements: bash, coreutils\n  \x1b[1mget_time\x1b[0m  custom  v0.1\n    Tells the time\n\n"
    );
}

#[test]
fn snapshots_report() {
    assert_eq!(snapshots_text(&Vec::new()), "\n  (no snapshots saved)\n\n");
    let snaps = vec![SnapshotInfo {
        name: "before".to_string(),
        session_id: "s1".to_string(),
        created_at: "2024-05-01T10:00:00+00:00".to_string(),
        turn_count: 4,
        path: std::path::PathBuf::from("/x"),
    }];
    assert_eq!(
        snapshots_text(&snaps),
        "\n  \x1b[1mSnapshots\x1b[0m (1):\n\n  \x1b[1mbefore\x1b[0m  (s1)\n    4 turns, saved 2024-05-01T10:00:00+00:00\n\n"
    );
}

#[test]
fn command_messages() {
    assert_eq!(SESSION_RESET_TEXT, "\n✅ New session created\n");
    assert_eq!(SNAPSHOT_USAGE_TEXT, "  Usage: snapshot <name>\n");
    assert_eq!(compaction_text(true), "\n✅ Session compressed (history summarised, recent messages kept)\n");
    assert_eq!(compaction_text(false), "\n✅ Session is below threshold — no compression needed\n");
    assert_eq!(compaction_failed_text("boom"), "\n❌ Compression failed: boom\n");
    assert_eq!(snapshot_saved_text("v1"), "\n✅ Snapshot 'v1' saved\n\n");
    assert_eq!(snapshot_save_failed_text("disk full"), "\n  Failed to save snapshot: disk full\n\n");
    assert_eq!(snapshot_list_failed_text("denied"), "  Failed to list snapshots: denied\n");
    assert_eq!(turn_error_text("timeout"), "\n❌ Error: timeout\n");
}

#[test]
fn one_shot_session_info_line() {
    assert_eq!(
        session_info_line("s1", true).unwrap(),
        r#"{"is_new_session":true,"session_id":"s1","type":"session_info"}"#
    );
    let v: serde_json::Value = serde_json::from_str(&session_info_line("a\"b", false).unwrap()).unwrap();
    assert_eq!(v["session_id"], "a\"b");
    assert_eq!(v["is_new_session"], false);
}

#[test]
fn scaffold_cargo_toml_depends_on_editor_only_for_repl() {
    let repl = cargo_toml_text("demo", "0.3.0", false);
    assert!(repl.starts_with("[package]\nname = \"demo\"\nversion = \"0.1.0\"\nedition = \"2021\"\n"));
    assert!(repl.contains("phi-agent = \"0.3.0\"\n"));
    assert!(repl.contains("dotenvy = \"0.15\"\nrustyline = \"15\"\nasync-trait = \"0.1\"\n"));
    let lib = cargo_toml_text("demo", "0.3.0", true);
    assert!(!lib.contains("rustyline"));
    assert!(lib.contains("dotenvy = \"0.15\"\nasync-trait = \"0.1\"\n"));
    assert!(lib.ends_with("chrono = \"0.4\"\n"));
}

#[test]
fn scaffold_sources_and_message() {
    assert_eq!(main_source(false), MAIN_RS);
    assert_eq!(main_source(true), LIB_RS);
    assert!(MAIN_RS.contains("rustyline::DefaultEditor"));
    assert!(!LIB_RS.contains("rustyline"));
    assert!(ENV_EXAMPLE.contains("LLM_API_KEY=sk-your-key-here\n"));
    assert_eq!(
        created_text("demo", false),
        "✅ Created project: demo (REPL)\n\nNext steps:\n  cd demo\n  cp .env.example .env   # edit with your API key\n  cargo run\n"
    );
    assert!(created_text("x", true).starts_with("✅ Created project: x (library integration)\n"));
}
