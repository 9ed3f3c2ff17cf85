use phi_agent::bridge::{RunConfig, SessionChoice, SessionRegistry, ToolMetadata, PROTOCOL_VERSION};

#[test]
fn test_protocol_version_is_1() {
    assert_eq!(PROTOCOL_VERSION, 1);
}

#[test]
fn test_run_config_default_all_none() {
    let cfg = RunConfig::default();
    assert!(cfg.model.is_none());
    assert!(cfg.api_key.is_none());
    assert!(cfg.base_url.is_none());
    assert!(cfg.enable_thinking.is_none());
    assert!(cfg.thinking_budget.is_none());
    assert!(cfg.thinking_effort.is_none());
    assert!(cfg.max_tool_calls_per_turn.is_none());
    assert!(cfg.max_consecutive_failures.is_none());
    assert!(cfg.max_turns.is_none());
}

#[test]
fn tool_metadata_holds_its_fields() {
    let tm = ToolMetadata {
        name: "shell".into(),
        description: "Run shell commands".into(),
        origin: "phi-tools".into(),
        version: "1.0.0".into(),
        requirements: vec!["bash".into()],
    };
    let back = tm.clone();
    assert_eq!(back.name, "shell");
    assert_eq!(back.requirements, vec!["bash".to_string()]);
}

#[test]
fn registry_reuses_the_session_of_an_external_id() {
    let mut reg = SessionRegistry::new();
    match reg.choose_session(Some("shared")) {
        SessionChoice::Create(Some(ext)) => reg.register(ext, 7),
        _ => panic!("first run must create a session"),
    }
    assert!(matches!(reg.choose_session(Some("shared")), SessionChoice::Reuse(7)));
    assert_eq!(reg.lookup("shared"), Some(7));
}

#[test]
fn registry_keeps_external_ids_apart() {
    let mut reg = SessionRegistry::new();
    reg.register("a".to_string(), 1);
    reg.register("b".to_string(), 2);
    assert_eq!(reg.lookup("a"), Some(1));
    assert_eq!(reg.lookup("b"), Some(2));
    assert_eq!(reg.lookup("c"), None);
    reg.register("a".to_string(), 3);
    assert_eq!(reg.lookup("a"), Some(3));
    assert_eq!(reg.lookup("b"), Some(2));
}

#[test]
fn anonymous_runs_always_get_a_new_session() {
    let mut reg = SessionRegistry::new();
    reg.register("x".to_string(), 1);
    assert!(matches!(reg.choose_session(None), SessionChoice::Create(None)));
}
