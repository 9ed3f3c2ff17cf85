use phi_agent::config::{resolve_llm_config, LlmConfig, LlmEnv};
use phi_agent::error::AgentError;

fn env() -> LlmEnv {
    LlmEnv {
        llm_api_key: None,
        openai_api_key: None,
        llm_model: None,
        openai_model: None,
        llm_base_url: None,
        openai_base_url: None,
    }
}

#[test]
fn test_llm_config_debug_clone() {
    let cfg = LlmConfig {
        api_key: "sk-test".into(),
        model: "gpt-4".into(),
        base_url: "https://api.openai.com/v1".into(),
    };
    let cloned = cfg.clone();
    assert_eq!(cloned.api_key, "sk-test");
    assert_eq!(cloned.model, "gpt-4");
    let _ = format!("{:?}", cfg);
}

#[test]
fn test_resolve_llm_config_with_env() {
    // Without key variables the resolution fails with a configuration error.
    match resolve_llm_config(None, None, &env()) {
        Err(AgentError::ConfigError(m)) => {
            assert_eq!(m, "Missing environment variable LLM_API_KEY. Please configure it in .env.")
        },
        _ => panic!("expected a configuration error"),
    }
}

#[test]
fn defaults_apply_when_only_a_key_is_set() {
    let e = LlmEnv { openai_api_key: Some("sk-openai".into()), ..env() };
    let cfg = resolve_llm_config(None, None, &e).unwrap();
    assert_eq!(cfg.api_key, "sk-openai");
    assert_eq!(cfg.model, "copilot");
    assert_eq!(cfg.base_url, "https://api.openai.com/v1");
}

#[test]
fn llm_variables_come_before_openai_ones() {
    let e = LlmEnv {
        llm_api_key: Some("sk-llm".into()),
        openai_api_key: Some("sk-openai".into()),
        llm_model: Some("m-llm".into()),
        openai_model: Some("m-openai".into()),
        llm_base_url: None,
        openai_base_url: Some("https://openai.example/v1".into()),
    };
    let cfg = resolve_llm_config(None, None, &e).unwrap();
    assert_eq!(cfg.api_key, "sk-llm");
    assert_eq!(cfg.model, "m-llm");
    assert_eq!(cfg.base_url, "https://openai.example/v1");
}

#[test]
fn arguments_come_first() {
    let e = LlmEnv { llm_api_key: Some("k".into()), llm_model: Some("env-model".into()), ..env() };
    let cfg = resolve_llm_config(Some("cli-model"), Some("https://cli.example/v1"), &e).unwrap();
    assert_eq!(cfg.model, "cli-model");
    assert_eq!(cfg.base_url, "https://cli.example/v1");
}
