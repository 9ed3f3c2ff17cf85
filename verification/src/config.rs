//! LLM configuration: which API key, model and endpoint an agent talks to.
//!
//! Each setting comes from the first source that has it: an explicit
//! argument, then the `LLM_*` variable, then the `OPENAI_*` variable, then a
//! built-in default. The API key has no default.
use vstd::prelude::*;

use crate::error::{AgentError, AgentResult};

verus! {

/// Model used when neither an argument nor the environment names one.
pub const DEFAULT_MODEL: &'static str = "copilot";

/// Endpoint used when neither an argument nor the environment names one.
pub const DEFAULT_BASE_URL: &'static str = "https://api.openai.com/v1";

/// Message of the error returned when no API key is configured.
pub const MISSING_API_KEY: &'static str = "Missing environment variable LLM_API_KEY. Please configure it in .env.";

/// Resolved LLM configuration.
#[derive(Clone, Debug)]
pub struct LlmConfig {
    /// API key for the LLM provider.
    pub api_key: String,
    /// Model name (e.g. `"opus"`, `"gpt-4o"`).
    pub model: String,
    /// Base URL of the LLM API endpoint.
    pub base_url: String,
}

/// The configuration variables of the environment, each present when it is set.
pub struct LlmEnv {
    /// `LLM_API_KEY`.
    pub llm_api_key: Option<String>,
    /// `OPENAI_API_KEY`.
    pub openai_api_key: Option<String>,
    /// `LLM_MODEL`.
    pub llm_model: Option<String>,
    /// `OPENAI_MODEL`.
    pub openai_model: Option<String>,
    /// `LLM_BASE_URL`.
    pub llm_base_url: Option<String>,
    /// `OPENAI_BASE_URL`.
    pub openai_base_url: Option<String>,
}

/// The text of an optional owned string.
pub open spec fn text_of(o: Option<String>) -> Option<Seq<char>> {
    match o {
        Some(s) => Some(s@),
        None => None,
    }
}

/// The text of an optional borrowed string.
pub open spec fn str_text(o: Option<&str>) -> Option<Seq<char>> {
    match o {
        Some(s) => Some(s@),
        None => None,
    }
}

/// The first of `a`, `b`, `c` that is present, else `default`.
pub open spec fn first_present(
    a: Option<Seq<char>>,
    b: Option<Seq<char>>,
    c: Option<Seq<char>>,
    default: Seq<char>,
) -> Seq<char> {
    match (a, b, c) {
        (Some(x), _, _) => x,
        (None, Some(x), _) => x,
        (None, None, Some(x)) => x,
        (None, None, None) => default,
    }
}

/// The API key that the environment provides, if any: `LLM_API_KEY` first.
pub open spec fn configured_api_key(env: LlmEnv) -> Option<Seq<char>> {
    match text_of(env.llm_api_key) {
        Some(k) => Some(k),
        None => text_of(env.openai_api_key),
    }
}

fn first_present_string(a: Option<&str>, b: &Option<String>, c: &Option<String>, default: &str) -> (r:
    String)
    ensures
        r@ == first_present(str_text(a), text_of(*b), text_of(*c), default@),
{
    match a {
        Some(x) => String::from_str(x),
        None => match b {
            Some(x) => x.clone(),
            None => match c {
                Some(x) => x.clone(),
                None => String::from_str(default),
            },
        },
    }
}

/// Resolves the LLM configuration from explicit arguments and the environment.
///
/// Priority: argument > `LLM_*` > `OPENAI_*` > default. Fails with a
/// configuration error when neither API key variable is set.
pub fn resolve_llm_config(model: Option<&str>, base_url: Option<&str>, env: &LlmEnv) -> (r:
    AgentResult<LlmConfig>)
    ensures
        r is Ok <==> configured_api_key(*env) is Some,
        r matches Ok(cfg) ==> {
            &&& Some(cfg.api_key@) == configured_api_key(*env)
            &&& cfg.model@ == first_present(
                str_text(model),
                text_of(env.llm_model),
                text_of(env.openai_model),
                DEFAULT_MODEL@,
            )
            &&& cfg.base_url@ == first_present(
                str_text(base_url),
                text_of(env.llm_base_url),
                text_of(env.openai_base_url),
                DEFAULT_BASE_URL@,
            )
        },
        r matches Err(e) ==> e matches AgentError::ConfigError(m) && m@ == MISSING_API_KEY@,
        r is Ok && model is Some ==> r->Ok_0.model@ == model->0@,
        r is Ok && base_url is Some ==> r->Ok_0.base_url@ == base_url->0@,
{
    proof {
        law_settings_follow_source_priority(
            str_text(model),
            text_of(env.llm_model),
            text_of(env.openai_model),
            DEFAULT_MODEL@,
        );
        law_settings_follow_source_priority(
            str_text(base_url),
            text_of(env.llm_base_url),
            text_of(env.openai_base_url),
            DEFAULT_BASE_URL@,
        );
    }
    let api_key = match &env.llm_api_key {
        Some(k) => k.clone(),
        None => match &env.openai_api_key {
            Some(k) => k.clone(),
            None => {
                return Err(AgentError::config_error(String::from_str(MISSING_API_KEY)));
            },
        },
    };
    let model = first_present_string(model, &env.llm_model, &env.openai_model, DEFAULT_MODEL);
    let base_url = first_present_string(base_url, &env.llm_base_url, &env.openai_base_url, DEFAULT_BASE_URL);
    Ok(LlmConfig { api_key, model, base_url })
}

/// A setting comes from the highest-priority source that has it: an
/// explicit argument wins whatever the environment holds; without one the
/// `LLM_*` variable wins over the `OPENAI_*` one; the default is used only
/// when no source has the setting. The result is always one of the given
/// values.
pub proof fn law_settings_follow_source_priority(
    argument: Option<Seq<char>>,
    llm_var: Option<Seq<char>>,
    openai_var: Option<Seq<char>>,
    default: Seq<char>,
)
    ensures
        argument is Some ==> first_present(argument, llm_var, openai_var, default) == argument->0,
        argument is None && llm_var is Some ==> first_present(argument, llm_var, openai_var, default)
            == llm_var->0,
        argument is None && llm_var is None && openai_var is Some ==> first_present(
            argument,
            llm_var,
            openai_var,
            default,
        ) == openai_var->0,
        argument is None && llm_var is None && openai_var is None ==> first_present(
            argument,
            llm_var,
            openai_var,
            default,
        ) == default,
{
}

} // verus!
