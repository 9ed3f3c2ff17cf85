//! The files and messages of `phi init`: the new project's `Cargo.toml`,
//! its `.env.example` and `src/main.rs` (an interactive loop, or a single
//! query for library integration), and the next steps shown afterwards.
use vstd::prelude::*;
use vstd::string::StringExecFns;

verus! {

broadcast use vstd::string::group_string_axioms;

/// The `.env.example` of a new project.
pub const ENV_EXAMPLE: &'static str = r#"# phi-agent LLM configuration
LLM_API_KEY=sk-your-key-here
LLM_BASE_URL=https://api.openai.com/v1
LLM_MODEL=gpt-4o
"#;

/// The `src/main.rs` of a new project with an interactive loop.
pub const MAIN_RS: &'static str = r#"use phi_agent::{
    base_agent_builder, build_system_prompt,
    PhiAgent, PhiAgentConfig,
    SafetyConfig, ReasoningEffort,
    OutputFormat, create_stdout_renderer,
    AgentResult, Content, Tool, ToolContext,
};
use async_trait::async_trait;
use rustyline::DefaultEditor;
use serde_json::{Value, json};
use std::sync::Arc;

// ── ClockTool: 一个最简单的自定义工具 ──

struct ClockTool;

#[async_trait]
impl Tool for ClockTool {
    fn name(&self) -> &'static str { "get_time" }

    fn description(&self) -> &'static str {
        "获取当前日期和时间"
    }

    fn schema(&self) -> Value {
        json!({
            "type": "object",
            "properties": {}
        })
    }

    async fn call(&self, _args: &Value, _ctx: &ToolContext) -> AgentResult<Vec<Content>> {
        let now = chrono::Local::now().format("%Y-%m-%d %H:%M:%S").to_string();
        Ok(vec![Content::text(format!("当前时间：{}", now))])
    }
}

// ── REPL ──

#[tokio::main]
async fn main() -> anyhow::Result<()> {
    dotenvy::dotenv().ok();

    let api_key = std::env::var("LLM_API_KEY")
        .map_err(|_| anyhow::anyhow!(
            "LLM_API_KEY not found.\n\n\
             Create a .env file:\n  cp .env.example .env\n  # edit with your API key"
        ))?;
    let model = std::env::var("LLM_MODEL").unwrap_or_else(|_| "gpt-4o".into());
    let llm = llm_unified::create_provider(&phi_agent::agent_base::llm_trait::LlmConfig {
        protocol: None,
        api_key,
        model: model.clone(),
        base_url: std::env::var("LLM_BASE_URL").unwrap_or_else(|_| "https://api.openai.com/v1".into()),
        options: std::collections::HashMap::new(),
    })?;

    let agent = PhiAgent::build(
        base_agent_builder(llm)
            .system_prompt(build_system_prompt())
            .register_tool(ClockTool),
        PhiAgentConfig {
            model,
            enable_thinking: true,
            thinking_budget: None,
            thinking_effort: ReasoningEffort::Medium,
            safety: SafetyConfig::default(),
            max_turns: None,
        },
    )?;

    let mut rl = DefaultEditor::new()?;
    let mut renderer = create_stdout_renderer(&OutputFormat::Terminal {
        show_thinking: true,
        show_tool_args: true,
        color: true,
    });

    println!("phi-agent REPL — type /exit to quit\n");
    println!("Try: 现在几点了？\n");
    loop {
        let line = rl.readline("phi> ")?;
        let input = line.trim().to_string();
        if input.is_empty() { continue; }
        if input == "/exit" { break; }
        if input == "tools" {
            let tools = agent.list_tools().await;
            if tools.is_empty() {
                println!("\n  (no tools registered)\n");
            } else {
                println!("\n  Registered tools ({}):\n", tools.len());
                for m in &tools {
                    println!("  \x1b[1m{}\x1b[0m  {}  v{}", m.name, m.origin, m.version);
                    println!("    {}", m.description);
                    if !m.requirements.is_empty() {
                        println!("    requirements: {}", m.requirements.join(", "));
                    }
                }
                println!();
            }
            continue;
        }
        rl.add_history_entry(&input)?;

        let session = agent.create_session().await;
        agent.run_turn(session, &input, |event| renderer.render(event)).await?;
        println!();
    }

    Ok(())
}
"#;

/// The `src/main.rs` of a new project that runs one query as a library.
pub const LIB_RS: &'static str = r#"//! phi-agent library integration example.
//!
//! Three steps: define a tool → register → run.
//! Run:  cargo run

use phi_agent::{
    base_agent_builder, build_system_prompt,
    PhiAgent, PhiAgentConfig,
    SafetyConfig, ReasoningEffort,
    OutputFormat, create_stdout_renderer,
    AgentResult, Content, Tool, ToolContext,
};
use async_trait::async_trait;
use serde_json::{Value, json};
use std::sync::Arc;

// ── ClockTool ──

struct ClockTool;

#[async_trait]
impl Tool for ClockTool {
    fn name(&self) -> &'static str { "get_time" }

    fn description(&self) -> &'static str {
        "获取当前日期和时间"
    }

    fn schema(&self) -> Value {
        json!({
            "type": "object",
            "properties": {}
        })
    }

    async fn call(&self, _args: &Value, _ctx: &ToolContext) -> AgentResult<Vec<Content>> {
        let now = chrono::Local::now().format("%Y-%m-%d %H:%M:%S").to_string();
        Ok(vec![Content::text(format!("当前时间：{}", now))])
    }
}

// ── Main ──

#[tokio::main]
async fn main() -> anyhow::Result<()> {
    dotenvy::dotenv().ok();

    let api_key = std::env::var("LLM_API_KEY")
        .map_err(|_| anyhow::anyhow!(
            "LLM_API_KEY not found.\n\n\
             Create a .env file:\n  cp .env.example .env\n  # edit with your API key"
        ))?;
    let model = std::env::var("LLM_MODEL").unwrap_or_else(|_| "gpt-4o".into());
    let llm = llm_unified::create_provider(&phi_agent::agent_base::llm_trait::LlmConfig {
        protocol: None,
        api_key,
        model: model.clone(),
        base_url: std::env::var("LLM_BASE_URL").unwrap_or_else(|_| "https://api.openai.com/v1".into()),
        options: std::collections::HashMap::new(),
    })?;

    let agent = PhiAgent::build(
        base_agent_builder(llm)
            .system_prompt(build_system_prompt())
            .register_tool(ClockTool),
        PhiAgentConfig {
            model,
            enable_thinking: true,
            thinking_budget: None,
            thinking_effort: ReasoningEffort::Medium,
            safety: SafetyConfig::default(),
            max_turns: None,
        },
    )?;

    let session = agent.create_session().await;
    let mut renderer = create_stdout_renderer(&OutputFormat::Terminal {
        show_thinking: true, show_tool_args: true, color: true,
    });

    agent.run_turn(session, "现在几点了？", |event| renderer.render(event)).await?;
    Ok(())
}
"#;

/// The dependency line of the line editor, which only the interactive
/// project needs.
pub open spec fn editor_dependency(is_lib: bool) -> Seq<char> {
    if is_lib {
        Seq::empty()
    } else {
        "rustyline = \"15\"\n"@
    }
}

/// The `Cargo.toml` of a new project named `project_name` that depends on
/// this framework at `version`.
pub open spec fn cargo_toml_spec(project_name: Seq<char>, version: Seq<char>, is_lib: bool) -> Seq<char> {
    "[package]\nname = \""@ + project_name + "\"\nversion = \"0.1.0\"\nedition = \"2021\"\n\n[dependencies]\nphi-agent = \""@
        + version
        + "\"\ntokio = { version = \"1\", features = [\"full\"] }\nanyhow = \"1\"\ndotenvy = \"0.15\"\n"@
        + editor_dependency(is_lib) + "async-trait = \"0.1\"\nserde_json = \"1\"\nchrono = \"0.4\"\n"@
}

/// Writes the `Cargo.toml` of a new project.
pub fn cargo_toml_text(project_name: &str, version: &str, is_lib: bool) -> (r: String)
    ensures
        r@ == cargo_toml_spec(project_name@, version@, is_lib),
{
    let mut r = String::from_str("[package]\nname = \"");
    r.append(project_name);
    r.append("\"\nversion = \"0.1.0\"\nedition = \"2021\"\n\n[dependencies]\nphi-agent = \"");
    r.append(version);
    r.append("\"\ntokio = { version = \"1\", features = [\"full\"] }\nanyhow = \"1\"\ndotenvy = \"0.15\"\n");
    if !is_lib {
        r.append("rustyline = \"15\"\n");
    }
    r.append("async-trait = \"0.1\"\nserde_json = \"1\"\nchrono = \"0.4\"\n");
    proof {
        assert(r@ =~= cargo_toml_spec(project_name@, version@, is_lib));
    }
    r
}

/// The `src/main.rs` of a new project.
pub fn main_source(is_lib: bool) -> (r: &'static str)
    ensures
        r@ == if is_lib {
            LIB_RS@
        } else {
            MAIN_RS@
        },
{
    if is_lib {
        LIB_RS
    } else {
        MAIN_RS
    }
}

/// The kind of project, as the closing message names it.
pub open spec fn project_mode(is_lib: bool) -> Seq<char> {
    if is_lib {
        "library integration"@
    } else {
        "REPL"@
    }
}

/// What `phi init` prints once the project `name` is created.
pub open spec fn created_spec(name: Seq<char>, is_lib: bool) -> Seq<char> {
    "✅ Created project: "@ + name + " ("@ + project_mode(is_lib) + ")\n\nNext steps:\n  cd "@ + name
        + "\n  cp .env.example .env   # edit with your API key\n  cargo run\n"@
}

/// Writes what `phi init` prints once the project `name` is created.
pub fn created_text(name: &str, is_lib: bool) -> (r: String)
    ensures
        r@ == created_spec(name@, is_lib),
{
    let mut r = String::from_str("✅ Created project: ");
    r.append(name);
    r.append(" (");
    if is_lib {
        r.append("library integration");
    } else {
        r.append("REPL");
    }
    r.append(")\n\nNext steps:\n  cd ");
    r.append(name);
    r.append("\n  cp .env.example .env   # edit with your API key\n  cargo run\n");
    proof {
        assert(r@ =~= created_spec(name@, is_lib));
    }
    r
}

} // verus!
