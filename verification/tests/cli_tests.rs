use phi_agent::cli::{next_turn, one_shot_turn};
use phi_agent::cli::{
    expand_home, max_tool_output_chars, metrics_enabled, node_id_for, output_format, parse_repl_command,
    queued_approval_outcome, safety_config, ApprovalMode, AutoApprovalHandler, OutputFormatArg, ReasoningEffort,
    ReasoningEffortArg, ReplCommand,
};
use phi_agent::error::AgentError;
use phi_agent::event::{ApprovalDecision, ApprovalRequest, RiskLevel};
use phi_agent::render::OutputFormat;

fn request(title: &str, message: &str, risk_level: RiskLevel) -> ApprovalRequest {
    ApprovalRequest { title: title.into(), message: message.into(), action_key: None, risk_level, raw: None }
}

#[test]
fn test_auto_mode_approves_all() {
    let handler = AutoApprovalHandler::new(ApprovalMode::Auto);
    let r = request("Delete file", "This will delete /tmp/important.txt", RiskLevel::Destructive);
    let decision = handler.approve(&r).unwrap();
    assert_eq!(decision, ApprovalDecision::AllowAlways);
}

#[test]
fn test_deny_all_mode_denies() {
    let handler = AutoApprovalHandler::new(ApprovalMode::DenyAll);
    let r = request("Read file", "Read /tmp/safe.txt", RiskLevel::Safe);
    assert_eq!(handler.approve(&r).unwrap(), ApprovalDecision::Deny);
}

#[test]
fn test_deny_all_denies_even_safe_operations() {
    let handler = AutoApprovalHandler::new(ApprovalMode::DenyAll);
    let r = request("Safe thing", "Perfectly safe", RiskLevel::Safe);
    assert_eq!(handler.approve(&r).unwrap(), ApprovalDecision::Deny);
}

#[test]
fn queued_outcome_follows_the_reply() {
    assert_eq!(queued_approval_outcome(false, Some(ApprovalDecision::Allow)).unwrap(), ApprovalDecision::Allow);
    assert_eq!(queued_approval_outcome(false, Some(ApprovalDecision::Deny)).unwrap(), ApprovalDecision::Deny);
    assert!(matches!(queued_approval_outcome(false, None), Err(AgentError::Cancelled)));
    assert!(matches!(queued_approval_outcome(true, Some(ApprovalDecision::Allow)), Err(AgentError::Cancelled)));
}

// ── Option values ──

#[test]
fn test_max_tool_output_chars_default() {
    assert_eq!(max_tool_output_chars(None), 4000);
}

#[test]
fn test_max_tool_output_chars_custom() {
    assert_eq!(max_tool_output_chars(Some("8000")), 8000);
    assert_eq!(max_tool_output_chars(Some("  8000\n")), 8000);
    assert_eq!(max_tool_output_chars(Some("+12")), 12);
}

#[test]
fn test_max_tool_output_chars_invalid_fallback() {
    assert_eq!(max_tool_output_chars(Some("not-a-number")), 4000);
    assert_eq!(max_tool_output_chars(Some("")), 4000);
    assert_eq!(max_tool_output_chars(Some("-5")), 4000);
    assert_eq!(max_tool_output_chars(Some("99999999999999999999999")), 4000);
}

#[test]
fn metrics_switch() {
    assert!(metrics_enabled(None));
    assert!(metrics_enabled(Some("1")));
    assert!(metrics_enabled(Some("yes")));
    assert!(!metrics_enabled(Some("")));
    assert!(!metrics_enabled(Some("false")));
    assert!(!metrics_enabled(Some("FALSE")));
    assert!(!metrics_enabled(Some("Off")));
    assert!(!metrics_enabled(Some("no")));
    assert!(!metrics_enabled(Some("0")));
    assert!(metrics_enabled(Some(" off")));
}

#[test]
fn output_format_from_options() {
    assert_eq!(
        output_format(OutputFormatArg::Terminal, false, true, false),
        OutputFormat::Terminal { show_thinking: true, show_tool_args: false, color: true }
    );
    assert_eq!(output_format(OutputFormatArg::Json, true, true, true), OutputFormat::Json);
    assert_eq!(output_format(OutputFormatArg::Quiet, false, false, false), OutputFormat::Quiet);
    assert_eq!(
        OutputFormat::default(),
        OutputFormat::Terminal { show_thinking: false, show_tool_args: true, color: true }
    );
}

#[test]
fn safety_defaults() {
    let c = safety_config(None, None);
    assert_eq!(c.max_tool_calls_per_turn, 64);
    assert_eq!(c.max_consecutive_failures, 3);
    let c = safety_config(Some(5), Some(9));
    assert_eq!(c.max_tool_calls_per_turn, 5);
    assert_eq!(c.max_consecutive_failures, 9);
}

#[test]
fn reasoning_effort_conversion() {
    assert_eq!(ReasoningEffort::from(ReasoningEffortArg::Low), ReasoningEffort::Low);
    assert_eq!(ReasoningEffort::from(ReasoningEffortArg::Medium), ReasoningEffort::Medium);
    assert_eq!(ReasoningEffort::from(ReasoningEffortArg::High), ReasoningEffort::High);
    let e: ReasoningEffort = ReasoningEffortArg::Xhigh.into();
    assert_eq!(e, ReasoningEffort::XHigh);
}

#[test]
fn home_expansion_replaces_every_tilde() {
    assert_eq!(expand_home("~/.phi-agent", "/home/u"), "/home/u/.phi-agent");
    assert_eq!(expand_home("/var/log", "/home/u"), "/var/log");
    assert_eq!(expand_home("~a~", "H"), "HaH");
    assert_eq!(expand_home("~/x", ""), "/x");
}

#[test]
fn node_id_from_directory() {
    assert_eq!(node_id_for(Some("project")), "phi-project");
    assert_eq!(node_id_for(None), "phi-unknown");
}

// ── Interactive commands ──

fn command(line: &str) -> Option<ReplCommand> {
    parse_repl_command(line)
}

#[test]
fn blank_lines_are_ignored() {
    assert!(command("").is_none());
    assert!(command("   \t ").is_none());
}

#[test]
fn command_words_with_or_without_slash() {
    assert!(matches!(command("exit"), Some(ReplCommand::Exit)));
    assert!(matches!(command("/quit"), Some(ReplCommand::Exit)));
    assert!(matches!(command("  reset  "), Some(ReplCommand::Reset)));
    assert!(matches!(command("/compact"), Some(ReplCommand::Compact)));
    assert!(matches!(command("tools"), Some(ReplCommand::Tools)));
    assert!(matches!(command("session"), Some(ReplCommand::Session)));
    assert!(matches!(command("events"), Some(ReplCommand::Events)));
    assert!(matches!(command("snapshots"), Some(ReplCommand::Snapshots)));
}

#[test]
fn snapshot_takes_a_trimmed_name() {
    match command("/snapshot  before-refactor ") {
        Some(ReplCommand::Snapshot(name)) => assert_eq!(name, "before-refactor"),
        other => panic!("unexpected {:?}", other),
    }
    assert!(matches!(command("snapshot    x"), Some(ReplCommand::Snapshot(_))));
}

#[test]
fn snapshot_without_a_name_is_a_usage_error_only_with_a_space() {
    // The line is trimmed first, so "snapshot " is just the word, which is a prompt.
    match command("snapshot ") {
        Some(ReplCommand::Prompt(p)) => assert_eq!(p, "snapshot"),
        other => panic!("unexpected {:?}", other),
    }
}

#[test]
fn anything_else_is_a_prompt() {
    match command("  /explain this code ") {
        Some(ReplCommand::Prompt(p)) => assert_eq!(p, "explain this code"),
        other => panic!("unexpected {:?}", other),
    }
    match command("/") {
        Some(ReplCommand::Prompt(p)) => assert_eq!(p, ""),
        other => panic!("unexpected {:?}", other),
    }
    match command("//exit") {
        Some(ReplCommand::Prompt(p)) => assert_eq!(p, "/exit"),
        other => panic!("unexpected {:?}", other),
    }
}

#[test]
fn turn_numbers_follow_the_commands() {
    let prompt = ReplCommand::Prompt("hi".into());
    assert_eq!(next_turn(4, 4, &prompt), 5);
    assert_eq!(next_turn(7, 4, &ReplCommand::Reset), 4);
    assert_eq!(next_turn(7, 4, &ReplCommand::Tools), 7);
    assert_eq!(one_shot_turn(0), 1);
    assert_eq!(one_shot_turn(9), 10);
}

#[test]
fn prompt_lines_number_turns_after_the_logged_ones() {
    let lines = ["hello", "", "/tools", "what next", "session", "  third  ", "exit"];
    let mut turn: u32 = 3;
    let mut run_turns = Vec::new();
    for line in lines {
        if let Some(cmd) = parse_repl_command(line) {
            if matches!(cmd, ReplCommand::Exit) {
                break;
            }
            let is_prompt = matches!(cmd, ReplCommand::Prompt(_));
            turn = next_turn(turn, 3, &cmd);
            if is_prompt {
                run_turns.push(turn);
            }
        }
    }
    assert_eq!(run_turns, vec![4, 5, 6]);
}
