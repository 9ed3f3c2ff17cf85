use phi_agent::event::{ApprovalRequest, PlanItem, PlanStepStatus, RiskLevel, RuntimeEvent, SessionId, UserEvent};
use phi_agent::render::TerminalRenderer;

fn session_id() -> SessionId {
    SessionId { id: 1, external_id: None }
}

fn render_one(show_thinking: bool, show_tool_args: bool, color: bool, event: RuntimeEvent) -> String {
    let mut r = TerminalRenderer::new(show_thinking, show_tool_args, color);
    r.render(&event)
}

fn render_events(show_thinking: bool, show_tool_args: bool, color: bool, events: &[RuntimeEvent]) -> String {
    let mut r = TerminalRenderer::new(show_thinking, show_tool_args, color);
    let mut out = String::new();
    for e in events {
        out.push_str(&r.render(e));
    }
    out.push_str(&r.finish_turn(0, "0.0"));
    out
}

fn text(t: &str, agent: Option<&str>) -> RuntimeEvent {
    RuntimeEvent::TextDelta {
        session_id: session_id(),
        text: t.into(),
        agent_id: agent.map(|a| a.to_string()),
        trace_id: None,
    }
}

fn tool_started(name: &str, args: &str, agent: Option<&str>) -> RuntimeEvent {
    RuntimeEvent::ToolCallStarted {
        session_id: session_id(),
        tool_name: name.into(),
        args_json: args.into(),
        agent_id: agent.map(|a| a.to_string()),
        trace_id: None,
    }
}

#[test]
fn test_color_methods_enabled() {
    let r = TerminalRenderer::new(true, true, true);
    assert!(r.green("hello").contains("\x1b[32m"));
    assert!(r.dim("hello").contains("\x1b[2m"));
    assert!(r.bold("hello").contains("\x1b[1m"));
    assert!(r.yellow("hello").contains("\x1b[33m"));
    assert!(r.subtle("hello").contains("\x1b[90m"));
    assert!(r.green("hello").ends_with("\x1b[0m"));
}

#[test]
fn test_color_methods_disabled() {
    let r = TerminalRenderer::new(true, true, false);
    assert!(!r.green("hello").contains('\x1b'));
    assert_eq!(r.green("hello"), "hello");
    assert_eq!(r.dim("x"), "x");
    assert_eq!(r.bold("x"), "x");
    assert_eq!(r.yellow("x"), "x");
    assert_eq!(r.subtle("x"), "x");
}

#[test]
fn test_render_text_delta() {
    let out = render_one(true, true, true, text("hello world", None));
    assert!(out.contains("hello world"));
}

#[test]
fn test_render_thought_delta_shown() {
    let out = render_one(
        true,
        true,
        true,
        RuntimeEvent::ThoughtDelta { session_id: session_id(), text: "thinking...".into(), agent_id: None, trace_id: None },
    );
    assert!(out.contains("thinking..."));
}

#[test]
fn test_render_thought_delta_hidden() {
    let out = render_one(
        false,
        true,
        true,
        RuntimeEvent::ThoughtDelta {
            session_id: session_id(),
            text: "secret thought".into(),
            agent_id: None,
            trace_id: None,
        },
    );
    assert!(!out.contains("secret thought"));
}

#[test]
fn test_render_tool_call_started_with_args() {
    let out = render_one(true, true, true, tool_started("read_file", r#"{"path":"/tmp/a.txt"}"#, None));
    assert!(out.contains("read_file"));
    assert!(out.contains("a.txt"));
}

#[test]
fn test_render_tool_call_started_without_args() {
    let out = render_one(true, false, true, tool_started("read_file", r#"{"path":"/tmp/a.txt"}"#, None));
    assert!(out.contains("read_file"));
    assert!(!out.contains("a.txt"));
}

#[test]
fn test_render_tool_call_finished_short_summary() {
    let out = render_one(
        true,
        true,
        true,
        RuntimeEvent::ToolCallFinished {
            session_id: session_id(),
            tool_name: "read_file".into(),
            summary: "file contents here".into(),
            agent_id: None,
            trace_id: None,
            denied: false,
        },
    );
    assert!(out.contains("file contents here"));
}

#[test]
fn test_render_tool_call_finished_truncated() {
    let long = "x".repeat(600);
    let out = render_one(
        true,
        true,
        true,
        RuntimeEvent::ToolCallFinished {
            session_id: session_id(),
            tool_name: "read_file".into(),
            summary: long.clone(),
            agent_id: None,
            trace_id: None,
            denied: false,
        },
    );
    assert!(!out.contains(&long));
    assert!(out.contains("..."));
    assert!(out.contains(&"x".repeat(400)));
}

#[test]
fn test_render_awaiting_approval() {
    let out = render_one(
        true,
        true,
        true,
        RuntimeEvent::AwaitingApproval {
            session_id: session_id(),
            request: ApprovalRequest {
                title: "Delete file".into(),
                message: "This will delete /tmp/important.txt".into(),
                action_key: None,
                risk_level: RiskLevel::Destructive,
                raw: None,
            },
            agent_id: None,
            trace_id: None,
        },
    );
    assert!(out.contains("Delete file"));
    assert!(out.contains("Destructive"));
}

#[test]
fn test_render_plan_updated() {
    let out = render_one(
        true,
        true,
        true,
        RuntimeEvent::PlanUpdated {
            session_id: session_id(),
            objective: "test plan".into(),
            explanation: Some("starting work".into()),
            plan: vec![
                PlanItem { step: "Step 1".into(), status: PlanStepStatus::Completed },
                PlanItem { step: "Step 2".into(), status: PlanStepStatus::InProgress },
                PlanItem { step: "Step 3".into(), status: PlanStepStatus::Pending },
            ],
            agent_id: None,
            trace_id: None,
        },
    );
    assert!(out.contains("Plan Update"));
    assert!(out.contains("starting work"));
    assert!(out.contains("✅"));
    assert!(out.contains("Step 1"));
    assert!(out.contains("Step 2"));
    assert!(out.contains("Step 3"));
}

#[test]
fn test_render_run_cancelled() {
    let out = render_one(
        true,
        true,
        true,
        RuntimeEvent::RunCancelled { session_id: session_id(), agent_id: None, trace_id: None },
    );
    assert!(out.contains("Cancelled"));
}

#[test]
fn test_render_run_finished_no_output() {
    let out =
        render_one(true, true, true, RuntimeEvent::RunFinished { session_id: session_id(), agent_id: None, trace_id: None });
    assert!(out.is_empty());
}

#[test]
fn test_render_user_event_progress_no_output() {
    let out = render_one(
        true,
        true,
        true,
        RuntimeEvent::UserEvent {
            session_id: session_id(),
            event: UserEvent::Progress { text: "loading...".into() },
            agent_id: None,
            trace_id: None,
        },
    );
    assert!(out.is_empty());
}

#[test]
fn test_finish_turn_contains_duration_and_tool_count() {
    let out = render_events(true, true, true, &[text("hi", None)]);
    assert!(out.contains("elapsed"));
    assert!(out.contains("tool call"));
}

#[test]
fn test_finish_turn_tool_count() {
    let out = render_events(
        true,
        true,
        true,
        &[tool_started("a", "{}", None), tool_started("b", "{}", None), tool_started("c", "{}", None)],
    );
    assert!(out.contains("3 tool call"));
}

#[test]
fn test_multiple_turns_reset() {
    let mut r = TerminalRenderer::new(true, true, true);
    let mut out = String::new();
    out.push_str(&r.render(&tool_started("t1", "{}", None)));
    out.push_str(&r.finish_turn(0, "0.0"));
    out.push_str(&r.render(&text("hello", None)));
    out.push_str(&r.finish_turn(0, "0.0"));
    assert!(out.contains("1 tool call"));
    assert!(out.contains("0 tool call"));
}

#[test]
fn test_thought_to_text_transition_adds_newline() {
    let mut r = TerminalRenderer::new(true, true, true);
    let mut out = String::new();
    out.push_str(&r.render(&RuntimeEvent::ThoughtDelta {
        session_id: session_id(),
        text: "hmm".into(),
        agent_id: None,
        trace_id: None,
    }));
    out.push_str(&r.render(&text("hello", None)));
    assert!(out.contains("hmm"));
    assert!(out.contains("hello"));
}

#[test]
fn test_render_subagent_text_delta() {
    let out = render_one(true, true, false, text("found results", Some("root/searcher")));
    assert!(out.contains("[root/searcher]"));
    assert!(out.contains("found results"));
}

#[test]
fn test_render_subagent_tool_call() {
    let out = render_one(true, true, false, tool_started("search", r#"{"q":"test"}"#, Some("root/worker")));
    assert!(out.contains("[root/worker]"));
    assert!(out.contains("search"));
    assert!(out.contains("test"));
}

#[test]
fn test_render_subagent_thought_hidden() {
    let out = render_one(
        false,
        true,
        false,
        RuntimeEvent::ThoughtDelta {
            session_id: session_id(),
            text: "secret plan".into(),
            agent_id: Some("root/thinker".into()),
            trace_id: None,
        },
    );
    assert!(!out.contains("secret plan"));
}

#[test]
fn test_render_subagent_run_cancelled() {
    let out = render_one(
        true,
        true,
        false,
        RuntimeEvent::RunCancelled { session_id: session_id(), agent_id: Some("root/worker".into()), trace_id: None },
    );
    assert!(out.contains("[root/worker]"));
    assert!(out.contains("Cancelled"));
}

// ── Exact outputs ──

#[test]
fn turn_summary_in_milliseconds_without_color() {
    let mut r = TerminalRenderer::new(true, true, false);
    r.render(&tool_started("a", "{}", None));
    let out = r.finish_turn(250, "0.3");
    assert_eq!(out, "\n\u{00B7} 250ms elapsed \u{00B7} 1 tool call(s)\n");
}

#[test]
fn turn_summary_in_seconds_uses_the_given_text() {
    let mut r = TerminalRenderer::new(true, true, false);
    r.render(&text("hi", None));
    let out = r.finish_turn(1500, "1.5");
    assert_eq!(out, "\n\u{00B7} 1.5s elapsed \u{00B7} 0 tool call(s)\n");
}

#[test]
fn turn_without_events_reports_zero_milliseconds() {
    let mut r = TerminalRenderer::new(true, true, false);
    assert!(!r.turn_started());
    let out = r.finish_turn(1500, "1.5");
    assert_eq!(out, "\n\u{00B7} 0ms elapsed \u{00B7} 0 tool call(s)\n");
}

#[test]
fn second_summary_without_events_reports_zero() {
    let mut r = TerminalRenderer::new(true, true, false);
    r.render(&tool_started("a", "{}", None));
    assert!(r.turn_started());
    let first = r.finish_turn(250, "0.3");
    assert_eq!(first, "\n\u{00B7} 250ms elapsed \u{00B7} 1 tool call(s)\n");
    assert!(!r.turn_started());
    let second = r.finish_turn(900, "0.9");
    assert_eq!(second, "\n\u{00B7} 0ms elapsed \u{00B7} 0 tool call(s)\n");
}

#[test]
fn turn_summary_is_painted_subtle_with_color() {
    let mut r = TerminalRenderer::new(true, true, true);
    r.render(&text("hi", None));
    let out = r.finish_turn(5, "0.0");
    assert_eq!(out, "\n\x1b[90m\u{00B7} 5ms elapsed \u{00B7} 0 tool call(s)\x1b[0m\n");
}

#[test]
fn plain_text_delta_is_written_as_is() {
    let out = render_one(true, true, false, text("abc", None));
    assert_eq!(out, "abc");
}
