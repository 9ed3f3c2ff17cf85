use phi_agent::event::{ApprovalRequest, PlanItem, PlanStepStatus, RiskLevel, RuntimeEvent, SessionId, UserEvent};
use phi_agent::lines::{log_line, turn_end_line, turn_header_line, EventLine, LineBody, LineKind};
use phi_agent::render::{JsonStreamRenderer, NullRenderer};

fn session_id() -> SessionId {
    SessionId { id: 1, external_id: None }
}

fn text(t: &str, agent: Option<&str>) -> RuntimeEvent {
    RuntimeEvent::TextDelta { session_id: session_id(), text: t.into(), agent_id: agent.map(|a| a.to_string()), trace_id: None }
}

fn tool_started(name: &str, args: &str, agent: Option<&str>) -> RuntimeEvent {
    RuntimeEvent::ToolCallStarted {
        session_id: session_id(),
        tool_name: name.into(),
        args_json: args.into(),
        agent_id: agent.map(|a| a.to_string()),
        trace_id: None,
    }
}

/// Renders one event: the `type` tag of its line, if it gives one.
fn render_one(event: RuntimeEvent) -> Option<&'static str> {
    line_of(event).map(|l| l.kind.tag())
}

/// Renders one event and returns its line.
fn line_of(event: RuntimeEvent) -> Option<EventLine> {
    let mut r = JsonStreamRenderer::new();
    r.render(&event)
}

#[test]
fn test_text_delta_produces_valid_json() {
    let l = line_of(text("hello", None)).unwrap();
    assert_eq!(l.kind.tag(), "text_delta");
    assert!(matches!(&l.body, LineBody::Text { text } if text == "hello"));
    assert!(l.agent_id.is_none());
}

#[test]
fn test_thought_delta_produces_valid_json() {
    let e = RuntimeEvent::ThoughtDelta { session_id: session_id(), text: "thinking...".into(), agent_id: None, trace_id: None };
    assert_eq!(render_one(e), Some("thought_delta"));
}

#[test]
fn test_tool_call_started_parses_args() {
    let l = line_of(tool_started("shell", r#"{"cmd":"ls"}"#, None)).unwrap();
    assert_eq!(l.kind.tag(), "tool_call_started");
    match &l.body {
        LineBody::ToolStarted { tool, args } => {
            assert_eq!(tool, "shell");
            assert_eq!(args.as_deref(), Some(r#"{"cmd":"ls"}"#));
        },
        _ => panic!("expected a tool line"),
    }
}

#[test]
fn invalid_tool_arguments_become_null() {
    let l = line_of(tool_started("shell", "not json", None)).unwrap();
    assert!(matches!(&l.body, LineBody::ToolStarted { args: None, .. }));
}

#[test]
fn test_tool_call_finished_produces_valid_json() {
    let e = RuntimeEvent::ToolCallFinished {
        session_id: session_id(),
        tool_name: "shell".into(),
        summary: "done".into(),
        agent_id: None,
        trace_id: None,
        denied: false,
    };
    assert_eq!(render_one(e), Some("tool_call_finished"));
}

#[test]
fn test_awaiting_approval_produces_valid_json() {
    let e = RuntimeEvent::AwaitingApproval {
        session_id: session_id(),
        request: ApprovalRequest {
            title: "Delete".into(),
            message: "Dangerous".into(),
            action_key: None,
            risk_level: RiskLevel::Destructive,
            raw: None,
        },
        agent_id: None,
        trace_id: None,
    };
    assert_eq!(render_one(e), Some("approval_request"));
}

#[test]
fn test_plan_updated_produces_valid_json() {
    let e = RuntimeEvent::PlanUpdated {
        session_id: session_id(),
        objective: "test".into(),
        explanation: Some("step 1 done".into()),
        plan: vec![PlanItem { step: "Step 1".into(), status: PlanStepStatus::Completed }],
        agent_id: None,
        trace_id: None,
    };
    assert_eq!(render_one(e), Some("plan_updated"));
}

#[test]
fn test_user_event_structured() {
    let e = RuntimeEvent::UserEvent {
        session_id: session_id(),
        event: UserEvent::Structured { event_type: "custom".into(), data: r#"{"key":"value"}"#.into() },
        agent_id: None,
        trace_id: None,
    };
    assert_eq!(render_one(e), Some("user_event"));
}

#[test]
fn test_user_event_progress_ignored() {
    let e = RuntimeEvent::UserEvent {
        session_id: session_id(),
        event: UserEvent::Progress { text: "loading...".into() },
        agent_id: None,
        trace_id: None,
    };
    assert_eq!(render_one(e), None);
}

#[test]
fn test_run_finished_no_output() {
    assert_eq!(render_one(RuntimeEvent::RunFinished { session_id: session_id(), agent_id: None, trace_id: None }), None);
}

#[test]
fn test_run_cancelled_produces_valid_json() {
    let e = RuntimeEvent::RunCancelled { session_id: session_id(), agent_id: None, trace_id: None };
    assert_eq!(render_one(e), Some("run_cancelled"));
}

#[test]
fn test_finish_turn_emits_summary() {
    let mut r = JsonStreamRenderer::new();
    assert!(r.render(&text("hello", None)).is_some());
    let t = r.finish_turn(42);
    assert_eq!(t.duration_ms, 42);
    assert_eq!(t.tool_call_count, 0);
}

#[test]
fn test_tool_call_count_incremented() {
    let mut r = JsonStreamRenderer::new();
    r.render(&tool_started("a", "{}", None));
    r.render(&tool_started("b", "{}", None));
    assert_eq!(r.finish_turn(0).tool_call_count, 2);
}

#[test]
fn test_assistant_text_accumulated() {
    let mut r = JsonStreamRenderer::new();
    r.render(&text("Hello ", None));
    r.render(&text("World", None));
    assert_eq!(r.finish_turn(0).assistant_text, "Hello World");
}

#[test]
fn test_subagent_text_delta_includes_agent_id() {
    let l = line_of(text("found 3 items", Some("root/searcher"))).unwrap();
    assert_eq!(l.kind, LineKind::TextDelta);
    assert!(matches!(&l.body, LineBody::Text { text } if text == "found 3 items"));
    assert_eq!(l.agent_id.as_deref(), Some("root/searcher"));
}

#[test]
fn test_subagent_tool_call_includes_agent_id() {
    let l = line_of(tool_started("shell", r#"{"cmd":"ls"}"#, Some("root/worker"))).unwrap();
    assert_eq!(l.kind, LineKind::ToolCallStarted);
    assert!(matches!(&l.body, LineBody::ToolStarted { tool, .. } if tool == "shell"));
    assert_eq!(l.agent_id.as_deref(), Some("root/worker"));
}

#[test]
fn test_root_event_omits_agent_id() {
    assert!(line_of(text("hello", None)).unwrap().agent_id.is_none());
}

#[test]
fn test_subagent_text_does_not_pollute_assistant_text() {
    let mut r = JsonStreamRenderer::new();
    r.render(&text("root ", None));
    r.render(&text("child", Some("root/child")));
    assert_eq!(r.finish_turn(0).assistant_text, "root");
}

#[test]
fn test_null_renderer_consumes_events_silently() {
    let mut r = NullRenderer;
    let events = vec![
        text("hello", None),
        RuntimeEvent::ThoughtDelta { session_id: session_id(), text: "hmm".into(), agent_id: None, trace_id: None },
        tool_started("shell", "{}", None),
        RuntimeEvent::ToolCallFinished {
            session_id: session_id(),
            tool_name: "shell".into(),
            summary: "ok".into(),
            agent_id: None,
            trace_id: None,
            denied: false,
        },
        RuntimeEvent::RunCancelled { session_id: session_id(), agent_id: None, trace_id: None },
        RuntimeEvent::RunFinished { session_id: session_id(), agent_id: None, trace_id: None },
        RuntimeEvent::Checkpoint { session_id: session_id(), agent_id: None, trace_id: None },
    ];
    for e in &events {
        assert!(r.render(e).is_empty());
    }
    assert!(r.finish_turn().is_empty());
}

// ── Own tests ──

#[test]
fn checkpoint_gives_no_line() {
    assert_eq!(render_one(RuntimeEvent::Checkpoint { session_id: session_id(), agent_id: None, trace_id: None }), None);
}

#[test]
fn finish_turn_trims_and_resets() {
    let mut r = JsonStreamRenderer::new();
    r.render(&text("  padded reply \n", None));
    r.render(&tool_started("a", "{}", None));
    let t = r.finish_turn(7);
    assert_eq!(t.assistant_text, "padded reply");
    assert_eq!(t.tool_call_count, 1);
    let t2 = r.finish_turn(8);
    assert_eq!(t2.assistant_text, "");
    assert_eq!(t2.tool_call_count, 0);
    assert_eq!(t2.duration_ms, 0);
}

#[test]
fn turn_without_events_reports_zero_duration() {
    let mut r = JsonStreamRenderer::new();
    assert!(!r.turn_started());
    let t = r.finish_turn(99);
    assert_eq!(t.duration_ms, 0);
    assert_eq!(t.tool_call_count, 0);
    assert_eq!(t.assistant_text, "");
}

#[test]
fn any_event_starts_the_turn() {
    let mut r = JsonStreamRenderer::new();
    r.render(&text("", Some("sub")));
    assert!(r.turn_started());
    assert_eq!(r.finish_turn(12).duration_ms, 12);
    assert!(!r.turn_started());
}

#[test]
fn user_event_without_structure_is_tagged_other() {
    let e = RuntimeEvent::UserEvent {
        session_id: session_id(),
        event: UserEvent::Progress { text: "x".into() },
        agent_id: None,
        trace_id: None,
    };
    assert_eq!(e.log_type(), "other");
    assert_eq!(log_line(&e).kind.tag(), "other");
    assert!(line_of(e).is_none());
}

#[test]
fn approval_line_carries_the_risk_and_log_line_the_denial() {
    let e = RuntimeEvent::AwaitingApproval {
        session_id: session_id(),
        request: ApprovalRequest {
            title: "Delete".into(),
            message: "Dangerous".into(),
            action_key: None,
            risk_level: RiskLevel::Destructive,
            raw: None,
        },
        agent_id: None,
        trace_id: None,
    };
    match line_of(e).unwrap().body {
        LineBody::Approval { title, message, risk } => {
            assert_eq!(title, "Delete");
            assert_eq!(message, "Dangerous");
            assert_eq!(risk, Some(RiskLevel::Destructive));
        },
        _ => panic!("expected an approval line"),
    }
    let f = RuntimeEvent::ToolCallFinished {
        session_id: session_id(),
        tool_name: "shell".into(),
        summary: "done".into(),
        agent_id: None,
        trace_id: None,
        denied: true,
    };
    assert!(matches!(log_line(&f).body, LineBody::ToolFinished { denied: Some(true), .. }));
}

#[test]
fn turn_log_header_and_end_lines() {
    let header = turn_header_line(2, "2024-05-01T10:00:00+00:00", "say \"hi\"").unwrap();
    let v: serde_json::Value = serde_json::from_str(&header).unwrap();
    assert_eq!(v["turn"], 2);
    assert_eq!(v["timestamp"], "2024-05-01T10:00:00+00:00");
    assert_eq!(v["user_input"], "say \"hi\"");
    assert!(!header.contains('\n'));
    assert_eq!(turn_end_line(7).unwrap(), r#"{"turn":7,"type":"turn_end"}"#);
}
