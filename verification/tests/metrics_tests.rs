use phi_agent::cli::MetricsSort;
use phi_agent::metrics::{
    node_label, outcome_label, percent_of, session_label, sort_summaries, tools_used_text, turn_outcome_icon,
    SessionOutcome, SessionSummary, TurnOutcome,
};

fn summary(id: &str, turns: u32, chars: u64, outcome: SessionOutcome, created_at: i64) -> SessionSummary {
    SessionSummary {
        session_id: id.to_string(),
        product: None,
        node_id: String::new(),
        total_turns: turns,
        total_chars: chars,
        outcome,
        created_at,
    }
}

fn sample() -> Vec<SessionSummary> {
    vec![
        summary("a", 3, 100, SessionOutcome::Completed, 1),
        summary("b", 9, 50, SessionOutcome::Failed, 2),
        summary("c", 3, 900, SessionOutcome::Cancelled, 3),
        summary("d", 9, 50, SessionOutcome::MaxTurns, 0),
    ]
}

fn ids(v: &[SessionSummary]) -> Vec<&str> {
    v.iter().map(|s| s.session_id.as_str()).collect()
}

#[test]
fn date_keeps_the_given_order() {
    assert_eq!(ids(&sort_summaries(sample(), MetricsSort::Date)), vec!["a", "b", "c", "d"]);
}

#[test]
fn turns_most_first_then_oldest() {
    assert_eq!(ids(&sort_summaries(sample(), MetricsSort::Turns)), vec!["d", "b", "a", "c"]);
}

#[test]
fn chars_most_first() {
    assert_eq!(ids(&sort_summaries(sample(), MetricsSort::Chars)), vec!["c", "a", "d", "b"]);
}

#[test]
fn outcome_failures_first() {
    assert_eq!(ids(&sort_summaries(sample(), MetricsSort::Outcome)), vec!["b", "d", "c", "a"]);
}

#[test]
fn equal_summaries_keep_their_order() {
    let v = vec![
        summary("x", 1, 1, SessionOutcome::Completed, 5),
        summary("y", 1, 1, SessionOutcome::Completed, 5),
        summary("z", 2, 1, SessionOutcome::Completed, 5),
    ];
    assert_eq!(ids(&sort_summaries(v, MetricsSort::Turns)), vec!["z", "x", "y"]);
}

#[test]
fn labels_and_icons() {
    assert_eq!(outcome_label(SessionOutcome::Completed), "✅ completed");
    assert_eq!(outcome_label(SessionOutcome::Failed), "❌ failed");
    assert_eq!(outcome_label(SessionOutcome::Cancelled), "⏹️ cancelled");
    assert_eq!(outcome_label(SessionOutcome::MaxTurns), "⚠️ max_turns");
    assert_eq!(turn_outcome_icon(TurnOutcome::ToolCalls), "🔧");
    assert_eq!(turn_outcome_icon(TurnOutcome::Error), "❌");
    assert_eq!(node_label(""), "-");
    assert_eq!(node_label("node-1"), "node-1");
}

#[test]
fn session_label_with_product_is_cut() {
    let mut s = summary("20240101_abcdef12", 1, 1, SessionOutcome::Completed, 0);
    assert_eq!(session_label(&s), "20240101_abcdef12");
    s.product = Some("phimint".to_string());
    assert_eq!(session_label(&s), "20240101_abcdef12 (phimint)");
    s.product = Some("a-very-long-product-name".to_string());
    assert_eq!(session_label(&s), "20240101_abcdef12 (a-very-lon...");
}

#[test]
fn tools_text() {
    assert_eq!(tools_used_text(&Vec::new()), "text-only");
    assert_eq!(tools_used_text(&vec!["shell".to_string(), "read_file".to_string()]), "tools[shell, read_file]");
}

#[test]
fn percentages() {
    assert_eq!(percent_of(30, 120), 25);
    assert_eq!(percent_of(1, 3), 33);
    assert_eq!(percent_of(5, 0), 0);
}

// ── Table and detail texts ──

use phi_agent::metrics::{
    metrics_footer, metrics_header, metrics_row, metrics_rule, most_recent_session, session_detail_lines,
    SessionMetricsData, TurnMetricsData,
};

#[test]
fn table_header_rule_and_footer() {
    assert_eq!(metrics_header(), format!("  {:<30} {:<22} {:>6} {:>10}  Outcome", "Session", "Node", "Turns", "Chars"));
    assert_eq!(metrics_rule(), format!("  {}", "-".repeat(80)));
    assert_eq!(metrics_footer(3), "  3 session(s)");
}

#[test]
fn table_rows_are_aligned() {
    let mut s = summary("20240101_abcdef12", 12, 1500, SessionOutcome::Failed, 0);
    s.node_id = "node-1".to_string();
    let row = metrics_row(&s, "1.5K");
    assert_eq!(row, format!("  {:<30} {:<22} {:>6} {:>10}  {}", "20240101_abcdef12", "node-1", 12, "1.5K", "❌ failed"));
    let anonymous = summary("x", 1, 1, SessionOutcome::Completed, 0);
    assert_eq!(
        metrics_row(&anonymous, "1"),
        format!("  {:<30} {:<22} {:>6} {:>10}  {}", "x", "-", 1, "1", "✅ completed")
    );
}

#[test]
fn most_recent_is_the_last_created() {
    assert_eq!(most_recent_session(&Vec::new()), None);
    assert_eq!(most_recent_session(&sample()), Some(2));
    let v = vec![
        summary("a", 1, 1, SessionOutcome::Completed, 5),
        summary("b", 1, 1, SessionOutcome::Completed, 5),
        summary("c", 1, 1, SessionOutcome::Completed, 1),
    ];
    assert_eq!(most_recent_session(&v), Some(1));
}

fn detail_metrics() -> SessionMetricsData {
    SessionMetricsData {
        node_id: "phi-proj".into(),
        model: "gpt-4o".into(),
        product: Some("phimint".into()),
        role: Some("writer".into()),
        total_turns: 2,
        total_duration_ms: 10_000,
        avg_turn_ms: 5_000,
        p50_turn_ms: 4_000,
        p95_turn_ms: 6_000,
        p99_turn_ms: 6_500,
        total_chars: 1234,
        total_llm_ms: 7_500,
        total_tool_ms: 2_000,
        tool_breakdown: vec![("shell".into(), 2), ("read_file".into(), 1)],
        outcome: SessionOutcome::Completed,
        error_count: 0,
        total_plan_updates: 1,
        total_approvals: 0,
        turns: vec![
            TurnMetricsData {
                turn_number: 1,
                duration_ms: 4_200,
                time_to_first_token_ms: 350,
                tools_used: vec!["shell".into(), "shell".into()],
                outcome: TurnOutcome::ToolCalls,
            },
            TurnMetricsData {
                turn_number: 2,
                duration_ms: 800,
                time_to_first_token_ms: 90,
                tools_used: vec![],
                outcome: TurnOutcome::Completed,
            },
        ],
    }
}

#[test]
fn detail_view_lines() {
    let rule = format!("  {}", "─".repeat(41));
    let expected: Vec<String> = vec![
        String::new(),
        "  Session:    s1".into(),
        "  Node:       phi-proj".into(),
        "  Model:      gpt-4o".into(),
        "  Product:    phimint (writer)".into(),
        "  Turns:      2".into(),
        "  Duration:   10s (avg 5s/turn, P50 4s, P95 6s, P99 6s)".into(),
        rule.clone(),
        "  Chars:      1.2K".into(),
        rule.clone(),
        "  LLM:        7s (75%)".into(),
        "  Tool:       2s (20%)".into(),
        "  Tools:      shell(2), read_file(1)".into(),
        rule.clone(),
        "  Outcome:    ✅ completed".into(),
        "  Errors:     0".into(),
        "  Plans:      1 update(s), 0 approval(s)".into(),
        String::new(),
        "  Turn breakdown:".into(),
        format!("  #{:<3} {:>4}s  TTFT {:>4}ms  {:<30} {}", 1, 4, 350, "tools[shell, shell]", "🔧"),
        format!("  #{:<3} {:>4}s  TTFT {:>4}ms  {:<30} {}", 2, 0, 90, "text-only", "✅"),
        String::new(),
    ];
    assert_eq!(session_detail_lines(&detail_metrics(), "s1", "1.2K"), expected);
}

#[test]
fn detail_view_without_optional_parts() {
    let mut m = detail_metrics();
    m.product = None;
    m.tool_breakdown = vec![];
    m.total_plan_updates = 0;
    m.turns = vec![];
    m.total_duration_ms = 0;
    let lines = session_detail_lines(&m, "s1", "1.2K");
    assert_eq!(lines.len(), 15);
    assert_eq!(lines[9], "  LLM:        7s (0%)");
    assert!(!lines.iter().any(|l| l.contains("Product") || l.contains("Tools:") || l.contains("Plans") || l.contains("Turn breakdown")));
}
