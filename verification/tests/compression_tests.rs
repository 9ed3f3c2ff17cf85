use phi_agent::compression::{
    apply_summary, message_line, plan_compression, safe_cut_index, serialize_block, summarization_request,
    ChatMessage, CompressionConfig, CompressionStep, SummarizingMiddleware, SUMMARIZER_SYSTEM_PROMPT,
};

fn sample_messages() -> Vec<ChatMessage> {
    vec![
        ChatMessage::system("sys"),
        ChatMessage::user("q1"),
        ChatMessage::assistant_tool_call("call_1", "browser_navigate", r#"{"url":"a"}"#),
        ChatMessage::tool("call_1", "loaded ok"),
        ChatMessage::assistant("found the page"),
        ChatMessage::user("q2"),
        ChatMessage::assistant("done"),
    ]
}

#[test]
fn test_safe_cut_never_splits_tool_pair() {
    let msgs = sample_messages();
    let cut = safe_cut_index(&msgs, 1, 3);
    assert!(cut < 3, "must walk backward from an unsafe cut");
    assert!(!matches!(msgs[cut - 1], ChatMessage::Assistant { tool_calls: Some(_), .. }));
    assert!(!matches!(msgs[cut], ChatMessage::Tool { .. }));
}

#[test]
fn test_safe_cut_prefers_given_boundary_when_safe() {
    let msgs = vec![
        ChatMessage::system("sys"),
        ChatMessage::user("q1"),
        ChatMessage::assistant("a1"),
        ChatMessage::user("q2"),
        ChatMessage::assistant("a2"),
    ];
    let cut = safe_cut_index(&msgs, 1, 3);
    assert_eq!(cut, 3);
}

#[test]
fn test_serialize_block_preserves_tool_calls() {
    let msgs = vec![ChatMessage::user("short question"), ChatMessage::assistant_tool_call("c1", "browser_navigate", "{}")];
    let out = serialize_block(&msgs, 1000);
    assert!(out.contains("tool_call"));
    assert!(out.contains("browser_navigate"));
}

#[test]
fn test_serialize_block_truncates_oversized_fields() {
    let long = "x".repeat(1000);
    let msgs = vec![ChatMessage::user(&long)];
    let out = serialize_block(&msgs, 200);
    assert!(out.chars().count() <= 201);
    assert!(!out.contains(&long), "full payload must not leak through");
}

#[test]
fn test_serialize_block_custom_message() {
    let msgs = vec![ChatMessage::Custom {
        role: "artifact".to_string(),
        data: r#"{"content":"generated image","id":"art-1"}"#.to_string(),
    }];
    let out = serialize_block(&msgs, 500);
    assert!(out.contains("[custom:artifact]"));
    assert!(out.contains("art-1"));
}

// ── Exact transcript lines ──

#[test]
fn message_lines_are_labelled() {
    assert_eq!(message_line(&ChatMessage::system("s")), "[system] s");
    assert_eq!(message_line(&ChatMessage::user("u")), "[user] u");
    assert_eq!(message_line(&ChatMessage::assistant("a")), "[assistant] a");
    assert_eq!(message_line(&ChatMessage::tool("c9", "r")), "[tool:c9] r");
    assert_eq!(
        message_line(&ChatMessage::assistant_tool_call("c1", "shell", r#"{"cmd":"ls"}"#)),
        r#"[assistant tool_call] shell({"cmd":"ls"})"#
    );
}

#[test]
fn fields_are_cut_with_an_ellipsis() {
    let long = "y".repeat(500);
    let line = message_line(&ChatMessage::user(&long));
    assert_eq!(line, format!("[user] {}…", "y".repeat(400)));
    let tool = message_line(&ChatMessage::tool("c", &long));
    assert_eq!(tool, format!("[tool:c] {}…", "y".repeat(300)));
}

#[test]
fn block_is_joined_by_newlines() {
    let msgs = vec![ChatMessage::user("a"), ChatMessage::assistant("b")];
    assert_eq!(serialize_block(&msgs, 1000), "[user] a\n[assistant] b");
    assert_eq!(serialize_block(&msgs, 3), "[us…");
}

// ── Planning ──

fn eager_config() -> CompressionConfig {
    CompressionConfig { trigger_tokens: 1, keep_last_messages: 2, ..CompressionConfig::default() }
}

#[test]
fn test_config_defaults() {
    let c = CompressionConfig::default();
    assert!(c.enabled);
    assert_eq!(c.trigger_tokens, 30_000);
    assert_eq!(c.keep_last_messages, 40);
    assert_eq!(c.max_transcript_chars, 20_000);
    assert_eq!(c.max_summary_chars, 2_000);
}

#[test]
fn plan_skips_under_threshold() {
    let msgs = sample_messages();
    let c = CompressionConfig { keep_last_messages: 2, ..CompressionConfig::default() };
    assert!(matches!(plan_compression(&c, &msgs, 10), CompressionStep::Skip));
}

#[test]
fn plan_skips_short_conversations_and_when_disabled() {
    let msgs = sample_messages();
    let c = CompressionConfig { keep_last_messages: 5, ..eager_config() };
    assert!(matches!(plan_compression(&c, &msgs, 1_000_000), CompressionStep::Skip));
    let off = CompressionConfig { enabled: false, ..eager_config() };
    assert!(matches!(plan_compression(&off, &msgs, 1_000_000), CompressionStep::Skip));
}

#[test]
fn plan_summarises_the_old_block() {
    let msgs = sample_messages();
    match plan_compression(&eager_config(), &msgs, 100) {
        CompressionStep::Summarize { keep_first, recent_start, transcript } => {
            assert_eq!(keep_first, 1);
            assert_eq!(recent_start, 5);
            assert_eq!(
                transcript,
                "[user] q1\n[assistant tool_call] browser_navigate({\"url\":\"a\"})\n[tool:call_1] loaded ok\n[assistant] found the page"
            );
        },
        CompressionStep::Skip => panic!("expected a summary step"),
    }
}

#[test]
fn summary_replaces_the_old_block() {
    let msgs = sample_messages();
    let out = apply_summary(msgs, 1, 5, "  The user wanted to scrape articles. ");
    assert_eq!(out.len(), 4);
    assert!(matches!(&out[0], ChatMessage::System { content } if content == "sys"));
    assert!(
        matches!(&out[1], ChatMessage::User { content, .. } if content == "[Earlier conversation summary]\nThe user wanted to scrape articles.")
    );
    assert!(matches!(&out[2], ChatMessage::User { content, .. } if content == "q2"));
    for m in &out {
        assert!(!matches!(m, ChatMessage::Tool { .. }));
    }
}

#[test]
fn failed_summary_drops_the_old_block() {
    let out = apply_summary(sample_messages(), 1, 5, "   ");
    assert_eq!(out.len(), 3);
    assert!(out.iter().all(|m| !matches!(
        m,
        ChatMessage::User { content, .. } if content.contains("Earlier conversation summary")
    )));
}

// ── Middleware and cache ──

#[test]
fn middleware_builders_set_the_config() {
    let mw = SummarizingMiddleware::new().with_trigger_tokens(1).with_keep_last_messages(2).with_max_summary_chars(99);
    let c = mw.config();
    assert_eq!(c.trigger_tokens, 1);
    assert_eq!(c.keep_last_messages, 2);
    assert_eq!(c.max_summary_chars, 99);
    assert_eq!(c.max_transcript_chars, 20_000);
}

#[test]
fn recorded_summary_is_reused_for_the_same_block() {
    let mut mw = SummarizingMiddleware::new().with_trigger_tokens(1).with_keep_last_messages(2);
    let msgs = sample_messages();
    let transcript = match mw.plan(&msgs, 100) {
        CompressionStep::Summarize { transcript, .. } => transcript,
        CompressionStep::Skip => panic!("expected a summary step"),
    };
    assert_eq!(mw.cached_summary(1, &transcript), None);
    mw.record_summary(1, &transcript, "summary text");
    assert_eq!(mw.cached_summary(1, &transcript), Some("summary text".to_string()));
    assert_eq!(mw.cached_summary(2, &transcript), None);
}

#[test]
fn cached_summary_covers_blocks_that_grew_at_the_tail() {
    let mut mw = SummarizingMiddleware::new();
    let block = "x".repeat(5000);
    mw.record_summary(1, &block, "s");
    // The key is the first 4096 characters: a longer block with that beginning
    // reuses the summary, a shorter one does not.
    let longer = format!("{}more", block);
    assert_eq!(mw.cached_summary(1, &longer), Some("s".to_string()));
    let shorter = "x".repeat(4500);
    assert_eq!(mw.cached_summary(1, &shorter), None);
    // Short blocks must match exactly.
    mw.record_summary(1, "[user] a", "t");
    assert_eq!(mw.cached_summary(1, "[user] a\n[user] b"), None);
}

#[test]
fn empty_summary_is_not_cached() {
    let mut mw = SummarizingMiddleware::new();
    mw.record_summary(1, "[user] a", "");
    assert_eq!(mw.cached_summary(1, "[user] a"), None);
}

#[test]
fn cache_key_depends_on_the_transcript() {
    let a = SummarizingMiddleware::cache_key(1, "[user] a");
    let b = SummarizingMiddleware::cache_key(1, "[user] b");
    assert_eq!(a.0, 1);
    assert_ne!(a.1, b.1);
    assert_eq!(a, SummarizingMiddleware::cache_key(1, "[user] a"));
}

#[test]
fn summarization_request_holds_the_transcript() {
    let r = summarization_request("[user] hi", 2000);
    assert_eq!(r.len(), 2);
    assert!(matches!(&r[0], ChatMessage::System { content } if content == SUMMARIZER_SYSTEM_PROMPT));
    match &r[1] {
        ChatMessage::User { content, .. } => {
            assert!(content.contains("about 2000 characters max."));
            assert!(content.ends_with("=== CONVERSATION ===\n[user] hi"));
        },
        _ => panic!("expected a user message"),
    }
}

// ── The pre-call flow: prepare, summarise, accept, apply ──

use phi_agent::compression::CompressionAction;
use phi_agent::error::AgentError;

/// Runs one pre-call compression with a summariser that answers `answer`,
/// counting summariser calls in `calls`.
fn compress_once(
    mw: &mut SummarizingMiddleware,
    messages: Vec<ChatMessage>,
    answer: &Result<String, String>,
    calls: &mut usize,
) -> Vec<ChatMessage> {
    match mw.prepare(1, &messages, 100) {
        CompressionAction::Skip => messages,
        CompressionAction::Reuse { keep_first, recent_start, summary } => {
            apply_summary(messages, keep_first, recent_start, &summary)
        },
        CompressionAction::Summarize { keep_first, recent_start, transcript } => {
            *calls += 1;
            let outcome = match answer {
                Ok(s) => Ok(s.clone()),
                Err(e) => Err(AgentError::internal(e.clone())),
            };
            let summary = mw.accept_summary(1, &transcript, outcome);
            apply_summary(messages, keep_first, recent_start, &summary)
        },
    }
}

#[test]
fn test_on_pre_llm_noop_when_under_threshold() {
    let mut mw = SummarizingMiddleware::new().with_keep_last_messages(2);
    let msgs = vec![ChatMessage::system("sys"), ChatMessage::user("hi")];
    let mut calls = 0;
    let out = compress_once(&mut mw, msgs, &Ok("unused".to_string()), &mut calls);
    assert_eq!(out.len(), 2);
    assert_eq!(calls, 0);
}

#[test]
fn test_on_pre_llm_compresses_and_caches() {
    let mut mw = SummarizingMiddleware::new().with_trigger_tokens(1).with_keep_last_messages(2);
    let answer = Ok("The user wanted to scrape articles.".to_string());
    let mut calls = 0;
    let out = compress_once(&mut mw, sample_messages(), &answer, &mut calls);
    assert!(out.len() < 7, "should have compressed, got {}", out.len());
    assert_eq!(calls, 1, "summarizer called once");
    assert!(matches!(out[1], ChatMessage::User { .. }));
    for m in &out {
        assert!(!matches!(m, ChatMessage::Tool { .. }), "no tool orphan after compression");
    }
    let out2 = compress_once(&mut mw, sample_messages(), &answer, &mut calls);
    assert_eq!(calls, 1, "cache reused");
    assert_eq!(out.len(), out2.len());
}

#[test]
fn test_summarization_failure_drops_old_block() {
    let mut mw = SummarizingMiddleware::new().with_trigger_tokens(1).with_keep_last_messages(2);
    let mut calls = 0;
    let out = compress_once(&mut mw, sample_messages(), &Err("boom".to_string()), &mut calls);
    assert!(out.len() < 7);
    assert!(out.iter().all(|m| !matches!(
        m,
        ChatMessage::User { content, .. } if content.contains("Earlier conversation summary")
    )));
    // Nothing was cached, so the next call asks again.
    compress_once(&mut mw, sample_messages(), &Err("boom".to_string()), &mut calls);
    assert_eq!(calls, 2);
}

#[test]
fn test_default_threshold_fires_on_long_conversation() {
    let mw = SummarizingMiddleware::new();
    let mut messages = vec![ChatMessage::system("sys")];
    let chunk = "这是用于验证压缩默认阈值的中文文本。".repeat(80);
    for i in 0..45 {
        messages.push(ChatMessage::user(&format!("q{i} {chunk}")));
        messages.push(ChatMessage::assistant(&format!("a{i}")));
    }
    // About 960 tokens per user message: well over the default trigger.
    let total_tokens = 45 * 960 + 45;
    match mw.prepare(1, &messages, total_tokens) {
        CompressionAction::Summarize { keep_first, recent_start, .. } => {
            assert_eq!(keep_first, 1);
            assert_eq!(recent_start, messages.len() - 40);
        },
        _ => panic!("the default threshold must fire"),
    }
}

#[test]
fn disabled_compression_skips_even_with_a_huge_keep_count() {
    let c = CompressionConfig { enabled: false, keep_last_messages: usize::MAX, ..CompressionConfig::default() };
    assert!(matches!(plan_compression(&c, &sample_messages(), 1_000_000), CompressionStep::Skip));
}

#[test]
fn safe_cut_at_or_before_kept_head_is_returned_as_is() {
    let msgs = sample_messages();
    assert_eq!(safe_cut_index(&msgs, 3, 2), 2);
    assert_eq!(safe_cut_index(&msgs, 3, 3), 3);
}
