//! Context compression: once a conversation grows past a token budget, its
//! earlier part is summarised into one message.
//!
//! The summarisation itself is an LLM call made by the runtime; this module
//! holds every decision around it: whether to compress, where to cut the
//! conversation without separating an assistant's tool calls from their
//! results, how the old block is rendered as a transcript, how a summary is
//! cached and reused, and how the compressed message list is assembled.
use vstd::prelude::*;
use vstd::string::StrSliceExecFns;
use vstd::string::StringSliceAdditionalSpecFns;
use vstd::string::StringExecFns;

use crate::error::AgentResult;
use crate::text::{byte_len, decimal, push_decimal, chars_of, string_from_chars, join, join_strings, trim_string, trimmed, truncate_with, truncated, views};

verus! {

broadcast use vstd::string::group_string_axioms;

/// One tool invocation requested by the assistant.
pub struct ToolCall {
    /// Identifier that the matching tool result refers to.
    pub id: String,
    /// Name of the tool.
    pub name: String,
    /// Arguments, as JSON text.
    pub arguments: String,
}

/// A message of the conversation sent to the LLM.
#[allow(inconsistent_fields)]
pub enum ChatMessage {
    /// System prompt.
    System { content: String },
    /// User input, with attached image references.
    User { content: String, images: Vec<String> },
    /// Assistant reply, possibly requesting tool calls.
    Assistant {
        content: Option<String>,
        reasoning_content: Option<String>,
        tool_calls: Option<Vec<ToolCall>>,
    },
    /// Result of a tool call.
    Tool { tool_call_id: String, content: String },
    /// Application-defined message; `data` is JSON text.
    Custom { role: String, data: String },
}

impl ChatMessage {
    /// A system message.
    pub fn system(content: &str) -> (m: ChatMessage)
        ensures
            m matches ChatMessage::System { content: c } && c@ == content@,
    {
        ChatMessage::System { content: String::from_str(content) }
    }

    /// A user message without images.
    pub fn user(content: &str) -> (m: ChatMessage)
        ensures
            m matches ChatMessage::User { content: c, images } && c@ == content@ && images@.len()
                == 0,
    {
        ChatMessage::User { content: String::from_str(content), images: Vec::new() }
    }

    /// A plain assistant reply.
    pub fn assistant(content: &str) -> (m: ChatMessage)
        ensures
            m matches ChatMessage::Assistant { content: Some(c), reasoning_content: None, tool_calls: None }
                && c@ == content@,
    {
        ChatMessage::Assistant {
            content: Some(String::from_str(content)),
            reasoning_content: None,
            tool_calls: None,
        }
    }

    /// An assistant reply that requests a single tool call.
    pub fn assistant_tool_call(id: &str, name: &str, arguments: &str) -> (m: ChatMessage)
        ensures
            m matches ChatMessage::Assistant { content: None, reasoning_content: None, tool_calls: Some(calls) }
                && calls@.len() == 1 && calls@[0].id@ == id@ && calls@[0].name@ == name@
                && calls@[0].arguments@ == arguments@,
    {
        let mut calls: Vec<ToolCall> = Vec::new();
        calls.push(
            ToolCall {
                id: String::from_str(id),
                name: String::from_str(name),
                arguments: String::from_str(arguments),
            },
        );
        ChatMessage::Assistant { content: None, reasoning_content: None, tool_calls: Some(calls) }
    }

    /// A tool result.
    pub fn tool(tool_call_id: &str, content: &str) -> (m: ChatMessage)
        ensures
            m matches ChatMessage::Tool { tool_call_id: i, content: c } && i@ == tool_call_id@
                && c@ == content@,
    {
        ChatMessage::Tool {
            tool_call_id: String::from_str(tool_call_id),
            content: String::from_str(content),
        }
    }

    /// Whether this is an assistant message that requests tool calls.
    pub fn is_pending_tool_call(&self) -> (b: bool)
        ensures
            b == pending_tool_call(*self),
    {
        match self {
            ChatMessage::Assistant { tool_calls: Some(_), .. } => true,
            _ => false,
        }
    }

    /// Whether this is a tool result.
    pub fn is_tool_result(&self) -> (b: bool)
        ensures
            b == (*self is Tool),
    {
        match self {
            ChatMessage::Tool { .. } => true,
            _ => false,
        }
    }

    /// Whether this is a system message.
    pub fn is_system(&self) -> (b: bool)
        ensures
            b == (*self is System),
    {
        match self {
            ChatMessage::System { .. } => true,
            _ => false,
        }
    }
}

/// An assistant message carrying tool calls (whose results follow it).
pub open spec fn pending_tool_call(m: ChatMessage) -> bool {
    m matches ChatMessage::Assistant { tool_calls: Some(_), .. }
}

/// Cutting `msgs` between `cut - 1` and `cut` separates no assistant tool call
/// from its results: the message left of the cut does not request tool calls
/// and the message right of it is not a tool result.
pub open spec fn safe_cut(msgs: Seq<ChatMessage>, cut: int) -> bool {
    !pending_tool_call(msgs[cut - 1]) && !(msgs[cut] is Tool)
}

/// The largest safe cut in `keep_first + 1 ..= cut`, or `keep_first` when there
/// is none; `cut` itself when it does not exceed `keep_first`.
pub open spec fn safe_cut_from(msgs: Seq<ChatMessage>, keep_first: int, cut: int) -> int
    decreases cut - keep_first,
{
    if cut <= keep_first {
        cut
    } else if safe_cut(msgs, cut) {
        cut
    } else {
        safe_cut_from(msgs, keep_first, cut - 1)
    }
}

/// Walks `cut` backward until the boundary is tool-pairing safe, stopping at
/// `keep_first`. The result is the largest safe cut in `keep_first + 1 ..= cut`,
/// or `keep_first` when there is none; a `cut` at or before `keep_first` is
/// returned as it is.
pub fn safe_cut_index(messages: &[ChatMessage], keep_first: usize, cut: usize) -> (r: usize)
    requires
        cut > keep_first ==> cut < messages@.len(),
    ensures
        r <= cut,
        cut <= keep_first ==> r == cut,
        cut > keep_first ==> keep_first <= r,
        cut > keep_first ==> (r == keep_first || safe_cut(messages@, r as int)),
        forall|k: int| r < k <= cut ==> !safe_cut(messages@, k),
        r == safe_cut_from(messages@, keep_first as int, cut as int),
        keep_first < r ==> !(messages@[r as int] is Tool),
        keep_first < r ==> !(messages@[r - 1] matches ChatMessage::Assistant { tool_calls: Some(_), .. }),
{
    proof {
        law_cut_never_orphans_tool_results(messages@, keep_first as int, cut as int);
    }
    if cut <= keep_first {
        return cut;
    }
    let start = cut;
    let mut cut = cut;
    while cut > keep_first
        invariant
            keep_first <= cut <= start < messages@.len(),
            forall|k: int| cut < k <= start ==> !safe_cut(messages@, k),
            safe_cut_from(messages@, keep_first as int, start as int) == safe_cut_from(
                messages@,
                keep_first as int,
                cut as int,
            ),
        ensures
            keep_first <= cut <= start,
            cut == keep_first || safe_cut(messages@, cut as int),
            forall|k: int| cut < k <= start ==> !safe_cut(messages@, k),
            safe_cut_from(messages@, keep_first as int, start as int) == safe_cut_from(
                messages@,
                keep_first as int,
                cut as int,
            ),
        decreases cut,
    {
        let left_is_tool_call = messages[cut - 1].is_pending_tool_call();
        let right_is_tool = messages[cut].is_tool_result();
        if !left_is_tool_call && !right_is_tool {
            break;
        }
        cut = cut - 1;
    }
    cut
}


/// The mark that ends a truncated field.
pub open spec fn ellipsis() -> Seq<char> {
    "…"@
}

/// How one requested tool call appears in a transcript: `name(arguments)`.
pub open spec fn call_text(c: ToolCall) -> Seq<char> {
    c.name@ + "("@ + truncated(c.arguments@, 150, ellipsis()) + ")"@
}

/// How one message appears in a transcript line.
pub open spec fn block_line(m: ChatMessage) -> Seq<char> {
    match m {
        ChatMessage::System { content } => "[system] "@ + truncated(content@, 400, ellipsis()),
        ChatMessage::User { content, .. } => "[user] "@ + truncated(content@, 400, ellipsis()),
        ChatMessage::Assistant { content, tool_calls, .. } => {
            if tool_calls is Some && tool_calls->0@.len() > 0 {
                "[assistant tool_call] "@ + join(
                    tool_calls->0@.map_values(|c: ToolCall| call_text(c)),
                    "; "@,
                )
            } else {
                "[assistant] "@ + match content {
                    Some(c) => truncated(c@, 400, ellipsis()),
                    None => Seq::empty(),
                }
            }
        },
        ChatMessage::Tool { tool_call_id, content } => "[tool:"@ + tool_call_id@ + "] "@
            + truncated(content@, 300, ellipsis()),
        ChatMessage::Custom { role, data } => "[custom:"@ + role@ + "] "@ + truncated(
            data@,
            400,
            ellipsis(),
        ),
    }
}

/// The transcript of a block of messages: one line per message, at most
/// `max_chars` characters (then followed by an ellipsis).
pub open spec fn transcript_of(msgs: Seq<ChatMessage>, max_chars: nat) -> Seq<char> {
    truncated(join(msgs.map_values(|m: ChatMessage| block_line(m)), "\n"@), max_chars, ellipsis())
}

fn call_line(c: &ToolCall) -> (r: String)
    ensures
        r@ == call_text(*c),
{
    let mut r = String::from_str(c.name.as_str());
    r.append("(");
    let args = truncate_with(c.arguments.as_str(), 150, "…");
    r.append(args.as_str());
    r.append(")");
    r
}

/// Renders one message as a transcript line.
pub fn message_line(m: &ChatMessage) -> (r: String)
    ensures
        r@ == block_line(*m),
{
    match m {
        ChatMessage::System { content } => {
            let mut r = String::from_str("[system] ");
            r.append(truncate_with(content.as_str(), 400, "…").as_str());
            r
        },
        ChatMessage::User { content, .. } => {
            let mut r = String::from_str("[user] ");
            r.append(truncate_with(content.as_str(), 400, "…").as_str());
            r
        },
        ChatMessage::Assistant { content, tool_calls, .. } => {
            let has_calls = match tool_calls {
                Some(calls) => calls.len() > 0,
                None => false,
            };
            if has_calls {
                let calls = tool_calls.as_ref().unwrap();
                let mut parts: Vec<String> = Vec::new();
                let mut i: usize = 0;
                while i < calls.len()
                    invariant
                        i <= calls.len(),
                        parts@.len() == i,
                        forall|j: int| 0 <= j < i ==> #[trigger] parts@[j]@ == call_text(calls@[j]),
                    decreases calls.len() - i,
                {
                    parts.push(call_line(&calls[i]));
                    i = i + 1;
                }
                let mut r = String::from_str("[assistant tool_call] ");
                let joined = join_strings(&parts, "; ");
                r.append(joined.as_str());
                proof {
                    assert(views(parts@) =~= calls@.map_values(|c: ToolCall| call_text(c)));
                }
                r
            } else {
                let mut r = String::from_str("[assistant] ");
                match content {
                    Some(c) => {
                        r.append(truncate_with(c.as_str(), 400, "…").as_str());
                    },
                    None => {},
                }
                proof {
                    assert(r@ =~= block_line(*m));
                }
                r
            }
        },
        ChatMessage::Tool { tool_call_id, content } => {
            let mut r = String::from_str("[tool:");
            r.append(tool_call_id.as_str());
            r.append("] ");
            r.append(truncate_with(content.as_str(), 300, "…").as_str());
            r
        },
        ChatMessage::Custom { role, data } => {
            let mut r = String::from_str("[custom:");
            r.append(role.as_str());
            r.append("] ");
            r.append(truncate_with(data.as_str(), 400, "…").as_str());
            r
        },
    }
}

/// Renders an old message block as a compact transcript for the summariser:
/// one line per message, each field cut to a fixed length, the whole cut to
/// `max_chars` characters.
pub fn serialize_block(messages: &[ChatMessage], max_chars: usize) -> (r: String)
    ensures
        r@ == transcript_of(messages@, max_chars as nat),
{
    let mut lines: Vec<String> = Vec::new();
    let mut i: usize = 0;
    while i < messages.len()
        invariant
            i <= messages@.len(),
            lines@.len() == i,
            forall|j: int| 0 <= j < i ==> #[trigger] lines@[j]@ == block_line(messages@[j]),
        decreases messages@.len() - i,
    {
        lines.push(message_line(&messages[i]));
        i = i + 1;
    }
    let joined = join_strings(&lines, "\n");
    proof {
        assert(views(lines@) =~= messages@.map_values(|m: ChatMessage| block_line(m)));
    }
    truncate_with(joined.as_str(), max_chars, "…")
}


/// Tuning knobs for [`SummarizingMiddleware`].
#[derive(Clone, Copy, Debug)]
pub struct CompressionConfig {
    /// Master switch. When `false`, compression never happens.
    pub enabled: bool,
    /// Compress when the estimated token count of the message list exceeds this.
    pub trigger_tokens: usize,
    /// Always keep the most recent N messages intact (the agent's working context).
    pub keep_last_messages: usize,
    /// Hard cap on the raw transcript handed to the summarizer.
    pub max_transcript_chars: usize,
    /// Target max length of the generated summary.
    pub max_summary_chars: usize,
}

impl Default for CompressionConfig {
    fn default() -> (c: Self)
        ensures
            c.enabled,
            c.trigger_tokens == 30_000,
            c.keep_last_messages == 40,
            c.max_transcript_chars == 20_000,
            c.max_summary_chars == 2_000,
    {
        CompressionConfig {
            enabled: true,
            trigger_tokens: 30_000,
            keep_last_messages: 40,
            max_transcript_chars: 20_000,
            max_summary_chars: 2_000,
        }
    }
}

/// Number of leading messages that compression never touches: the system
/// prompt, when the conversation starts with one.
pub open spec fn kept_prefix(msgs: Seq<ChatMessage>) -> int {
    if msgs.len() > 0 && msgs[0] is System {
        1
    } else {
        0
    }
}

/// Index where the recent part would start before the tool-pairing adjustment.
pub open spec fn recent_candidate(msgs: Seq<ChatMessage>, keep_last: nat) -> int {
    if msgs.len() >= keep_last {
        msgs.len() - keep_last
    } else {
        0
    }
}

/// The message count, the token estimate and the candidate boundary all call
/// for compression, so the boundary search runs.
pub open spec fn reaches_cut(c: CompressionConfig, msgs: Seq<ChatMessage>, total_tokens: nat) -> bool {
    &&& c.enabled
    &&& msgs.len() > c.keep_last_messages + 2
    &&& total_tokens > c.trigger_tokens
    &&& recent_candidate(msgs, c.keep_last_messages as nat) > kept_prefix(msgs) + 1
}

/// The `(keep_first, recent_start)` bounds of the block to summarise, or
/// `None` when the conversation is left as it is: compression is disabled,
/// the list or its token estimate is under the thresholds, no tool-pairing
/// safe boundary leaves an old block, the old block starts with a tool
/// result, or its transcript is blank.
pub open spec fn compression_bounds(
    c: CompressionConfig,
    msgs: Seq<ChatMessage>,
    total_tokens: nat,
) -> Option<(int, int)> {
    if !reaches_cut(c, msgs, total_tokens) {
        None
    } else {
        let kf = kept_prefix(msgs);
        let rs = safe_cut_from(msgs, kf, recent_candidate(msgs, c.keep_last_messages as nat));
        if rs <= kf {
            None
        } else if msgs[kf] is Tool {
            None
        } else if trimmed(transcript_of(msgs.subrange(kf, rs), c.max_transcript_chars as nat)).len()
            == 0 {
            None
        } else {
            Some((kf, rs))
        }
    }
}

/// What the runtime does with the message list before an LLM call.
pub enum CompressionStep {
    /// Send the messages unchanged.
    Skip,
    /// Summarise `messages[keep_first..recent_start]`, whose transcript is `transcript`.
    Summarize { keep_first: usize, recent_start: usize, transcript: String },
}

/// Plans the compression of `messages`, whose estimated token count is
/// `total_tokens`.
pub fn plan_compression(config: &CompressionConfig, messages: &Vec<ChatMessage>, total_tokens: usize) -> (step: CompressionStep)
    requires
        config.enabled ==> config.keep_last_messages <= usize::MAX - 2,
        reaches_cut(*config, messages@, total_tokens as nat) ==> config.keep_last_messages > 0,
    ensures
        match step {
            CompressionStep::Skip => compression_bounds(*config, messages@, total_tokens as nat) is None,
            CompressionStep::Summarize { keep_first, recent_start, transcript } => {
                &&& compression_bounds(*config, messages@, total_tokens as nat) == Some(
                    (keep_first as int, recent_start as int),
                )
                &&& transcript@ == transcript_of(
                    messages@.subrange(keep_first as int, recent_start as int),
                    config.max_transcript_chars as nat,
                )
            },
        },
{
    if !config.enabled {
        return CompressionStep::Skip;
    }
    if messages.len() <= config.keep_last_messages + 2 {
        return CompressionStep::Skip;
    }
    if total_tokens <= config.trigger_tokens {
        return CompressionStep::Skip;
    }
    let keep_first: usize = if messages.len() > 0 && messages[0].is_system() {
        1
    } else {
        0
    };
    let candidate: usize = if messages.len() >= config.keep_last_messages {
        messages.len() - config.keep_last_messages
    } else {
        0
    };
    if candidate <= keep_first + 1 {
        return CompressionStep::Skip;
    }
    let recent_start = safe_cut_index(messages.as_slice(), keep_first, candidate);
    if recent_start <= keep_first {
        return CompressionStep::Skip;
    }
    if messages[keep_first].is_tool_result() {
        return CompressionStep::Skip;
    }
    let old = &messages.as_slice()[keep_first..recent_start];
    let transcript = serialize_block(old, config.max_transcript_chars);
    let blank = trim_string(transcript.as_str());
    if blank.as_str().unicode_len() == 0 {
        return CompressionStep::Skip;
    }
    CompressionStep::Summarize { keep_first, recent_start, transcript }
}


/// Text of the message that replaces the summarised block.
pub open spec fn summary_message_text(summary: Seq<char>) -> Seq<char> {
    "[Earlier conversation summary]\n"@ + trimmed(summary)
}

/// Whether a summary is worth inserting: it is not blank.
pub open spec fn has_summary(summary: Seq<char>) -> bool {
    trimmed(summary).len() > 0
}

/// Replaces `messages[keep_first..recent_start]` with one user message that
/// holds the trimmed summary, or drops the block when the summary is blank.
pub fn apply_summary(messages: Vec<ChatMessage>, keep_first: usize, recent_start: usize, summary: &str) -> (r: Vec<ChatMessage>)
    requires
        keep_first <= recent_start <= messages@.len(),
    ensures
        r@.subrange(0, keep_first as int) == messages@.subrange(0, keep_first as int),
        has_summary(summary@) ==> {
            &&& r@.len() == keep_first + 1 + (messages@.len() - recent_start)
            &&& r@[keep_first as int] matches ChatMessage::User { content, images }
                && content@ == summary_message_text(summary@) && images@.len() == 0
            &&& r@.subrange(keep_first + 1, r@.len() as int) == messages@.subrange(
                recent_start as int,
                messages@.len() as int,
            )
        },
        !has_summary(summary@) ==> {
            &&& r@.len() == keep_first + (messages@.len() - recent_start)
            &&& r@.subrange(keep_first as int, r@.len() as int) == messages@.subrange(
                recent_start as int,
                messages@.len() as int,
            )
        },
{
    let mut head = messages;
    let mut tail = head.split_off(recent_start);
    head.truncate(keep_first);
    let ghost kept = head@;
    let trimmed_summary = trim_string(summary);
    if trimmed_summary.as_str().unicode_len() > 0 {
        let mut text = String::from_str("[Earlier conversation summary]\n");
        text.append(trimmed_summary.as_str());
        head.push(ChatMessage::user(text.as_str()));
    }
    let ghost with_summary = head@;
    head.append(&mut tail);
    proof {
        assert(head@.subrange(0, keep_first as int) =~= kept);
        if has_summary(summary@) {
            assert(head@[keep_first as int] == with_summary[keep_first as int]);
            assert(head@.subrange(keep_first + 1, head@.len() as int) =~= messages@.subrange(
                recent_start as int,
                messages@.len() as int,
            ));
        } else {
            assert(head@.subrange(keep_first as int, head@.len() as int) =~= messages@.subrange(
                recent_start as int,
                messages@.len() as int,
            ));
        }
    }
    head
}


/// The hash that `std::hash::DefaultHasher::new()` computes for a string.
pub uninterp spec fn default_hash(s: Seq<char>) -> u64;

/// Hashes `s` with `std::hash::BuildHasher::hash_one` over
/// `BuildHasherDefault<DefaultHasher>`: a fresh `DefaultHasher::new()` fed
/// `s` and finished. Such hashers are unkeyed, so the result is a function of
/// `s` alone; the contract names it and claims nothing more.
#[verifier::external_body]
fn transcript_hash(s: &str) -> (h: u64)
    ensures
        h == default_hash(s@),
{
    std::hash::BuildHasher::hash_one(&std::hash::BuildHasherDefault::<std::hash::DefaultHasher>::default(), s)
}

/// Number of transcript characters that key the summary cache.
pub const CACHE_PREFIX_CHARS: usize = 4096;

/// The first `CACHE_PREFIX_CHARS` characters of a transcript.
pub open spec fn cache_prefix(t: Seq<char>) -> Seq<char> {
    if t.len() <= CACHE_PREFIX_CHARS {
        t
    } else {
        t.take(CACHE_PREFIX_CHARS as int)
    }
}

/// Cache key of a transcript: the session and the hash of the transcript's
/// stable prefix (the oldest messages never change, so the prefix does not).
pub open spec fn summary_key(session_id: u64, transcript: Seq<char>) -> (u64, u64) {
    (session_id, default_hash(cache_prefix(transcript)))
}

/// One cached summary.
pub struct SummaryEntry {
    /// Session the summary belongs to.
    pub session_id: u64,
    /// Hash of the transcript prefix.
    pub prefix_hash: u64,
    /// Byte length of the transcript that was summarised.
    pub transcript_len: usize,
    /// The summary.
    pub summary: String,
}

/// The value cached under `key` in `entries`: the last entry with that key wins.
pub open spec fn cache_lookup(entries: Seq<SummaryEntry>, key: (u64, u64)) -> Option<(usize, Seq<char>)>
    decreases entries.len(),
{
    if entries.len() == 0 {
        None
    } else if (entries.last().session_id, entries.last().prefix_hash) == key {
        Some((entries.last().transcript_len, entries.last().summary@))
    } else {
        cache_lookup(entries.drop_last(), key)
    }
}

/// Summaries keyed by `(session id, transcript prefix hash)`.
pub struct SummaryCache {
    entries: Vec<SummaryEntry>,
}

impl View for SummaryCache {
    type V = Map<(u64, u64), (usize, Seq<char>)>;

    closed spec fn view(&self) -> Self::V {
        Map::new(
            |k: (u64, u64)| cache_lookup(self.entries@, k) is Some,
            |k: (u64, u64)| cache_lookup(self.entries@, k)->0,
        )
    }
}

impl SummaryCache {
    /// An empty cache.
    pub fn new() -> (c: Self)
        ensures
            c@ == Map::<(u64, u64), (usize, Seq<char>)>::empty(),
    {
        let c = SummaryCache { entries: Vec::new() };
        proof {
            assert(c@ =~= Map::<(u64, u64), (usize, Seq<char>)>::empty());
        }
        c
    }

    /// The transcript length and summary cached under `(session_id, prefix_hash)`.
    pub fn get(&self, session_id: u64, prefix_hash: u64) -> (r: Option<(usize, String)>)
        ensures
            match r {
                Some((len, s)) => self@.dom().contains((session_id, prefix_hash)) && self@[(
                    session_id,
                    prefix_hash,
                )] == (len, s@),
                None => !self@.dom().contains((session_id, prefix_hash)),
            },
    {
        let ghost key = (session_id, prefix_hash);
        let mut i = self.entries.len();
        assert(self.entries@.take(i as int) =~= self.entries@);
        while i > 0
            invariant
                i <= self.entries@.len(),
                key == (session_id, prefix_hash),
                cache_lookup(self.entries@, key) == cache_lookup(self.entries@.take(i as int), key),
            decreases i,
        {
            let ghost pre = self.entries@.take(i as int);
            assert(pre.drop_last() =~= self.entries@.take(i - 1));
            assert(pre.last() == self.entries@[i - 1]);
            i = i - 1;
            let e = &self.entries[i];
            if e.session_id == session_id && e.prefix_hash == prefix_hash {
                let r = Some((e.transcript_len, e.summary.clone()));
                assert(pre.len() > 0);
                assert(pre.last() == *e);
                assert((pre.last().session_id, pre.last().prefix_hash) == key);
                assert(cache_lookup(pre, key) == Some((e.transcript_len, e.summary@)));
                assert(cache_lookup(self.entries@, key) is Some);
                assert(self@.dom().contains(key));
                return r;
            }
        }
        assert(self.entries@.take(0) =~= Seq::<SummaryEntry>::empty());
        assert(!self@.dom().contains(key));
        None
    }

    /// Caches `summary` under `(session_id, prefix_hash)`, replacing what was there.
    pub fn insert(&mut self, session_id: u64, prefix_hash: u64, transcript_len: usize, summary: String)
        ensures
            final(self)@ == old(self)@.insert((session_id, prefix_hash), (transcript_len, summary@)),
    {
        let ghost s = summary@;
        self.entries.push(SummaryEntry { session_id, prefix_hash, transcript_len, summary });
        proof {
            assert(self.entries@.drop_last() =~= old(self).entries@);
            assert(self@ =~= old(self)@.insert((session_id, prefix_hash), (transcript_len, s)));
        }
    }
}

/// Plans and bookkeeps LLM-based compression of the earlier part of long
/// conversations.
pub struct SummarizingMiddleware {
    config: CompressionConfig,
    cache: SummaryCache,
}

impl SummarizingMiddleware {
    /// The configuration in effect.
    pub closed spec fn spec_config(&self) -> CompressionConfig {
        self.config
    }

    /// The summaries cached so far.
    pub closed spec fn cached(&self) -> Map<(u64, u64), (usize, Seq<char>)> {
        self.cache@
    }

    /// A middleware with the default configuration and an empty cache.
    pub fn new() -> (m: Self)
        ensures
            m.spec_config().enabled,
            m.spec_config().trigger_tokens == 30_000,
            m.spec_config().keep_last_messages == 40,
            m.spec_config().max_transcript_chars == 20_000,
            m.spec_config().max_summary_chars == 2_000,
            m.cached() == Map::<(u64, u64), (usize, Seq<char>)>::empty(),
    {
        SummarizingMiddleware { config: CompressionConfig::default(), cache: SummaryCache::new() }
    }

    /// Replaces the whole configuration.
    pub fn with_config(self, config: CompressionConfig) -> (m: Self)
        ensures
            m.spec_config() == config,
            m.cached() == self.cached(),
    {
        SummarizingMiddleware { config, cache: self.cache }
    }

    /// Sets the token estimate above which compression fires.
    pub fn with_trigger_tokens(self, tokens: usize) -> (m: Self)
        ensures
            m.spec_config() == (CompressionConfig { trigger_tokens: tokens, ..self.spec_config() }),
            m.cached() == self.cached(),
    {
        let mut m = self;
        m.config.trigger_tokens = tokens;
        m
    }

    /// Sets how many recent messages are always kept.
    pub fn with_keep_last_messages(self, n: usize) -> (m: Self)
        ensures
            m.spec_config() == (CompressionConfig { keep_last_messages: n, ..self.spec_config() }),
            m.cached() == self.cached(),
    {
        let mut m = self;
        m.config.keep_last_messages = n;
        m
    }

    /// Sets the target summary length.
    pub fn with_max_summary_chars(self, chars: usize) -> (m: Self)
        ensures
            m.spec_config() == (CompressionConfig { max_summary_chars: chars, ..self.spec_config() }),
            m.cached() == self.cached(),
    {
        let mut m = self;
        m.config.max_summary_chars = chars;
        m
    }

    /// The configuration in effect.
    pub fn config(&self) -> (c: &CompressionConfig)
        ensures
            *c == self.spec_config(),
    {
        &self.config
    }

    /// Plans the compression of `messages` under this middleware's configuration.
    pub fn plan(&self, messages: &Vec<ChatMessage>, total_tokens: usize) -> (step: CompressionStep)
        requires
            self.spec_config().enabled ==> self.spec_config().keep_last_messages <= usize::MAX - 2,
            reaches_cut(self.spec_config(), messages@, total_tokens as nat)
                ==> self.spec_config().keep_last_messages > 0,
        ensures
            match step {
                CompressionStep::Skip => compression_bounds(
                    self.spec_config(),
                    messages@,
                    total_tokens as nat,
                ) is None,
                CompressionStep::Summarize { keep_first, recent_start, transcript } => {
                    &&& compression_bounds(self.spec_config(), messages@, total_tokens as nat)
                        == Some((keep_first as int, recent_start as int))
                    &&& transcript@ == transcript_of(
                        messages@.subrange(keep_first as int, recent_start as int),
                        self.spec_config().max_transcript_chars as nat,
                    )
                },
            },
    {
        plan_compression(&self.config, messages, total_tokens)
    }

    /// The cache key of `transcript` in session `session_id`.
    pub fn cache_key(session_id: u64, transcript: &str) -> (k: (u64, u64))
        ensures
            k == summary_key(session_id, transcript@),
    {
        let chars = chars_of(transcript);
        let n = if chars.len() <= CACHE_PREFIX_CHARS {
            chars.len()
        } else {
            CACHE_PREFIX_CHARS
        };
        let prefix = string_from_chars(&chars, 0, n);
        proof {
            assert(prefix@ =~= cache_prefix(transcript@));
        }
        (session_id, transcript_hash(prefix.as_str()))
    }

    /// A cached summary that can stand for `transcript`: one is cached under
    /// its key, for a transcript no longer than this one. When this is
    /// `Some`, no summarisation call is needed.
    pub fn cached_summary(&self, session_id: u64, transcript: &str) -> (r: Option<String>)
        ensures
            ({
                let k = summary_key(session_id, transcript@);
                match r {
                    Some(s) => self.cached().dom().contains(k) && self.cached()[k].0 <= byte_len(
                        transcript@,
                    ) && s@ == self.cached()[k].1,
                    None => !(self.cached().dom().contains(k) && self.cached()[k].0 <= byte_len(
                        transcript@,
                    )),
                }
            }),
    {
        let key = Self::cache_key(session_id, transcript);
        match self.cache.get(key.0, key.1) {
            Some((cached_len, s)) => {
                if cached_len <= transcript.len() {
                    Some(s)
                } else {
                    None
                }
            },
            None => None,
        }
    }

    /// Records the summary produced for `transcript`; an empty summary (a
    /// failed summarisation) is not cached.
    pub fn record_summary(&mut self, session_id: u64, transcript: &str, summary: &str)
        ensures
            final(self).spec_config() == old(self).spec_config(),
            summary@.len() > 0 ==> final(self).cached() == old(self).cached().insert(
                summary_key(session_id, transcript@),
                (byte_len(transcript@), summary@),
            ),
            summary@.len() == 0 ==> final(self).cached() == old(self).cached(),
    {
        if summary.unicode_len() > 0 {
            let key = Self::cache_key(session_id, transcript);
            self.cache.insert(key.0, key.1, transcript.len(), String::from_str(summary));
        }
    }
}

/// What the runtime does with the message list before an LLM call, once the
/// summary cache has been consulted.
pub enum CompressionAction {
    /// Send the messages unchanged.
    Skip,
    /// Replace `messages[keep_first..recent_start]` with this cached summary.
    Reuse { keep_first: usize, recent_start: usize, summary: String },
    /// Ask the summariser for a summary of `transcript`, the transcript of
    /// `messages[keep_first..recent_start]`, then call `accept_summary`.
    Summarize { keep_first: usize, recent_start: usize, transcript: String },
}

/// Whether a summary cached for `session_id` can stand for transcript `t`.
pub open spec fn reusable(cached: Map<(u64, u64), (usize, Seq<char>)>, session_id: u64, t: Seq<char>) -> bool {
    let k = summary_key(session_id, t);
    cached.dom().contains(k) && cached[k].0 <= byte_len(t)
}

impl SummarizingMiddleware {
    /// Decides, before an LLM call of session `session_id`, whether and how
    /// the earlier part of `messages` (estimated at `total_tokens` tokens) is
    /// compressed: not at all, with a cached summary, or with a new one.
    pub fn prepare(&self, session_id: u64, messages: &Vec<ChatMessage>, total_tokens: usize) -> (a:
        CompressionAction)
        requires
            self.spec_config().enabled ==> self.spec_config().keep_last_messages <= usize::MAX - 2,
            reaches_cut(self.spec_config(), messages@, total_tokens as nat)
                ==> self.spec_config().keep_last_messages > 0,
        ensures
            match compression_bounds(self.spec_config(), messages@, total_tokens as nat) {
                None => a is Skip,
                Some((kf, rs)) => {
                    let t = transcript_of(
                        messages@.subrange(kf, rs),
                        self.spec_config().max_transcript_chars as nat,
                    );
                    if reusable(self.cached(), session_id, t) {
                        a matches CompressionAction::Reuse { keep_first, recent_start, summary }
                            && keep_first == kf && recent_start == rs && summary@ == self.cached()[summary_key(
                            session_id,
                            t,
                        )].1
                    } else {
                        a matches CompressionAction::Summarize { keep_first, recent_start, transcript }
                            && keep_first == kf && recent_start == rs && transcript@ == t
                    }
                },
            },
    {
        match self.plan(messages, total_tokens) {
            CompressionStep::Skip => CompressionAction::Skip,
            CompressionStep::Summarize { keep_first, recent_start, transcript } => {
                match self.cached_summary(session_id, transcript.as_str()) {
                    Some(summary) => CompressionAction::Reuse { keep_first, recent_start, summary },
                    None => CompressionAction::Summarize { keep_first, recent_start, transcript },
                }
            },
        }
    }

    /// Takes the summariser's answer for `transcript`: its text, or nothing
    /// when the call failed (the old block is then dropped). A non-empty
    /// summary is cached for later calls. Returns the summary to apply.
    pub fn accept_summary(&mut self, session_id: u64, transcript: &str, outcome: AgentResult<String>) -> (s:
        String)
        ensures
            s@ == match outcome {
                Ok(t) => t@,
                Err(_) => Seq::<char>::empty(),
            },
            final(self).spec_config() == old(self).spec_config(),
            s@.len() > 0 ==> final(self).cached() == old(self).cached().insert(
                summary_key(session_id, transcript@),
                (byte_len(transcript@), s@),
            ),
            s@.len() == 0 ==> final(self).cached() == old(self).cached(),
    {
        let s = match outcome {
            Ok(t) => t,
            Err(_) => String::new(),
        };
        self.record_summary(session_id, transcript, s.as_str());
        s
    }
}

/// Once a summary has been accepted for a block, preparing the same
/// conversation again reuses it instead of summarising a second time.
pub proof fn law_accepted_summary_is_reused(
    before: SummarizingMiddleware,
    after: SummarizingMiddleware,
    session_id: u64,
    messages: Seq<ChatMessage>,
    total_tokens: nat,
    summary: Seq<char>,
)
    requires
        summary.len() > 0,
        compression_bounds(before.spec_config(), messages, total_tokens) is Some,
        after.spec_config() == before.spec_config(),
        ({
            let (kf, rs) = compression_bounds(before.spec_config(), messages, total_tokens)->0;
            let t = transcript_of(messages.subrange(kf, rs), before.spec_config().max_transcript_chars as nat);
            after.cached() == before.cached().insert(summary_key(session_id, t), (byte_len(t), summary))
        }),
    ensures
        ({
            let (kf, rs) = compression_bounds(after.spec_config(), messages, total_tokens)->0;
            let t = transcript_of(messages.subrange(kf, rs), after.spec_config().max_transcript_chars as nat);
            &&& reusable(after.cached(), session_id, t)
            &&& after.cached()[summary_key(session_id, t)].1 == summary
        }),
{
}

/// Instructions given to the summariser.
pub const SUMMARIZER_SYSTEM_PROMPT: &'static str = "You are a conversation summarizer for an AI agent that can call tools (browser, shell, search, etc.).";

/// Opening of the summarisation request, before the target length.
pub const SUMMARIZE_REQUEST_HEAD: &'static str = "Compress the earlier portion of this agent conversation. Preserve:\n- the user's original goal and any constraints they stated;\n- every important fact, decision and intermediate result;\n- which tools were used and their key findings/returned data;\n- blockers, errors, and anything the agent still needs to remember to continue.\nDetect the conversation language and write the summary in that same language.\nOutput ONLY the summary text, no preamble, about ";

/// Part of the summarisation request between the target length and the transcript.
pub const SUMMARIZE_REQUEST_TAIL: &'static str = " characters max.\n\n=== CONVERSATION ===\n";

/// The user message asking to summarise `transcript` in about `max_chars` characters.
pub open spec fn summarize_request_text(transcript: Seq<char>, max_chars: nat) -> Seq<char> {
    SUMMARIZE_REQUEST_HEAD@ + decimal(max_chars) + SUMMARIZE_REQUEST_TAIL@ + transcript
}

/// The two messages of the one-shot summarisation call: the summariser's
/// instructions and the request holding the transcript.
pub fn summarization_request(transcript: &str, max_chars: usize) -> (r: Vec<ChatMessage>)
    ensures
        r@.len() == 2,
        r@[0] matches ChatMessage::System { content } && content@ == SUMMARIZER_SYSTEM_PROMPT@,
        r@[1] matches ChatMessage::User { content, images } && content@ == summarize_request_text(
            transcript@,
            max_chars as nat,
        ) && images@.len() == 0,
{
    let mut text = String::from_str(SUMMARIZE_REQUEST_HEAD);
    push_decimal(&mut text, max_chars as u64);
    text.append(SUMMARIZE_REQUEST_TAIL);
    text.append(transcript);
    let mut r: Vec<ChatMessage> = Vec::new();
    r.push(ChatMessage::system(SUMMARIZER_SYSTEM_PROMPT));
    r.push(ChatMessage::user(text.as_str()));
    r
}


proof fn lemma_safe_cut_from(msgs: Seq<ChatMessage>, keep_first: int, cut: int)
    requires
        keep_first <= cut,
    ensures
        keep_first <= safe_cut_from(msgs, keep_first, cut) <= cut,
        safe_cut_from(msgs, keep_first, cut) > keep_first ==> safe_cut(
            msgs,
            safe_cut_from(msgs, keep_first, cut),
        ),
    decreases cut - keep_first,
{
    if cut > keep_first && !safe_cut(msgs, cut) {
        lemma_safe_cut_from(msgs, keep_first, cut - 1);
    }
}

/// When compression happens, the summarised block `keep_first..recent_start`
/// starts right after the system prompt (if any), does not start with a tool
/// result, ends at a boundary that separates no assistant tool call from its
/// results, and leaves at least the last `keep_last_messages` messages untouched.
pub proof fn law_compression_cut_is_tool_pairing_safe(
    c: CompressionConfig,
    msgs: Seq<ChatMessage>,
    total_tokens: nat,
)
    requires
        c.keep_last_messages > 0,
        compression_bounds(c, msgs, total_tokens) is Some,
    ensures
        ({
            let (keep_first, recent_start) = compression_bounds(c, msgs, total_tokens)->0;
            &&& keep_first == kept_prefix(msgs)
            &&& keep_first < recent_start < msgs.len()
            &&& recent_start + c.keep_last_messages <= msgs.len()
            &&& safe_cut(msgs, recent_start)
            &&& !(msgs[recent_start] is Tool)
            &&& !(msgs[recent_start - 1] matches ChatMessage::Assistant { tool_calls: Some(_), .. })
            &&& !(msgs[keep_first] is Tool)
        }),
{
    let kf = kept_prefix(msgs);
    let cand = recent_candidate(msgs, c.keep_last_messages as nat);
    lemma_safe_cut_from(msgs, kf, cand);
    law_cut_never_orphans_tool_results(msgs, kf, cand);
}

/// The cut that compression settles on never orphans a tool result: when it
/// lies past the kept head, the message right of it is no tool result and the
/// message left of it is no assistant message requesting tool calls, so every
/// tool result stays with the call that asked for it. The cut never moves
/// forward, and it stops at the head only when no later boundary is safe.
pub proof fn law_cut_never_orphans_tool_results(msgs: Seq<ChatMessage>, keep_first: int, cut: int)
    requires
        0 <= keep_first,
        cut > keep_first ==> cut < msgs.len(),
    ensures
        ({
            let r = safe_cut_from(msgs, keep_first, cut);
            &&& r <= cut
            &&& cut <= keep_first ==> r == cut
            &&& cut > keep_first ==> keep_first <= r
            &&& keep_first < r ==> !(msgs[r] is Tool)
            &&& keep_first < r ==> !(msgs[r - 1] matches ChatMessage::Assistant { tool_calls: Some(_), .. })
            &&& forall|k: int|
                #![trigger msgs[k]]
                r < k <= cut ==> (msgs[k] is Tool || msgs[k - 1] matches ChatMessage::Assistant {
                    tool_calls: Some(_),
                    ..
                })
        }),
    decreases cut - keep_first,
{
    if cut > keep_first {
        if !(!(msgs[cut - 1] matches ChatMessage::Assistant { tool_calls: Some(_), .. }) && !(msgs[cut] is Tool)) {
            law_cut_never_orphans_tool_results(msgs, keep_first, cut - 1);
        }
    }
}

/// A summary recorded for a transcript is the one reused for that same
/// transcript afterwards: no second summarisation call is made.
pub proof fn law_recorded_summary_is_reused(
    before: SummarizingMiddleware,
    after: SummarizingMiddleware,
    session_id: u64,
    transcript: Seq<char>,
    summary: Seq<char>,
)
    requires
        summary.len() > 0,
        after.cached() == before.cached().insert(
            summary_key(session_id, transcript),
            (byte_len(transcript), summary),
        ),
    ensures
        after.cached().dom().contains(summary_key(session_id, transcript)),
        after.cached()[summary_key(session_id, transcript)].0 <= byte_len(transcript),
        after.cached()[summary_key(session_id, transcript)].1 == summary,
{
}

} // verus!
