//! Command-line decisions: approval strategies, option defaults and the
//! interactive loop's commands.
use vstd::prelude::*;

use crate::error::{AgentError, AgentResult};
use crate::event::{ApprovalDecision, ApprovalRequest};
use crate::render::OutputFormat;
use crate::text::{
    chars_of, has_prefix, parse_usize, parse_usize_spec, string_from_chars, text_equals,
    trim_string, trimmed,
};

verus! {

// ── Approval strategies ──

/// Approval strategy.
#[derive(Clone, Copy, Debug, PartialEq, Eq, Structural)]
pub enum ApprovalMode {
    /// Automatically approve all tool calls without user interaction.
    Auto,
    /// Reject all tool calls that require approval.
    DenyAll,
}

/// The decision that a strategy gives every request.
pub open spec fn mode_decision(mode: ApprovalMode) -> ApprovalDecision {
    match mode {
        ApprovalMode::Auto => ApprovalDecision::AllowAlways,
        ApprovalMode::DenyAll => ApprovalDecision::Deny,
    }
}

/// I/O-free approval handler: a pure strategy, for CLI, CI and headless use.
pub struct AutoApprovalHandler {
    mode: ApprovalMode,
}

impl AutoApprovalHandler {
    /// The strategy of this handler.
    pub closed spec fn strategy(&self) -> ApprovalMode {
        self.mode
    }

    /// Creates a handler with the given approval strategy.
    pub fn new(mode: ApprovalMode) -> (h: Self)
        ensures
            h.strategy() == mode,
    {
        AutoApprovalHandler { mode }
    }

    /// Answers an approval request: `AllowAlways` under `Auto`, `Deny` under
    /// `DenyAll`, whatever the request says.
    pub fn approve(&self, request: &ApprovalRequest) -> (r: AgentResult<ApprovalDecision>)
        ensures
            r matches Ok(d) && d == mode_decision(self.strategy()),
    {
        match self.mode {
            ApprovalMode::Auto => Ok(ApprovalDecision::AllowAlways),
            ApprovalMode::DenyAll => Ok(ApprovalDecision::Deny),
        }
    }
}

/// The answer of a queued approval request, once the wait for the user ends:
/// `cancelled` when the cancellation came first, `reply` the user's decision,
/// or `None` when the answering side went away without one.
pub fn queued_approval_outcome(cancelled: bool, reply: Option<ApprovalDecision>) -> (r: AgentResult<
    ApprovalDecision,
>)
    ensures
        cancelled ==> r matches Err(AgentError::Cancelled),
        !cancelled ==> match reply {
            Some(d) => r matches Ok(x) && x == d,
            None => r matches Err(AgentError::Cancelled),
        },
{
    if cancelled {
        return Err(AgentError::Cancelled);
    }
    match reply {
        Some(d) => Ok(d),
        None => Err(AgentError::Cancelled),
    }
}

// ── Option values ──

/// Output format chosen on the command line.
#[derive(Clone, Copy, Debug, PartialEq, Eq, Structural)]
pub enum OutputFormatArg {
    /// Rich terminal output.
    Terminal,
    /// One JSON object per line.
    Json,
    /// No output.
    Quiet,
}

/// Reasoning effort chosen on the command line.
#[derive(Clone, Copy, Debug, PartialEq, Eq, Structural)]
pub enum ReasoningEffortArg {
    /// Low effort.
    Low,
    /// Medium effort.
    Medium,
    /// High effort.
    High,
    /// Extra-high effort.
    Xhigh,
}

/// How much effort the model spends on reasoning.
#[derive(Clone, Copy, Debug, PartialEq, Eq, Structural)]
pub enum ReasoningEffort {
    /// Low effort.
    Low,
    /// Medium effort.
    Medium,
    /// High effort.
    High,
    /// Extra-high effort.
    XHigh,
}

/// The effort that a command-line choice stands for.
pub open spec fn effort_of(arg: ReasoningEffortArg) -> ReasoningEffort {
    match arg {
        ReasoningEffortArg::Low => ReasoningEffort::Low,
        ReasoningEffortArg::Medium => ReasoningEffort::Medium,
        ReasoningEffortArg::High => ReasoningEffort::High,
        ReasoningEffortArg::Xhigh => ReasoningEffort::XHigh,
    }
}

impl From<ReasoningEffortArg> for ReasoningEffort {
    fn from(arg: ReasoningEffortArg) -> (r: Self) {
        match arg {
            ReasoningEffortArg::Low => ReasoningEffort::Low,
            ReasoningEffortArg::Medium => ReasoningEffort::Medium,
            ReasoningEffortArg::High => ReasoningEffort::High,
            ReasoningEffortArg::Xhigh => ReasoningEffort::XHigh,
        }
    }
}

impl vstd::std_specs::convert::FromSpecImpl<ReasoningEffortArg> for ReasoningEffort {
    open spec fn obeys_from_spec() -> bool {
        true
    }

    open spec fn from_spec(arg: ReasoningEffortArg) -> Self {
        effort_of(arg)
    }
}

/// The output format that the command-line options select.
pub open spec fn selected_format(
    format: OutputFormatArg,
    no_thinking: bool,
    no_tool_args: bool,
    no_color: bool,
) -> OutputFormat {
    match format {
        OutputFormatArg::Terminal => OutputFormat::Terminal {
            show_thinking: !no_thinking,
            show_tool_args: !no_tool_args,
            color: !no_color,
        },
        OutputFormatArg::Json => OutputFormat::Json,
        OutputFormatArg::Quiet => OutputFormat::Quiet,
    }
}

/// The output format that the command-line options select; the `no_*`
/// switches only matter for terminal output.
pub fn output_format(format: OutputFormatArg, no_thinking: bool, no_tool_args: bool, no_color: bool) -> (r:
    OutputFormat)
    ensures
        r == selected_format(format, no_thinking, no_tool_args, no_color),
{
    match format {
        OutputFormatArg::Terminal => OutputFormat::Terminal {
            show_thinking: !no_thinking,
            show_tool_args: !no_tool_args,
            color: !no_color,
        },
        OutputFormatArg::Json => OutputFormat::Json,
        OutputFormatArg::Quiet => OutputFormat::Quiet,
    }
}

/// Per-turn safety limits of the agent.
#[derive(Clone, Copy, Debug, PartialEq, Eq, Structural)]
pub struct SafetyConfig {
    /// Most tool calls in one turn.
    pub max_tool_calls_per_turn: usize,
    /// Most consecutive failures of the same tool.
    pub max_consecutive_failures: usize,
}

/// Tool calls allowed per turn unless the command line says otherwise.
pub const DEFAULT_MAX_TOOL_CALLS: usize = 64;

/// Consecutive failures allowed unless the command line says otherwise.
pub const DEFAULT_MAX_FAILURES: usize = 3;

/// The safety limits: the command-line values where given, else 64 tool
/// calls per turn and 3 consecutive failures.
pub fn safety_config(max_tool_calls: Option<usize>, max_failures: Option<usize>) -> (c: SafetyConfig)
    ensures
        c.max_tool_calls_per_turn == match max_tool_calls {
            Some(n) => n,
            None => DEFAULT_MAX_TOOL_CALLS,
        },
        c.max_consecutive_failures == match max_failures {
            Some(n) => n,
            None => DEFAULT_MAX_FAILURES,
        },
{
    SafetyConfig {
        max_tool_calls_per_turn: match max_tool_calls {
            Some(n) => n,
            None => DEFAULT_MAX_TOOL_CALLS,
        },
        max_consecutive_failures: match max_failures {
            Some(n) => n,
            None => DEFAULT_MAX_FAILURES,
        },
    }
}

/// Tool-output cap, in characters, unless the environment sets another.
pub const DEFAULT_MAX_TOOL_OUTPUT_CHARS: usize = 4000;

/// The tool-output cap for a `PHI_MAX_TOOL_OUTPUT_CHARS` value: the value,
/// trimmed, when it parses as a `usize`; otherwise (or when unset) 4000.
pub fn max_tool_output_chars(value: Option<&str>) -> (n: usize)
    ensures
        n == match value {
            Some(v) => match parse_usize_spec(trimmed(v@)) {
                Some(k) => k,
                None => DEFAULT_MAX_TOOL_OUTPUT_CHARS,
            },
            None => DEFAULT_MAX_TOOL_OUTPUT_CHARS,
        },
{
    match value {
        Some(v) => {
            let t = trim_string(v);
            match parse_usize(t.as_str()) {
                Some(k) => k,
                None => DEFAULT_MAX_TOOL_OUTPUT_CHARS,
            }
        },
        None => DEFAULT_MAX_TOOL_OUTPUT_CHARS,
    }
}

/// The ASCII lower-case form of `c`.
pub open spec fn ascii_lower(c: char) -> char {
    if 'A' <= c && c <= 'Z' {
        ((c as u32) + 32) as char
    } else {
        c
    }
}

/// Whether `s` equals the lower-case ASCII word `word`, ignoring ASCII case.
pub open spec fn equals_ignoring_case(s: Seq<char>, word: Seq<char>) -> bool {
    s.len() == word.len() && forall|i: int| 0 <= i < s.len() ==> ascii_lower(#[trigger] s[i]) == word[i]
}

/// Whether a `PHI_METRICS_ENABLED` value switches metrics off: empty, or
/// `false`, `0`, `no` or `off` in any case.
pub open spec fn is_off_value(v: Seq<char>) -> bool {
    ||| v.len() == 0
    ||| equals_ignoring_case(v, "false"@)
    ||| equals_ignoring_case(v, "0"@)
    ||| equals_ignoring_case(v, "no"@)
    ||| equals_ignoring_case(v, "off"@)
}

fn lower_matches(c: char, w: char) -> (b: bool)
    ensures
        b == (ascii_lower(c) == w),
{
    if 'A' <= c && c <= 'Z' {
        (c as u32) + 32 == (w as u32)
    } else {
        c == w
    }
}

fn equals_word_ignoring_case(s: &Vec<char>, word: &str) -> (b: bool)
    ensures
        b == equals_ignoring_case(s@, word@),
{
    let w = chars_of(word);
    if s.len() != w.len() {
        return false;
    }
    let mut i: usize = 0;
    while i < s.len()
        invariant
            i <= s@.len(),
            s@.len() == w@.len(),
            w@ == word@,
            forall|j: int| 0 <= j < i ==> ascii_lower(#[trigger] s@[j]) == w@[j],
        decreases s@.len() - i,
    {
        if !lower_matches(s[i], w[i]) {
            return false;
        }
        i = i + 1;
    }
    true
}

/// Whether metrics are collected for a `PHI_METRICS_ENABLED` value: yes when
/// unset, and otherwise unless the value switches them off.
pub fn metrics_enabled(value: Option<&str>) -> (b: bool)
    ensures
        b == match value {
            Some(v) => !is_off_value(v@),
            None => true,
        },
{
    match value {
        None => true,
        Some(v) => {
            let c = chars_of(v);
            let off = c.len() == 0 || equals_word_ignoring_case(&c, "false")
                || equals_word_ignoring_case(&c, "0") || equals_word_ignoring_case(&c, "no")
                || equals_word_ignoring_case(&c, "off");
            !off
        },
    }
}

// ── Interactive loop ──

/// A line typed at the interactive prompt, as the loop understands it.
#[derive(Clone, Debug)]
pub enum ReplCommand {
    /// `exit` or `quit`: leave the loop.
    Exit,
    /// `reset`: start a new agent session.
    Reset,
    /// `compact`: summarise the session's history now.
    Compact,
    /// `tools`: list the registered tools.
    Tools,
    /// `session`: show the session context.
    Session,
    /// `events`: list the turn logs.
    Events,
    /// `snapshots`: list the saved snapshots.
    Snapshots,
    /// `snapshot <name>`: save a snapshot under the name.
    Snapshot(String),
    /// `snapshot` followed by blanks only: show the usage.
    SnapshotUsage,
    /// Anything else: a prompt for the agent.
    Prompt(String),
}

/// The command text of a line: trimmed, without one leading `/`.
pub open spec fn command_text(line: Seq<char>) -> Seq<char> {
    let t = trimmed(line);
    if t.len() > 0 && t[0] == '/' {
        t.drop_first()
    } else {
        t
    }
}

/// Whether `r` is what the command text `c` asks for.
pub open spec fn is_command(r: ReplCommand, c: Seq<char>) -> bool {
    if c == "exit"@ || c == "quit"@ {
        r is Exit
    } else if c == "reset"@ {
        r is Reset
    } else if c == "compact"@ {
        r is Compact
    } else if c == "tools"@ {
        r is Tools
    } else if c == "session"@ {
        r is Session
    } else if c == "events"@ {
        r is Events
    } else if c == "snapshots"@ {
        r is Snapshots
    } else if has_prefix(c, "snapshot "@) {
        let name = trimmed(c.skip(9));
        if name.len() == 0 {
            r is SnapshotUsage
        } else {
            r matches ReplCommand::Snapshot(n) && n@ == name
        }
    } else {
        r matches ReplCommand::Prompt(p) && p@ == c
    }
}

/// Reads a line typed at the interactive prompt. A blank line gives `None`;
/// otherwise the trimmed line, with one leading `/` dropped, is a command
/// word or a prompt for the agent.
pub fn parse_repl_command(line: &str) -> (r: Option<ReplCommand>)
    ensures
        r is None <==> trimmed(line@).len() == 0,
        r matches Some(cmd) ==> is_command(cmd, command_text(line@)),
{
    let t = trim_string(line);
    let tc = chars_of(t.as_str());
    if tc.len() == 0 {
        return None;
    }
    let start: usize = if tc[0] == '/' {
        1
    } else {
        0
    };
    let c = string_from_chars(&tc, start, tc.len());
    let cc = chars_of(c.as_str());
    let cs = c.as_str();
    proof {
        if start == 1 {
            assert(cc@ =~= trimmed(line@).drop_first());
        } else {
            assert(cc@ =~= trimmed(line@));
        }
    }
    let cmd = if text_equals(cs, "exit") || text_equals(cs, "quit") {
        ReplCommand::Exit
    } else if text_equals(cs, "reset") {
        ReplCommand::Reset
    } else if text_equals(cs, "compact") {
        ReplCommand::Compact
    } else if text_equals(cs, "tools") {
        ReplCommand::Tools
    } else if text_equals(cs, "session") {
        ReplCommand::Session
    } else if text_equals(cs, "events") {
        ReplCommand::Events
    } else if text_equals(cs, "snapshots") {
        ReplCommand::Snapshots
    } else if crate::text::starts_with(c.as_str(), "snapshot ") {
        proof {
            reveal_strlit("snapshot ");
        }
        let rest = string_from_chars(&cc, 9, cc.len());
        proof {
            assert(rest@ =~= cc@.skip(9));
        }
        let name = trim_string(rest.as_str());
        let name_chars = chars_of(name.as_str());
        if name_chars.len() == 0 {
            ReplCommand::SnapshotUsage
        } else {
            ReplCommand::Snapshot(name)
        }
    } else {
        ReplCommand::Prompt(c)
    };
    Some(cmd)
}

/// The turn number after the interactive loop handles `cmd`, when the
/// current turn is `turn` and the session directory's last logged turn is
/// `last_logged`: a prompt runs the next turn, `reset` starts again from the
/// logged turns, anything else leaves the number as it is.
pub open spec fn turn_after(turn: int, last_logged: int, cmd: ReplCommand) -> int {
    match cmd {
        ReplCommand::Prompt(_) => turn + 1,
        ReplCommand::Reset => last_logged,
        _ => turn,
    }
}

/// The turn number after handling `cmd` (see [`turn_after`]). The loop
/// starts from the last turn logged for the session, so a reused session
/// continues its sequence of turn logs.
pub fn next_turn(turn: u32, last_logged: u32, cmd: &ReplCommand) -> (n: u32)
    requires
        cmd is Prompt ==> turn < u32::MAX,
    ensures
        n == turn_after(turn as int, last_logged as int, *cmd),
{
    match cmd {
        ReplCommand::Prompt(_) => turn + 1,
        ReplCommand::Reset => last_logged,
        _ => turn,
    }
}

/// The turn number of a one-shot query: the turn after the last one logged
/// for the session, so that a reused session continues its sequence.
pub fn one_shot_turn(last_logged: u32) -> (n: u32)
    requires
        last_logged < u32::MAX,
    ensures
        n == last_logged + 1,
{
    last_logged + 1
}

/// In a session whose logs end at turn `last_logged`, the first prompt of
/// the interactive loop runs turn `last_logged + 1`, and every later prompt
/// the turn after the one before.
pub proof fn law_reused_session_continues_turns(last_logged: u32, input: String)
    requires
        last_logged < u32::MAX,
    ensures
        turn_after(last_logged as int, last_logged as int, ReplCommand::Prompt(input)) == last_logged + 1,
        turn_after(last_logged as int, last_logged as int, ReplCommand::Reset) == last_logged,
{
}

/// The turn number after the interactive loop handles each command of
/// `cmds` in turn, from `turn`, in a session whose last logged turn is
/// `last_logged`.
pub open spec fn turn_after_each(turn: int, last_logged: int, cmds: Seq<ReplCommand>) -> int
    decreases cmds.len(),
{
    if cmds.len() == 0 {
        turn
    } else {
        turn_after(turn_after_each(turn, last_logged, cmds.drop_last()), last_logged, cmds.last())
    }
}

/// How many of `cmds` are prompts for the agent.
pub open spec fn prompt_count(cmds: Seq<ReplCommand>) -> nat
    decreases cmds.len(),
{
    if cmds.len() == 0 {
        0
    } else {
        prompt_count(cmds.drop_last()) + if cmds.last() is Prompt {
            1nat
        } else {
            0nat
        }
    }
}

/// Over a whole run of the interactive loop without `reset`, in a session
/// whose logs end at turn `last_logged`: after any number of lines the turn
/// number is `last_logged` plus the prompts among them, so the `i`-th prompt
/// runs turn `last_logged + i`, and command lines run no turn.
pub proof fn law_prompts_number_turns_in_order(last_logged: u32, cmds: Seq<ReplCommand>)
    requires
        forall|j: int| 0 <= j < cmds.len() ==> !(#[trigger] cmds[j] is Reset),
    ensures
        forall|i: int|
            0 <= i <= cmds.len() ==> #[trigger] turn_after_each(last_logged as int, last_logged as int, cmds.take(i))
                == last_logged + prompt_count(cmds.take(i)),
        forall|i: int|
            0 <= i < cmds.len() && (#[trigger] cmds[i] is Prompt) ==> turn_after_each(
                last_logged as int,
                last_logged as int,
                cmds.take(i + 1),
            ) == last_logged + prompt_count(cmds.take(i)) + 1,
{
    assert forall|i: int| 0 <= i <= cmds.len() implies #[trigger] turn_after_each(
        last_logged as int,
        last_logged as int,
        cmds.take(i),
    ) == last_logged + prompt_count(cmds.take(i)) by {
        lemma_turns_of_prefix(last_logged as int, cmds, i);
    }
    assert forall|i: int| 0 <= i < cmds.len() && (#[trigger] cmds[i] is Prompt) implies turn_after_each(
        last_logged as int,
        last_logged as int,
        cmds.take(i + 1),
    ) == last_logged + prompt_count(cmds.take(i)) + 1 by {
        lemma_turns_of_prefix(last_logged as int, cmds, i + 1);
        assert(cmds.take(i + 1).drop_last() =~= cmds.take(i));
        assert(cmds.take(i + 1).last() == cmds[i]);
    }
}

proof fn lemma_turns_of_prefix(start: int, cmds: Seq<ReplCommand>, i: int)
    requires
        0 <= i <= cmds.len(),
        forall|j: int| 0 <= j < cmds.len() ==> !(#[trigger] cmds[j] is Reset),
    ensures
        turn_after_each(start, start, cmds.take(i)) == start + prompt_count(cmds.take(i)),
    decreases i,
{
    if i > 0 {
        lemma_turns_of_prefix(start, cmds, i - 1);
        assert(cmds.take(i).drop_last() =~= cmds.take(i - 1));
        assert(cmds.take(i).last() == cmds[i - 1]);
    }
}

/// The node id of this process: `phi-` and the name of the working
/// directory, or `phi-unknown` when it has none.
pub fn node_id_for(dir_name: Option<&str>) -> (id: String)
    ensures
        id@ == "phi-"@ + match dir_name {
            Some(d) => d@,
            None => "unknown"@,
        },
{
    let mut id = String::from_str("phi-");
    match dir_name {
        Some(d) => id.append(d),
        None => id.append("unknown"),
    }
    id
}

// ── Command line ──

/// Key by which `phi metrics list` orders sessions.
#[derive(Clone, Copy, Debug, PartialEq, Eq, Structural)]
pub enum MetricsSort {
    /// Creation date, oldest first (the listing's own order).
    Date,
    /// Most turns first.
    Turns,
    /// Most characters first.
    Chars,
    /// Failed first, then max-turns, cancelled, completed.
    Outcome,
}

/// The `phi metrics` subcommands.
#[derive(Debug)]
pub enum MetricsCmd {
    /// List all sessions with their turns, characters and outcome.
    List {
        /// Sort key.
        sort: MetricsSort,
    },
    /// Show detailed metrics for one session.
    Show {
        /// Session id (e.g. "20260730_c52b4c91").
        session_id: String,
    },
    /// Show the most recent session.
    Last,
}

/// Subcommands of `phi`.
#[derive(Debug)]
pub enum SubCommand {
    /// Manage observability data.
    Metrics {
        /// The metrics subcommand.
        cmd: MetricsCmd,
    },
    /// Scaffold a new project.
    Init {
        /// Project name.
        name: String,
        /// Generate a single-shot example instead of a REPL.
        lib: bool,
    },
    /// Start the protocol server.
    Serve {
        /// Serve HTTP on this port instead of stdio.
        http: Option<u16>,
        /// Use the NDJSON bridge protocol.
        bridge: bool,
    },
}

/// The options of the `phi` command line.
#[derive(Debug)]
pub struct CliArgs {
    /// One-shot query; without it the interactive loop runs.
    pub query: Option<String>,
    /// Subcommand, if any.
    pub command: Option<SubCommand>,
    /// Output format.
    pub format: OutputFormatArg,
    /// Hide the model's thinking.
    pub no_thinking: bool,
    /// Thinking token budget.
    pub thinking_budget: Option<u64>,
    /// Thinking effort.
    pub thinking_effort: ReasoningEffortArg,
    /// Hide tool arguments.
    pub no_tool_args: bool,
    /// Disable terminal colors.
    pub no_color: bool,
    /// Approve every operation without asking.
    pub auto_approve: bool,
    /// Session id for session persistence.
    pub session_id: Option<String>,
    /// LLM model name.
    pub model: Option<String>,
    /// LLM API base URL.
    pub base_url: Option<String>,
    /// Log directory (`~` stands for the home directory).
    pub log_dir: String,
    /// Log level.
    pub log_level: String,
    /// Disable file logging.
    pub no_log: bool,
    /// Most tool calls per turn.
    pub max_tool_calls: Option<usize>,
    /// Most consecutive failures of one tool.
    pub max_failures: Option<usize>,
    /// Most react-loop iterations for one input.
    pub max_turns: Option<u32>,
    /// Shell command timeout, in milliseconds.
    pub shell_timeout_ms: u64,
    /// Enable browser automation tools.
    pub enable_browser: bool,
    /// Run the browser with a visible window.
    pub headed: bool,
    /// WebSocket address of a running browser to connect to.
    pub connect_ws: Option<String>,
}

/// `path` with every `~` replaced by `home`.
pub open spec fn home_expanded(path: Seq<char>, home: Seq<char>) -> Seq<char>
    decreases path.len(),
{
    if path.len() == 0 {
        Seq::empty()
    } else {
        home_expanded(path.drop_last(), home) + if path.last() == '~' {
            home
        } else {
            seq![path.last()]
        }
    }
}

/// Replaces every `~` in `path` with `home`.
pub fn expand_home(path: &str, home: &str) -> (r: String)
    ensures
        r@ == home_expanded(path@, home@),
{
    let pc = chars_of(path);
    let mut r = String::new();
    let mut i: usize = 0;
    while i < pc.len()
        invariant
            i <= pc@.len(),
            pc@ == path@,
            r@ == home_expanded(pc@.take(i as int), home@),
        decreases pc@.len() - i,
    {
        let ghost t = pc@.take(i + 1);
        assert(t.drop_last() =~= pc@.take(i as int));
        if pc[i] == '~' {
            r.append(home);
        } else {
            r.push(pc[i]);
        }
        i = i + 1;
    }
    assert(pc@.take(pc@.len() as int) =~= pc@);
    r
}

} // verus!
