//! The texts that the interactive loop shows: the welcome banner, the
//! session and event listings, the tool and snapshot listings and the short
//! messages that answer its commands. Each is the exact text written to the
//! terminal, line ends included; the caller only writes it.
use vstd::prelude::*;
use vstd::string::StringExecFns;

use crate::error::AgentError;
use crate::json::{set_field, set_flag, set_flag_field, set_text_field};
use crate::session::SnapshotInfo;
use crate::text::{
    decimal, decimal_padded, join, join_strings, pad_right, padded_right, push_decimal, push_decimal_padded,
    views,
};

verus! {

broadcast use vstd::string::group_string_axioms;

/// A line as `println!` writes it.
pub open spec fn ln(s: Seq<char>) -> Seq<char> {
    s + "\n"@
}

fn push_line(out: &mut String, s: &str)
    ensures
        final(out)@ == old(out)@ + ln(s@),
{
    out.append(s);
    out.append("\n");
}

/// Top border of the welcome banner.
pub const BANNER_TOP: &'static str = "╔═══════════════════════════════════════════════════╗";

/// Title row of the welcome banner.
pub const BANNER_TITLE: &'static str = "║  \x1b[1mphi\x1b[0m — General-purpose AI Agent CLI                 ║";

/// Empty row of the welcome banner.
pub const BANNER_EMPTY: &'static str = "║                                                   ║";

/// Status row of the welcome banner for a new session.
pub const BANNER_NEW: &'static str = "║  Status: New session                                ║";

/// Status row of the welcome banner for a reused session.
pub const BANNER_REUSED: &'static str = "║  Status: Reusing session                            ║";

/// First command row of the welcome banner.
pub const BANNER_COMMANDS: &'static str = "║  Commands: exit/quit | reset | tools | session | events║";

/// Second command row of the welcome banner.
pub const BANNER_MORE_COMMANDS: &'static str = "║            compact | snapshot <name> | snapshots        ║";

/// Bottom border of the welcome banner.
pub const BANNER_BOTTOM: &'static str = "╚═══════════════════════════════════════════════════╝";

/// The model name the banner shows: `default` when none is configured.
pub open spec fn shown_model(model: Seq<char>) -> Seq<char> {
    if model.len() == 0 {
        "default"@
    } else {
        model
    }
}

/// The welcome banner of the interactive loop: the model left-aligned in 42
/// columns, the session id in 40, and whether the session is new.
pub open spec fn welcome_banner_spec(model: Seq<char>, session_id: Seq<char>, is_new: bool) -> Seq<char> {
    ln(""@) + ln(BANNER_TOP@) + ln(BANNER_TITLE@) + ln(BANNER_EMPTY@) + ln(
        "║  Model: "@ + padded_right(shown_model(model), 42) + "║"@,
    ) + ln("║  Session: "@ + padded_right(session_id, 40) + "║"@) + ln(
        if is_new {
            BANNER_NEW@
        } else {
            BANNER_REUSED@
        },
    ) + ln(BANNER_EMPTY@) + ln(BANNER_COMMANDS@) + ln(BANNER_MORE_COMMANDS@) + ln(BANNER_BOTTOM@) + ln(""@)
}

/// Writes the welcome banner.
pub fn welcome_banner(model: &str, session_id: &str, is_new: bool) -> (r: String)
    ensures
        r@ == welcome_banner_spec(model@, session_id@, is_new),
{
    let mut out = String::new();
    push_line(&mut out, "");
    push_line(&mut out, BANNER_TOP);
    push_line(&mut out, BANNER_TITLE);
    push_line(&mut out, BANNER_EMPTY);
    let shown = if model.unicode_len() == 0 {
        "default"
    } else {
        model
    };
    let mut row = String::from_str("║  Model: ");
    row.append(pad_right(shown, 42).as_str());
    row.append("║");
    push_line(&mut out, row.as_str());
    let mut row = String::from_str("║  Session: ");
    row.append(pad_right(session_id, 40).as_str());
    row.append("║");
    push_line(&mut out, row.as_str());
    if is_new {
        push_line(&mut out, BANNER_NEW);
    } else {
        push_line(&mut out, BANNER_REUSED);
    }
    push_line(&mut out, BANNER_EMPTY);
    push_line(&mut out, BANNER_COMMANDS);
    push_line(&mut out, BANNER_MORE_COMMANDS);
    push_line(&mut out, BANNER_BOTTOM);
    push_line(&mut out, "");
    proof {
        assert(out@ =~= welcome_banner_spec(model@, session_id@, is_new));
    }
    out
}

/// The `session` command's report: id, directory, whether the session is
/// new, the current turn and the log file.
pub open spec fn session_context_spec(
    session_id: Seq<char>,
    dir: Seq<char>,
    is_new: bool,
    turn: u32,
    log_path: Seq<char>,
) -> Seq<char> {
    ln(""@) + ln("  \x1b[1mSession Context\x1b[0m"@) + ln("  ─────────────────"@) + ln(
        "  Session ID:  "@ + session_id,
    ) + ln("  Directory:   "@ + dir) + ln(
        "  Status:      "@ + if is_new {
            "new"@
        } else {
            "reused"@
        },
    ) + ln("  Turn:        "@ + decimal(turn as nat)) + ln("  Log:         "@ + log_path) + ln(""@)
}

/// Writes the `session` command's report.
pub fn session_context_text(session_id: &str, dir: &str, is_new: bool, turn: u32, log_path: &str) -> (r: String)
    ensures
        r@ == session_context_spec(session_id@, dir@, is_new, turn, log_path@),
{
    let mut out = String::new();
    push_line(&mut out, "");
    push_line(&mut out, "  \x1b[1mSession Context\x1b[0m");
    push_line(&mut out, "  ─────────────────");
    let mut row = String::from_str("  Session ID:  ");
    row.append(session_id);
    push_line(&mut out, row.as_str());
    let mut row = String::from_str("  Directory:   ");
    row.append(dir);
    push_line(&mut out, row.as_str());
    let mut row = String::from_str("  Status:      ");
    if is_new {
        row.append("new");
    } else {
        row.append("reused");
    }
    push_line(&mut out, row.as_str());
    let mut row = String::from_str("  Turn:        ");
    push_decimal(&mut row, turn as u64);
    push_line(&mut out, row.as_str());
    let mut row = String::from_str("  Log:         ");
    row.append(log_path);
    push_line(&mut out, row.as_str());
    push_line(&mut out, "");
    proof {
        assert(out@ =~= session_context_spec(session_id@, dir@, is_new, turn, log_path@));
    }
    out
}

/// A turn log as the `events` command lists it: its path and size.
pub struct TurnLogFile {
    /// Path of the log, as shown.
    pub path: String,
    /// Size of the log in bytes (0 when it cannot be read).
    pub size: u64,
}

/// The rows of the `events` listing, turn 1 first, numbered in three digits.
pub open spec fn turn_rows(logs: Seq<TurnLogFile>) -> Seq<char>
    decreases logs.len(),
{
    if logs.len() == 0 {
        Seq::empty()
    } else {
        turn_rows(logs.drop_last()) + ln(
            "    turn "@ + decimal_padded(logs.len(), 3) + ": "@ + logs.last().path@ + " ("@ + decimal(
                logs.last().size as nat,
            ) + " bytes)"@,
        )
    }
}

/// The `events` command's report: the turns completed and the log of each.
pub open spec fn events_spec(turns: u32, logs: Seq<TurnLogFile>) -> Seq<char> {
    ln(""@) + ln("  \x1b[1mEvent Stream\x1b[0m"@) + ln("  ────────────────"@) + ln(
        "  Turns completed: "@ + decimal(turns as nat),
    ) + if turns > 0 {
        turn_rows(logs)
    } else {
        ln("  (no turns yet)"@)
    } + ln(""@)
}

/// Writes the `events` command's report; `logs` holds the log of each
/// completed turn, turn 1 first.
pub fn events_text(turns: u32, logs: &Vec<TurnLogFile>) -> (r: String)
    requires
        logs@.len() == turns,
    ensures
        r@ == events_spec(turns, logs@),
{
    let mut out = String::new();
    push_line(&mut out, "");
    push_line(&mut out, "  \x1b[1mEvent Stream\x1b[0m");
    push_line(&mut out, "  ────────────────");
    let mut row = String::from_str("  Turns completed: ");
    push_decimal(&mut row, turns as u64);
    push_line(&mut out, row.as_str());
    let ghost head = out@;
    if turns > 0 {
        let mut i: usize = 0;
        while i < logs.len()
            invariant
                i <= logs@.len(),
                out@ == head + turn_rows(logs@.take(i as int)),
            decreases logs@.len() - i,
        {
            let ghost before = out@;
            let mut row = String::from_str("    turn ");
            push_decimal_padded(&mut row, (i + 1) as u64, 3);
            row.append(": ");
            row.append(logs[i].path.as_str());
            row.append(" (");
            push_decimal(&mut row, logs[i].size);
            row.append(" bytes)");
            push_line(&mut out, row.as_str());
            proof {
                let t = logs@.take(i + 1);
                assert(t.drop_last() =~= logs@.take(i as int));
                assert(t.last() == logs@[i as int]);
                assert(out@ =~= head + turn_rows(t));
            }
            i = i + 1;
        }
        proof {
            assert(logs@.take(logs@.len() as int) =~= logs@);
        }
    } else {
        push_line(&mut out, "  (no turns yet)");
    }
    push_line(&mut out, "");
    proof {
        assert(out@ =~= events_spec(turns, logs@));
    }
    out
}

/// A registered tool as the `tools` command lists it.
pub struct ToolListing {
    /// The tool's name.
    pub name: String,
    /// Where the tool comes from.
    pub origin: String,
    /// The tool's version.
    pub version: String,
    /// What the tool does.
    pub description: String,
    /// What the tool needs to run.
    pub requirements: Vec<String>,
}

/// The rows of one tool: name, origin and version; its description; its
/// requirements, when it has any.
pub open spec fn tool_rows(t: ToolListing) -> Seq<char> {
    ln("  \x1b[1m"@ + t.name@ + "\x1b[0m  "@ + t.origin@ + "  v"@ + t.version@) + ln("    "@ + t.description@)
        + if t.requirements@.len() > 0 {
        ln("    requirements: "@ + join(views(t.requirements@), ", "@))
    } else {
        Seq::empty()
    }
}

/// The rows of all tools, in order.
pub open spec fn all_tool_rows(tools: Seq<ToolListing>) -> Seq<char>
    decreases tools.len(),
{
    if tools.len() == 0 {
        Seq::empty()
    } else {
        all_tool_rows(tools.drop_last()) + tool_rows(tools.last())
    }
}

/// The `tools` command's report.
pub open spec fn tools_spec(tools: Seq<ToolListing>) -> Seq<char> {
    ln(""@) + if tools.len() == 0 {
        ln("  (no tools registered)"@)
    } else {
        ln("  Registered tools ("@ + decimal(tools.len()) + "):\n"@) + all_tool_rows(tools)
    } + ln(""@)
}

fn push_tool_rows(out: &mut String, t: &ToolListing)
    ensures
        final(out)@ == old(out)@ + tool_rows(*t),
{
    let mut row = String::from_str("  \x1b[1m");
    row.append(t.name.as_str());
    row.append("\x1b[0m  ");
    row.append(t.origin.as_str());
    row.append("  v");
    row.append(t.version.as_str());
    push_line(out, row.as_str());
    let mut row = String::from_str("    ");
    row.append(t.description.as_str());
    push_line(out, row.as_str());
    if t.requirements.len() > 0 {
        let mut row = String::from_str("    requirements: ");
        row.append(join_strings(&t.requirements, ", ").as_str());
        push_line(out, row.as_str());
    }
    proof {
        assert(out@ =~= old(out)@ + tool_rows(*t));
    }
}

/// Writes the `tools` command's report.
pub fn tools_text(tools: &Vec<ToolListing>) -> (r: String)
    ensures
        r@ == tools_spec(tools@),
{
    let mut out = String::new();
    push_line(&mut out, "");
    if tools.len() == 0 {
        push_line(&mut out, "  (no tools registered)");
    } else {
        let mut row = String::from_str("  Registered tools (");
        push_decimal(&mut row, tools.len() as u64);
        row.append("):\n");
        push_line(&mut out, row.as_str());
        let ghost head = out@;
        let mut i: usize = 0;
        while i < tools.len()
            invariant
                i <= tools@.len(),
                out@ == head + all_tool_rows(tools@.take(i as int)),
            decreases tools@.len() - i,
        {
            push_tool_rows(&mut out, &tools[i]);
            proof {
                let t = tools@.take(i + 1);
                assert(t.drop_last() =~= tools@.take(i as int));
                assert(t.last() == tools@[i as int]);
                assert(out@ =~= head + all_tool_rows(t));
            }
            i = i + 1;
        }
        proof {
            assert(tools@.take(tools@.len() as int) =~= tools@);
        }
    }
    push_line(&mut out, "");
    proof {
        assert(out@ =~= tools_spec(tools@));
    }
    out
}

/// The rows of one listed snapshot: its name and session; its turns and
/// when it was saved.
pub open spec fn snapshot_rows(s: SnapshotInfo) -> Seq<char> {
    ln("  \x1b[1m"@ + s.name@ + "\x1b[0m  ("@ + s.session_id@ + ")"@) + ln(
        "    "@ + decimal(s.turn_count as nat) + " turns, saved "@ + s.created_at@,
    )
}

/// The rows of all listed snapshots, in order.
pub open spec fn all_snapshot_rows(snapshots: Seq<SnapshotInfo>) -> Seq<char>
    decreases snapshots.len(),
{
    if snapshots.len() == 0 {
        Seq::empty()
    } else {
        all_snapshot_rows(snapshots.drop_last()) + snapshot_rows(snapshots.last())
    }
}

/// The `snapshots` command's report.
pub open spec fn snapshots_spec(snapshots: Seq<SnapshotInfo>) -> Seq<char> {
    ln(""@) + if snapshots.len() == 0 {
        ln("  (no snapshots saved)"@)
    } else {
        ln("  \x1b[1mSnapshots\x1b[0m ("@ + decimal(snapshots.len()) + "):\n"@) + all_snapshot_rows(snapshots)
    } + ln(""@)
}

/// Writes the `snapshots` command's report.
pub fn snapshots_text(snapshots: &Vec<SnapshotInfo>) -> (r: String)
    ensures
        r@ == snapshots_spec(snapshots@),
{
    let mut out = String::new();
    push_line(&mut out, "");
    if snapshots.len() == 0 {
        push_line(&mut out, "  (no snapshots saved)");
    } else {
        let mut row = String::from_str("  \x1b[1mSnapshots\x1b[0m (");
        push_decimal(&mut row, snapshots.len() as u64);
        row.append("):\n");
        push_line(&mut out, row.as_str());
        let ghost head = out@;
        let mut i: usize = 0;
        while i < snapshots.len()
            invariant
                i <= snapshots@.len(),
                out@ == head + all_snapshot_rows(snapshots@.take(i as int)),
            decreases snapshots@.len() - i,
        {
            let s = &snapshots[i];
            let mut row = String::from_str("  \x1b[1m");
            row.append(s.name.as_str());
            row.append("\x1b[0m  (");
            row.append(s.session_id.as_str());
            row.append(")");
            push_line(&mut out, row.as_str());
            let mut row = String::from_str("    ");
            push_decimal(&mut row, s.turn_count as u64);
            row.append(" turns, saved ");
            row.append(s.created_at.as_str());
            push_line(&mut out, row.as_str());
            proof {
                let t = snapshots@.take(i + 1);
                assert(t.drop_last() =~= snapshots@.take(i as int));
                assert(t.last() == snapshots@[i as int]);
                assert(out@ =~= head + all_snapshot_rows(t));
            }
            i = i + 1;
        }
        proof {
            assert(snapshots@.take(snapshots@.len() as int) =~= snapshots@);
        }
    }
    push_line(&mut out, "");
    proof {
        assert(out@ =~= snapshots_spec(snapshots@));
    }
    out
}

/// What `reset` prints.
pub const SESSION_RESET_TEXT: &'static str = "\n✅ New session created\n";

/// What `snapshot` without a name prints.
pub const SNAPSHOT_USAGE_TEXT: &'static str = "  Usage: snapshot <name>\n";

/// What `compact` prints when it ran: whether the history was summarised.
pub open spec fn compaction_spec(compressed: bool) -> Seq<char> {
    if compressed {
        "\n✅ Session compressed (history summarised, recent messages kept)\n"@
    } else {
        "\n✅ Session is below threshold — no compression needed\n"@
    }
}

/// Writes what `compact` prints when it ran.
pub fn compaction_text(compressed: bool) -> (r: &'static str)
    ensures
        r@ == compaction_spec(compressed),
{
    if compressed {
        "\n✅ Session compressed (history summarised, recent messages kept)\n"
    } else {
        "\n✅ Session is below threshold — no compression needed\n"
    }
}

/// Writes what `compact` prints when it failed with `error`.
pub fn compaction_failed_text(error: &str) -> (r: String)
    ensures
        r@ == "\n❌ Compression failed: "@ + error@ + "\n"@,
{
    let mut r = String::from_str("\n❌ Compression failed: ");
    r.append(error);
    r.append("\n");
    r
}

/// Writes what `snapshot <name>` prints once the snapshot is saved.
pub fn snapshot_saved_text(name: &str) -> (r: String)
    ensures
        r@ == "\n✅ Snapshot '"@ + name@ + "' saved\n\n"@,
{
    let mut r = String::from_str("\n✅ Snapshot '");
    r.append(name);
    r.append("' saved\n\n");
    r
}

/// Writes what `snapshot <name>` prints (on standard error) when saving fails.
pub fn snapshot_save_failed_text(error: &str) -> (r: String)
    ensures
        r@ == "\n  Failed to save snapshot: "@ + error@ + "\n\n"@,
{
    let mut r = String::from_str("\n  Failed to save snapshot: ");
    r.append(error);
    r.append("\n\n");
    r
}

/// Writes what `snapshots` prints (on standard error) when listing fails.
pub fn snapshot_list_failed_text(error: &str) -> (r: String)
    ensures
        r@ == "  Failed to list snapshots: "@ + error@ + "\n"@,
{
    let mut r = String::from_str("  Failed to list snapshots: ");
    r.append(error);
    r.append("\n");
    r
}

/// Writes what a failed turn prints (on standard error).
pub fn turn_error_text(error: &str) -> (r: String)
    ensures
        r@ == "\n❌ Error: "@ + error@ + "\n"@,
{
    let mut r = String::from_str("\n❌ Error: ");
    r.append(error);
    r.append("\n");
    r
}

/// The line that a one-shot query in JSON mode ends with: type
/// `session_info`, the session id and whether the session is new.
pub open spec fn session_info_spec(session_id: Seq<char>, is_new: bool) -> Option<Seq<char>> {
    set_flag(
        set_field(set_field(Some("{}"@), "type"@, "session_info"@), "session_id"@, session_id),
        "is_new_session"@,
        is_new,
    )
}

/// Writes the line that a one-shot query in JSON mode ends with.
pub fn session_info_line(session_id: &str, is_new: bool) -> (r: Result<String, AgentError>)
    ensures
        match session_info_spec(session_id@, is_new) {
            Some(t) => r matches Ok(s) && s@ == t,
            None => r matches Err(AgentError::Internal(m)) && m@ == "JSON document could not be built"@,
        },
{
    let t = set_text_field(Some("{}".to_string()), "type", "session_info");
    let t = set_text_field(t, "session_id", session_id);
    let t = set_flag_field(t, "is_new_session", is_new);
    match t {
        Some(text) => Ok(text),
        None => Err(AgentError::Internal("JSON document could not be built".to_string())),
    }
}

} // verus!
