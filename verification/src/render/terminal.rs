//! Rich terminal rendering: colors, emoji, per-turn summaries.
use vstd::prelude::*;
use vstd::string::StringExecFns;

use crate::event::{
    event_agent_id, risk_name, root_reply, started_calls, PlanItem, PlanStepStatus, RuntimeEvent,
};
use crate::text::{decimal, push_decimal, truncate_with, truncated};

verus! {

broadcast use vstd::string::group_string_axioms;

/// The state of a [`TerminalRenderer`].
pub struct TerminalState {
    /// Whether the model's reasoning is shown.
    pub show_thinking: bool,
    /// Whether tool arguments are shown.
    pub show_tool_args: bool,
    /// Whether ANSI colors are used.
    pub color: bool,
    /// Tool calls started in the current turn.
    pub tool_call_count: u32,
    /// Reply text of the root agent in the current turn.
    pub assistant_text: Seq<char>,
    /// Whether the last shown fragment was reasoning.
    pub last_was_thought: bool,
    /// Whether an event has come since the renderer was made or the last
    /// turn ended: only then has the current turn a duration.
    pub turn_started: bool,
}

/// Rich terminal renderer: streams replies, shows tool calls with icons, and
/// summarises each turn with its duration and tool-call count.
pub struct TerminalRenderer {
    show_thinking: bool,
    show_tool_args: bool,
    color: bool,
    tool_call_count: u32,
    last_assistant_text: String,
    last_was_thought: bool,
    turn_started: bool,
}

impl View for TerminalRenderer {
    type V = TerminalState;

    closed spec fn view(&self) -> TerminalState {
        TerminalState {
            show_thinking: self.show_thinking,
            show_tool_args: self.show_tool_args,
            color: self.color,
            tool_call_count: self.tool_call_count,
            assistant_text: self.last_assistant_text@,
            last_was_thought: self.last_was_thought,
            turn_started: self.turn_started,
        }
    }
}

/// ANSI reset sequence.
pub open spec fn reset_code() -> Seq<char> {
    "\x1b[0m"@
}

/// `s` wrapped in the ANSI sequence `code` and a reset, when colors are on.
pub open spec fn paint(color: bool, code: Seq<char>, s: Seq<char>) -> Seq<char> {
    if color {
        code + s + reset_code()
    } else {
        s
    }
}

/// Green text.
pub open spec fn green_text(color: bool, s: Seq<char>) -> Seq<char> {
    paint(color, "\x1b[32m"@, s)
}

/// Dimmed text.
pub open spec fn dim_text(color: bool, s: Seq<char>) -> Seq<char> {
    paint(color, "\x1b[2m"@, s)
}

/// Bold text.
pub open spec fn bold_text(color: bool, s: Seq<char>) -> Seq<char> {
    paint(color, "\x1b[1m"@, s)
}

/// Yellow text.
pub open spec fn yellow_text(color: bool, s: Seq<char>) -> Seq<char> {
    paint(color, "\x1b[33m"@, s)
}

/// Grey text.
pub open spec fn subtle_text(color: bool, s: Seq<char>) -> Seq<char> {
    paint(color, "\x1b[90m"@, s)
}

/// `s` followed by a newline.
pub open spec fn line(s: Seq<char>) -> Seq<char> {
    s + "\n"@
}

/// The `[agent/path]` label of a sub-agent event; `None` for the root agent.
pub open spec fn agent_label(color: bool, e: RuntimeEvent) -> Option<Seq<char>> {
    match event_agent_id(e) {
        Some(id) => Some(subtle_text(color, "["@ + id@ + "]"@)),
        None => None,
    }
}

/// `body`, preceded by the label and a space when there is one.
pub open spec fn labelled(label: Option<Seq<char>>, body: Seq<char>) -> Seq<char> {
    match label {
        Some(l) => l + " "@ + body,
        None => body,
    }
}

/// The icon of a plan step status.
pub open spec fn status_icon(s: PlanStepStatus) -> Seq<char> {
    match s {
        PlanStepStatus::Completed => "\u{2705}"@,
        PlanStepStatus::InProgress => "\u{1F504}"@,
        PlanStepStatus::Pending => "\u{23F3}"@,
    }
}

/// One line per plan step.
pub open spec fn plan_lines(plan: Seq<PlanItem>) -> Seq<char>
    decreases plan.len(),
{
    if plan.len() == 0 {
        Seq::empty()
    } else {
        plan_lines(plan.drop_last()) + line("   "@ + status_icon(plan.last().status) + " "@ + plan.last().step@)
    }
}

/// What the renderer writes for event `e` in state `st`.
pub open spec fn terminal_output(st: TerminalState, e: RuntimeEvent) -> Seq<char> {
    let label = agent_label(st.color, e);
    match e {
        RuntimeEvent::ThoughtDelta { text, .. } => {
            if st.show_thinking {
                labelled(label, dim_text(st.color, text@))
            } else {
                Seq::empty()
            }
        },
        RuntimeEvent::TextDelta { text, .. } => (if st.last_was_thought {
            "\n"@
        } else {
            Seq::empty()
        }) + labelled(label, text@),
        RuntimeEvent::ToolCallStarted { tool_name, args_json, .. } => line(
            "\n"@ + labelled(label, bold_text(st.color, "\u{1F527}"@)) + " "@ + green_text(
                st.color,
                tool_name@,
            ) + (if st.show_tool_args {
                " "@ + dim_text(st.color, args_json@)
            } else {
                Seq::empty()
            }),
        ),
        RuntimeEvent::ToolCallFinished { summary, .. } => line(
            (match label {
                Some(l) => l,
                None => Seq::empty(),
            }) + "   "@ + dim_text(st.color, "\u{2192}"@) + " "@ + dim_text(
                st.color,
                truncated(summary@, 500, "..."@),
            ),
        ) + "\n"@,
        RuntimeEvent::AwaitingApproval { request, .. } => line(
            "\n\u{26A0}\u{FE0F}  "@ + request.title@ + " ["@ + risk_name(request.risk_level)
                + "] \u{2014} "@ + request.message@,
        ),
        RuntimeEvent::PlanUpdated { explanation, plan, .. } => line(
            "\n\u{1F4CB} "@ + bold_text(st.color, "Plan Update"@),
        ) + line(
            "   "@ + dim_text(
                st.color,
                match explanation {
                    Some(x) => x@,
                    None => Seq::empty(),
                },
            ),
        ) + plan_lines(plan@) + "\n"@,
        RuntimeEvent::RunCancelled { .. } => match label {
            Some(l) => line(l + " "@ + yellow_text(st.color, "\u{26A0}"@) + " Cancelled"@),
            None => line("\n"@ + yellow_text(st.color, "\u{26A0}"@) + " Cancelled"@),
        },
        _ => Seq::empty(),
    }
}

/// The renderer's state after event `e`: the turn has started, and the
/// event updates the reply, the tool-call count and the reasoning mark.
pub open spec fn terminal_next(st: TerminalState, e: RuntimeEvent) -> TerminalState {
    let st = TerminalState { turn_started: true, ..st };
    match e {
        RuntimeEvent::ThoughtDelta { .. } => TerminalState { last_was_thought: true, ..st },
        RuntimeEvent::TextDelta { text, agent_id, .. } => TerminalState {
            last_was_thought: false,
            assistant_text: if agent_id is None {
                st.assistant_text + text@
            } else {
                st.assistant_text
            },
            ..st
        },
        RuntimeEvent::ToolCallStarted { .. } => TerminalState {
            last_was_thought: false,
            tool_call_count: (st.tool_call_count + 1) as u32,
            ..st
        },
        _ => st,
    }
}

/// The elapsed time of a turn: milliseconds under a second, otherwise
/// `seconds` (the duration in seconds with one decimal) followed by `s`.
pub open spec fn duration_text(duration_ms: u64, seconds: Seq<char>) -> Seq<char> {
    if duration_ms >= 1000 {
        seconds + "s"@
    } else {
        decimal(duration_ms as nat) + "ms"@
    }
}

/// The duration that a turn reports: the measured one once an event has
/// started the turn, 0 for a turn in which nothing happened.
pub open spec fn reported_duration(st: TerminalState, duration_ms: u64) -> u64 {
    if st.turn_started {
        duration_ms
    } else {
        0
    }
}

/// The summary written at the end of a turn measured at `duration_ms`.
pub open spec fn turn_summary(st: TerminalState, duration_ms: u64, seconds: Seq<char>) -> Seq<char> {
    "\n"@ + subtle_text(
        st.color,
        "\u{00B7} "@ + duration_text(reported_duration(st, duration_ms), seconds) + " elapsed \u{00B7} "@ + decimal(
            st.tool_call_count as nat,
        ) + " tool call(s)"@,
    ) + "\n"@
}

impl TerminalRenderer {
    /// A renderer with the given display options and an empty turn.
    pub fn new(show_thinking: bool, show_tool_args: bool, color: bool) -> (r: Self)
        ensures
            r@ == (TerminalState {
                show_thinking,
                show_tool_args,
                color,
                tool_call_count: 0,
                assistant_text: Seq::empty(),
                last_was_thought: false,
                turn_started: false,
            }),
    {
        TerminalRenderer {
            show_thinking,
            show_tool_args,
            color,
            tool_call_count: 0,
            last_assistant_text: String::new(),
            last_was_thought: false,
            turn_started: false,
        }
    }

    fn paint(&self, code: &str, s: &str) -> (r: String)
        ensures
            r@ == paint(self.color, code@, s@),
    {
        if self.color {
            let mut r = String::from_str(code);
            r.append(s);
            r.append("\x1b[0m");
            r
        } else {
            String::from_str(s)
        }
    }

    /// Green text.
    pub fn green(&self, s: &str) -> (r: String)
        ensures
            r@ == green_text(self@.color, s@),
    {
        self.paint("\x1b[32m", s)
    }

    /// Dimmed text.
    pub fn dim(&self, s: &str) -> (r: String)
        ensures
            r@ == dim_text(self@.color, s@),
    {
        self.paint("\x1b[2m", s)
    }

    /// Bold text.
    pub fn bold(&self, s: &str) -> (r: String)
        ensures
            r@ == bold_text(self@.color, s@),
    {
        self.paint("\x1b[1m", s)
    }

    /// Yellow text.
    pub fn yellow(&self, s: &str) -> (r: String)
        ensures
            r@ == yellow_text(self@.color, s@),
    {
        self.paint("\x1b[33m", s)
    }

    /// Grey text.
    pub fn subtle(&self, s: &str) -> (r: String)
        ensures
            r@ == subtle_text(self@.color, s@),
    {
        self.paint("\x1b[90m", s)
    }

    fn label(&self, event: &RuntimeEvent) -> (r: Option<String>)
        ensures
            match r {
                Some(l) => agent_label(self@.color, *event) == Some(l@),
                None => agent_label(self@.color, *event) is None,
            },
    {
        match event.agent_id() {
            Some(id) => {
                let mut t = String::from_str("[");
                t.append(id.as_str());
                t.append("]");
                Some(self.subtle(t.as_str()))
            },
            None => None,
        }
    }

    fn push_labelled(out: &mut String, label: &Option<String>, body: &str)
        ensures
            final(out)@ == old(out)@ + labelled(
                match label {
                    Some(l) => Some(l@),
                    None => None,
                },
                body@,
            ),
    {
        match label {
            Some(l) => {
                out.append(l.as_str());
                out.append(" ");
            },
            None => {},
        }
        out.append(body);
        proof {
            assert(final(out)@ =~= old(out)@ + labelled(
                match label {
                    Some(l) => Some(l@),
                    None => None,
                },
                body@,
            ));
        }
    }

    fn push_plan(&self, out: &mut String, plan: &Vec<PlanItem>)
        ensures
            final(out)@ == old(out)@ + plan_lines(plan@),
    {
        let mut i: usize = 0;
        while i < plan.len()
            invariant
                i <= plan.len(),
                out@ == old(out)@ + plan_lines(plan@.take(i as int)),
            decreases plan.len() - i,
        {
            let ghost before = out@;
            out.append("   ");
            let icon = match plan[i].status {
                PlanStepStatus::Completed => "\u{2705}",
                PlanStepStatus::InProgress => "\u{1F504}",
                PlanStepStatus::Pending => "\u{23F3}",
            };
            out.append(icon);
            out.append(" ");
            out.append(plan[i].step.as_str());
            out.append("\n");
            proof {
                let t = plan@.take(i + 1);
                assert(t.drop_last() =~= plan@.take(i as int));
                assert(t.last() == plan@[i as int]);
                assert(out@ =~= before + line(
                    "   "@ + status_icon(plan@[i as int].status) + " "@ + plan@[i as int].step@,
                ));
            }
            i = i + 1;
        }
        proof {
            assert(plan@.take(plan@.len() as int) =~= plan@);
        }
    }

    /// Tool calls started in the current turn.
    pub fn tool_call_count(&self) -> (n: u32)
        ensures
            n == self@.tool_call_count,
    {
        self.tool_call_count
    }

    /// Whether an event has started the current turn.
    pub fn turn_started(&self) -> (b: bool)
        ensures
            b == self@.turn_started,
    {
        self.turn_started
    }

    /// Renders one event: returns the text to write and updates the turn state.
    pub fn render(&mut self, event: &RuntimeEvent) -> (out: String)
        requires
            event is ToolCallStarted ==> old(self)@.tool_call_count < u32::MAX,
        ensures
            out@ == terminal_output(old(self)@, *event),
            final(self)@ == terminal_next(old(self)@, *event),
    {
        self.turn_started = true;
        let label = self.label(event);
        let ghost st = self@;
        let mut out = String::new();
        match event {
            RuntimeEvent::ThoughtDelta { text, .. } => {
                if self.show_thinking {
                    let d = self.dim(text.as_str());
                    Self::push_labelled(&mut out, &label, d.as_str());
                }
                self.last_was_thought = true;
                assert(out@ =~= terminal_output(st, *event));
            },
            RuntimeEvent::TextDelta { text, agent_id, .. } => {
                if self.last_was_thought {
                    out.append("\n");
                    self.last_was_thought = false;
                }
                if agent_id.is_none() {
                    self.last_assistant_text.append(text.as_str());
                }
                Self::push_labelled(&mut out, &label, text.as_str());
                assert(out@ =~= terminal_output(st, *event));
            },
            RuntimeEvent::ToolCallStarted { tool_name, args_json, .. } => {
                self.last_was_thought = false;
                self.tool_call_count = self.tool_call_count + 1;
                out.append("\n");
                let wrench = self.bold("\u{1F527}");
                Self::push_labelled(&mut out, &label, wrench.as_str());
                out.append(" ");
                out.append(self.green(tool_name.as_str()).as_str());
                if self.show_tool_args {
                    out.append(" ");
                    out.append(self.dim(args_json.as_str()).as_str());
                }
                out.append("\n");
                assert(out@ =~= terminal_output(st, *event));
            },
            RuntimeEvent::ToolCallFinished { summary, .. } => {
                let short = truncate_with(summary.as_str(), 500, "...");
                match &label {
                    Some(l) => out.append(l.as_str()),
                    None => {},
                }
                out.append("   ");
                out.append(self.dim("\u{2192}").as_str());
                out.append(" ");
                out.append(self.dim(short.as_str()).as_str());
                out.append("\n");
                out.append("\n");
                assert(out@ =~= terminal_output(st, *event));
            },
            RuntimeEvent::AwaitingApproval { request, .. } => {
                out.append("\n\u{26A0}\u{FE0F}  ");
                out.append(request.title.as_str());
                out.append(" [");
                out.append(request.risk_level.name());
                out.append("] \u{2014} ");
                out.append(request.message.as_str());
                out.append("\n");
                assert(out@ =~= terminal_output(st, *event));
            },
            RuntimeEvent::PlanUpdated { explanation, plan, .. } => {
                out.append("\n\u{1F4CB} ");
                out.append(self.bold("Plan Update").as_str());
                out.append("\n");
                out.append("   ");
                let expl = match explanation {
                    Some(x) => self.dim(x.as_str()),
                    None => {
                        proof {
                            reveal_strlit("");
                        }
                        self.dim("")
                    },
                };
                out.append(expl.as_str());
                out.append("\n");
                self.push_plan(&mut out, plan);
                out.append("\n");
                assert(out@ =~= terminal_output(st, *event));
            },
            RuntimeEvent::RunCancelled { .. } => {
                match &label {
                    Some(l) => {
                        out.append(l.as_str());
                        out.append(" ");
                    },
                    None => {
                        out.append("\n");
                    },
                }
                out.append(self.yellow("\u{26A0}").as_str());
                out.append(" Cancelled");
                out.append("\n");
                assert(out@ =~= terminal_output(st, *event));
            },
            _ => {},
        }
        proof {
            assert(out@ =~= terminal_output(old(self)@, *event));
            assert(self@ == terminal_next(old(self)@, *event));
        }
        out
    }

    /// Ends the turn: returns the summary line and resets the turn state.
    /// `duration_ms` is the time since the turn's first event and `seconds`
    /// the same in seconds with one decimal, shown for turns of a second or
    /// more; a turn without events reports 0 ms.
    pub fn finish_turn(&mut self, duration_ms: u64, seconds: &str) -> (out: String)
        ensures
            out@ == turn_summary(old(self)@, duration_ms, seconds@),
            final(self)@ == finished_terminal(old(self)@),
    {
        let duration_ms: u64 = if self.turn_started {
            duration_ms
        } else {
            0
        };
        let mut body = String::from_str("\u{00B7} ");
        if duration_ms >= 1000 {
            body.append(seconds);
            body.append("s");
        } else {
            push_decimal(&mut body, duration_ms);
            body.append("ms");
        }
        body.append(" elapsed \u{00B7} ");
        push_decimal(&mut body, self.tool_call_count as u64);
        body.append(" tool call(s)");
        let mut out = String::from_str("\n");
        out.append(self.subtle(body.as_str()).as_str());
        out.append("\n");
        self.tool_call_count = 0;
        self.last_assistant_text = String::new();
        self.last_was_thought = false;
        self.turn_started = false;
        proof {
            assert(out@ =~= turn_summary(old(self)@, duration_ms, seconds@));
        }
        out
    }
}

/// The renderer's state after a turn ends: counters, reply and turn start
/// cleared, display options kept.
pub open spec fn finished_terminal(st: TerminalState) -> TerminalState {
    TerminalState {
        tool_call_count: 0,
        assistant_text: Seq::empty(),
        last_was_thought: false,
        turn_started: false,
        ..st
    }
}

/// The renderer's state after `events`, one after another.
pub open spec fn terminal_after(st: TerminalState, events: Seq<RuntimeEvent>) -> TerminalState
    decreases events.len(),
{
    if events.len() == 0 {
        st
    } else {
        terminal_next(terminal_after(st, events.drop_last()), events.last())
    }
}

/// Over a turn, the terminal renderer counts exactly the tool calls started
/// and keeps exactly the root agent's reply; its display options never
/// change; any event starts the turn.
pub proof fn law_terminal_turn_state(st: TerminalState, events: Seq<RuntimeEvent>)
    requires
        st.tool_call_count + started_calls(events) <= u32::MAX,
    ensures
        terminal_after(st, events).tool_call_count == st.tool_call_count + started_calls(events),
        terminal_after(st, events).assistant_text == st.assistant_text + root_reply(events),
        terminal_after(st, events).show_thinking == st.show_thinking,
        terminal_after(st, events).show_tool_args == st.show_tool_args,
        terminal_after(st, events).color == st.color,
        events.len() > 0 ==> terminal_after(st, events).turn_started,
    decreases events.len(),
{
    if events.len() > 0 {
        law_terminal_turn_state(st, events.drop_last());
        let prev = terminal_after(st, events.drop_last());
        assert(st.assistant_text + root_reply(events) =~= prev.assistant_text + match events.last() {
            RuntimeEvent::TextDelta { text, agent_id: None, .. } => text@,
            _ => Seq::empty(),
        });
    }
}

/// Ending a turn resets it: a second summary with no event in between
/// reports 0 ms and 0 tool calls, whatever time is passed in.
pub proof fn law_terminal_idle_turn_reports_zero(st: TerminalState, duration_ms: u64, seconds: Seq<char>)
    ensures
        turn_summary(finished_terminal(st), duration_ms, seconds) == "\n"@ + subtle_text(
            st.color,
            "\u{00B7} "@ + seq!['0'] + "ms"@ + " elapsed \u{00B7} "@ + seq!['0'] + " tool call(s)"@,
        ) + "\n"@,
{
    assert(decimal(0) =~= seq!['0']);
}

/// An approval prompt names the request's risk level by its own variant
/// name (`Safe`, `Sensitive` or `Destructive`) between the title and the
/// message, whatever the display options.
pub proof fn law_approval_prompt_names_the_risk(st: TerminalState, e: RuntimeEvent)
    requires
        e is AwaitingApproval,
    ensures
        terminal_output(st, e) == "\n\u{26A0}\u{FE0F}  "@ + e->AwaitingApproval_request.title@ + " ["@
            + match e->AwaitingApproval_request.risk_level {
            crate::event::RiskLevel::Safe => "Safe"@,
            crate::event::RiskLevel::Sensitive => "Sensitive"@,
            crate::event::RiskLevel::Destructive => "Destructive"@,
        } + "] \u{2014} "@ + e->AwaitingApproval_request.message@ + "\n"@,
{
}

} // verus!
