//! What the JSON line of an event holds: its `type` tag and its fields, as
//! the JSON stream renderer writes it and as the turn log records it. The
//! caller serialises a line; the choice of keys and values is made here.
use vstd::prelude::*;

use crate::error::AgentError;
use crate::json::{json_parse_error, json_parses, set_field, set_number, set_number_field, set_text_field};
use crate::event::{event_agent_id, ApprovalRequest, PlanItem, RiskLevel, RuntimeEvent, UserEvent};

verus! {

/// The `type` tag of a line.
#[derive(Clone, Copy, Debug, PartialEq, Eq, Structural)]
pub enum LineKind {
    /// `thought_delta`
    ThoughtDelta,
    /// `text_delta`
    TextDelta,
    /// `tool_call_started`
    ToolCallStarted,
    /// `tool_call_finished`
    ToolCallFinished,
    /// `approval_request`
    ApprovalRequest,
    /// `plan_updated`
    PlanUpdated,
    /// `user_event`
    UserEvent,
    /// `other`
    Other,
    /// `run_cancelled`
    RunCancelled,
    /// `run_finished`
    RunFinished,
    /// `checkpoint`
    Checkpoint,
}

/// The text of a `type` tag.
pub open spec fn kind_tag(k: LineKind) -> Seq<char> {
    match k {
        LineKind::ThoughtDelta => "thought_delta"@,
        LineKind::TextDelta => "text_delta"@,
        LineKind::ToolCallStarted => "tool_call_started"@,
        LineKind::ToolCallFinished => "tool_call_finished"@,
        LineKind::ApprovalRequest => "approval_request"@,
        LineKind::PlanUpdated => "plan_updated"@,
        LineKind::UserEvent => "user_event"@,
        LineKind::Other => "other"@,
        LineKind::RunCancelled => "run_cancelled"@,
        LineKind::RunFinished => "run_finished"@,
        LineKind::Checkpoint => "checkpoint"@,
    }
}

impl LineKind {
    /// The text of this `type` tag.
    pub fn tag(&self) -> (s: &'static str)
        ensures
            s@ == kind_tag(*self),
    {
        match self {
            LineKind::ThoughtDelta => "thought_delta",
            LineKind::TextDelta => "text_delta",
            LineKind::ToolCallStarted => "tool_call_started",
            LineKind::ToolCallFinished => "tool_call_finished",
            LineKind::ApprovalRequest => "approval_request",
            LineKind::PlanUpdated => "plan_updated",
            LineKind::UserEvent => "user_event",
            LineKind::Other => "other",
            LineKind::RunCancelled => "run_cancelled",
            LineKind::RunFinished => "run_finished",
            LineKind::Checkpoint => "checkpoint",
        }
    }
}

/// The fields of a line besides `type` and `agent_id`.
pub enum LineBody {
    /// `text`.
    Text { text: String },
    /// `tool`, and `args`: the arguments' JSON text, or `None` (JSON `null`)
    /// when that text is not JSON.
    ToolStarted { tool: String, args: Option<String> },
    /// `tool`, `summary`, and `denied` when the line records it.
    ToolFinished { tool: String, summary: String, denied: Option<bool> },
    /// `title`, `message`, and `risk` when the line records it.
    Approval { title: String, message: String, risk: Option<RiskLevel> },
    /// `explanation` and `plan`.
    Plan { explanation: Option<String>, plan: Vec<PlanItem> },
    /// `event_type`, and `data` (JSON text).
    UserEvent { event_type: String, data: String },
    /// No other field.
    Bare,
}

/// One JSON line describing an event.
pub struct EventLine {
    /// The `type` tag.
    pub kind: LineKind,
    /// The other fields.
    pub body: LineBody,
    /// `agent_id`, present for the events of sub-agents.
    pub agent_id: Option<String>,
}

/// What a line body says, with the plan as a sequence.
pub enum BodyView {
    /// `text`.
    Text { text: String },
    /// `tool` and `args`.
    ToolStarted { tool: String, args: Option<String> },
    /// `tool`, `summary`, `denied`.
    ToolFinished { tool: String, summary: String, denied: Option<bool> },
    /// `title`, `message`, `risk`.
    Approval { title: String, message: String, risk: Option<RiskLevel> },
    /// `explanation` and `plan`.
    Plan { explanation: Option<String>, plan: Seq<PlanItem> },
    /// `event_type` and `data`.
    UserEvent { event_type: String, data: String },
    /// No other field.
    Bare,
}

/// What a line says.
pub struct LineView {
    /// The `type` tag.
    pub kind: LineKind,
    /// The other fields.
    pub body: BodyView,
    /// `agent_id`.
    pub agent_id: Option<String>,
}

impl View for LineBody {
    type V = BodyView;

    open spec fn view(&self) -> BodyView {
        match *self {
            LineBody::Text { text } => BodyView::Text { text },
            LineBody::ToolStarted { tool, args } => BodyView::ToolStarted { tool, args },
            LineBody::ToolFinished { tool, summary, denied } => BodyView::ToolFinished { tool, summary, denied },
            LineBody::Approval { title, message, risk } => BodyView::Approval { title, message, risk },
            LineBody::Plan { explanation, plan } => BodyView::Plan { explanation, plan: plan@ },
            LineBody::UserEvent { event_type, data } => BodyView::UserEvent { event_type, data },
            LineBody::Bare => BodyView::Bare,
        }
    }
}

impl View for EventLine {
    type V = LineView;

    open spec fn view(&self) -> LineView {
        LineView { kind: self.kind, body: self.body@, agent_id: self.agent_id }
    }
}

/// What an optional line says.
pub open spec fn line_view(l: Option<EventLine>) -> Option<LineView> {
    match l {
        Some(x) => Some(x@),
        None => None,
    }
}

/// The `args` field of a tool call line for arguments `args_json`.
pub open spec fn args_field(args_json: String) -> Option<String> {
    if json_parses(args_json@) {
        Some(args_json)
    } else {
        None
    }
}

/// The line that the JSON stream writes for `e`, or `None` when it writes
/// none (progress events, checkpoints and run completion).
pub open spec fn stream_line_spec(e: RuntimeEvent) -> Option<LineView> {
    let agent_id = event_agent_id(e);
    match e {
        RuntimeEvent::ThoughtDelta { text, .. } => Some(
            LineView { kind: LineKind::ThoughtDelta, body: BodyView::Text { text }, agent_id },
        ),
        RuntimeEvent::TextDelta { text, .. } => Some(
            LineView { kind: LineKind::TextDelta, body: BodyView::Text { text }, agent_id },
        ),
        RuntimeEvent::ToolCallStarted { tool_name, args_json, .. } => Some(
            LineView {
                kind: LineKind::ToolCallStarted,
                body: BodyView::ToolStarted { tool: tool_name, args: args_field(args_json) },
                agent_id,
            },
        ),
        RuntimeEvent::ToolCallFinished { tool_name, summary, .. } => Some(
            LineView {
                kind: LineKind::ToolCallFinished,
                body: BodyView::ToolFinished { tool: tool_name, summary, denied: None },
                agent_id,
            },
        ),
        RuntimeEvent::AwaitingApproval { request, .. } => Some(
            LineView {
                kind: LineKind::ApprovalRequest,
                body: BodyView::Approval {
                    title: request.title,
                    message: request.message,
                    risk: Some(request.risk_level),
                },
                agent_id,
            },
        ),
        RuntimeEvent::PlanUpdated { explanation, plan, .. } => Some(
            LineView { kind: LineKind::PlanUpdated, body: BodyView::Plan { explanation, plan: plan@ }, agent_id },
        ),
        RuntimeEvent::UserEvent { event: UserEvent::Structured { event_type, data }, .. } => Some(
            LineView { kind: LineKind::UserEvent, body: BodyView::UserEvent { event_type, data }, agent_id },
        ),
        RuntimeEvent::RunCancelled { .. } => Some(
            LineView { kind: LineKind::RunCancelled, body: BodyView::Bare, agent_id },
        ),
        _ => None,
    }
}

/// The line that the turn log records for `e`: every event has one.
pub open spec fn log_line_spec(e: RuntimeEvent) -> LineView {
    let agent_id = event_agent_id(e);
    match e {
        RuntimeEvent::ThoughtDelta { text, .. } => LineView {
            kind: LineKind::ThoughtDelta,
            body: BodyView::Text { text },
            agent_id,
        },
        RuntimeEvent::TextDelta { text, .. } => LineView {
            kind: LineKind::TextDelta,
            body: BodyView::Text { text },
            agent_id,
        },
        RuntimeEvent::ToolCallStarted { tool_name, args_json, .. } => LineView {
            kind: LineKind::ToolCallStarted,
            body: BodyView::ToolStarted { tool: tool_name, args: args_field(args_json) },
            agent_id,
        },
        RuntimeEvent::ToolCallFinished { tool_name, summary, denied, .. } => LineView {
            kind: LineKind::ToolCallFinished,
            body: BodyView::ToolFinished { tool: tool_name, summary, denied: Some(denied) },
            agent_id,
        },
        RuntimeEvent::AwaitingApproval { request, .. } => LineView {
            kind: LineKind::ApprovalRequest,
            body: BodyView::Approval { title: request.title, message: request.message, risk: None },
            agent_id,
        },
        RuntimeEvent::PlanUpdated { explanation, plan, .. } => LineView {
            kind: LineKind::PlanUpdated,
            body: BodyView::Plan { explanation, plan: plan@ },
            agent_id,
        },
        RuntimeEvent::UserEvent { event: UserEvent::Structured { event_type, data }, .. } => LineView {
            kind: LineKind::UserEvent,
            body: BodyView::UserEvent { event_type, data },
            agent_id,
        },
        RuntimeEvent::UserEvent { .. } => LineView { kind: LineKind::Other, body: BodyView::Bare, agent_id },
        RuntimeEvent::RunCancelled { .. } => LineView {
            kind: LineKind::RunCancelled,
            body: BodyView::Bare,
            agent_id,
        },
        RuntimeEvent::RunFinished { .. } => LineView {
            kind: LineKind::RunFinished,
            body: BodyView::Bare,
            agent_id,
        },
        RuntimeEvent::Checkpoint { .. } => LineView {
            kind: LineKind::Checkpoint,
            body: BodyView::Bare,
            agent_id,
        },
    }
}

fn copy_text(s: &String) -> (r: String)
    ensures
        r == *s,
{
    s.clone()
}

fn copy_optional_text(s: &Option<String>) -> (r: Option<String>)
    ensures
        r == *s,
{
    match s {
        Some(x) => Some(x.clone()),
        None => None,
    }
}

fn copy_plan(plan: &Vec<PlanItem>) -> (r: Vec<PlanItem>)
    ensures
        r@ == plan@,
{
    let mut r: Vec<PlanItem> = Vec::new();
    let mut i: usize = 0;
    while i < plan.len()
        invariant
            i <= plan@.len(),
            r@ == plan@.take(i as int),
        decreases plan@.len() - i,
    {
        r.push(PlanItem { step: plan[i].step.clone(), status: plan[i].status });
        proof {
            assert(plan@.take(i + 1) =~= plan@.take(i as int).push(plan@[i as int]));
        }
        i = i + 1;
    }
    assert(plan@.take(plan@.len() as int) =~= plan@);
    r
}

fn args_of(args_json: &String) -> (r: Option<String>)
    ensures
        r == args_field(*args_json),
{
    if json_parse_error(args_json.as_str()).is_none() {
        Some(args_json.clone())
    } else {
        None
    }
}

fn agent_of(e: &RuntimeEvent) -> (r: Option<String>)
    ensures
        r == event_agent_id(*e),
{
    match e.agent_id() {
        Some(id) => Some(id.clone()),
        None => None,
    }
}

fn approval_body(request: &ApprovalRequest, with_risk: bool) -> (b: LineBody)
    ensures
        b@ == (BodyView::Approval {
            title: request.title,
            message: request.message,
            risk: if with_risk {
                Some(request.risk_level)
            } else {
                None
            },
        }),
{
    LineBody::Approval {
        title: copy_text(&request.title),
        message: copy_text(&request.message),
        risk: if with_risk {
            Some(request.risk_level)
        } else {
            None
        },
    }
}

/// The line that the JSON stream writes for `event`, if any.
pub fn stream_line(event: &RuntimeEvent) -> (l: Option<EventLine>)
    ensures
        line_view(l) == stream_line_spec(*event),
{
    let agent_id = agent_of(event);
    match event {
        RuntimeEvent::ThoughtDelta { text, .. } => Some(
            EventLine { kind: LineKind::ThoughtDelta, body: LineBody::Text { text: copy_text(text) }, agent_id },
        ),
        RuntimeEvent::TextDelta { text, .. } => Some(
            EventLine { kind: LineKind::TextDelta, body: LineBody::Text { text: copy_text(text) }, agent_id },
        ),
        RuntimeEvent::ToolCallStarted { tool_name, args_json, .. } => Some(
            EventLine {
                kind: LineKind::ToolCallStarted,
                body: LineBody::ToolStarted { tool: copy_text(tool_name), args: args_of(args_json) },
                agent_id,
            },
        ),
        RuntimeEvent::ToolCallFinished { tool_name, summary, .. } => Some(
            EventLine {
                kind: LineKind::ToolCallFinished,
                body: LineBody::ToolFinished { tool: copy_text(tool_name), summary: copy_text(summary), denied: None },
                agent_id,
            },
        ),
        RuntimeEvent::AwaitingApproval { request, .. } => Some(
            EventLine { kind: LineKind::ApprovalRequest, body: approval_body(request, true), agent_id },
        ),
        RuntimeEvent::PlanUpdated { explanation, plan, .. } => Some(
            EventLine {
                kind: LineKind::PlanUpdated,
                body: LineBody::Plan { explanation: copy_optional_text(explanation), plan: copy_plan(plan) },
                agent_id,
            },
        ),
        RuntimeEvent::UserEvent { event: UserEvent::Structured { event_type, data }, .. } => Some(
            EventLine {
                kind: LineKind::UserEvent,
                body: LineBody::UserEvent { event_type: copy_text(event_type), data: copy_text(data) },
                agent_id,
            },
        ),
        RuntimeEvent::RunCancelled { .. } => Some(EventLine { kind: LineKind::RunCancelled, body: LineBody::Bare, agent_id }),
        _ => None,
    }
}

/// The first line of a turn's log: an object of the turn number, the time
/// the turn was logged and the user's input.
pub open spec fn turn_header_spec(turn: u32, timestamp: Seq<char>, user_input: Seq<char>) -> Option<Seq<char>> {
    set_field(
        set_field(set_number(Some("{}"@), "turn"@, turn as u64), "timestamp"@, timestamp),
        "user_input"@,
        user_input,
    )
}

/// Writes the first line of a turn's log.
pub fn turn_header_line(turn: u32, timestamp: &str, user_input: &str) -> (r: Result<String, AgentError>)
    ensures
        match turn_header_spec(turn, timestamp@, user_input@) {
            Some(t) => r matches Ok(s) && s@ == t,
            None => r matches Err(AgentError::Internal(m)) && m@ == "JSON document could not be built"@,
        },
{
    let t = set_number_field(Some("{}".to_string()), "turn", turn as u64);
    let t = set_text_field(t, "timestamp", timestamp);
    let t = set_text_field(t, "user_input", user_input);
    match t {
        Some(text) => Ok(text),
        None => Err(AgentError::Internal("JSON document could not be built".to_string())),
    }
}

/// The last line of a turn's log: type `turn_end` and the turn number.
pub open spec fn turn_end_spec(turn: u32) -> Option<Seq<char>> {
    set_number(set_field(Some("{}"@), "type"@, "turn_end"@), "turn"@, turn as u64)
}

/// Writes the last line of a turn's log.
pub fn turn_end_line(turn: u32) -> (r: Result<String, AgentError>)
    ensures
        match turn_end_spec(turn) {
            Some(t) => r matches Ok(s) && s@ == t,
            None => r matches Err(AgentError::Internal(m)) && m@ == "JSON document could not be built"@,
        },
{
    let t = set_text_field(Some("{}".to_string()), "type", "turn_end");
    let t = set_number_field(t, "turn", turn as u64);
    match t {
        Some(text) => Ok(text),
        None => Err(AgentError::Internal("JSON document could not be built".to_string())),
    }
}

/// The line that the turn log records for `event`.
pub fn log_line(event: &RuntimeEvent) -> (l: EventLine)
    ensures
        l@ == log_line_spec(*event),
{
    let agent_id = agent_of(event);
    match event {
        RuntimeEvent::ThoughtDelta { text, .. } => EventLine {
            kind: LineKind::ThoughtDelta,
            body: LineBody::Text { text: copy_text(text) },
            agent_id,
        },
        RuntimeEvent::TextDelta { text, .. } => EventLine {
            kind: LineKind::TextDelta,
            body: LineBody::Text { text: copy_text(text) },
            agent_id,
        },
        RuntimeEvent::ToolCallStarted { tool_name, args_json, .. } => EventLine {
            kind: LineKind::ToolCallStarted,
            body: LineBody::ToolStarted { tool: copy_text(tool_name), args: args_of(args_json) },
            agent_id,
        },
        RuntimeEvent::ToolCallFinished { tool_name, summary, denied, .. } => EventLine {
            kind: LineKind::ToolCallFinished,
            body: LineBody::ToolFinished {
                tool: copy_text(tool_name),
                summary: copy_text(summary),
                denied: Some(*denied),
            },
            agent_id,
        },
        RuntimeEvent::AwaitingApproval { request, .. } => EventLine {
            kind: LineKind::ApprovalRequest,
            body: approval_body(request, false),
            agent_id,
        },
        RuntimeEvent::PlanUpdated { explanation, plan, .. } => EventLine {
            kind: LineKind::PlanUpdated,
            body: LineBody::Plan { explanation: copy_optional_text(explanation), plan: copy_plan(plan) },
            agent_id,
        },
        RuntimeEvent::UserEvent { event: UserEvent::Structured { event_type, data }, .. } => EventLine {
            kind: LineKind::UserEvent,
            body: LineBody::UserEvent { event_type: copy_text(event_type), data: copy_text(data) },
            agent_id,
        },
        RuntimeEvent::UserEvent { .. } => EventLine { kind: LineKind::Other, body: LineBody::Bare, agent_id },
        RuntimeEvent::RunCancelled { .. } => EventLine { kind: LineKind::RunCancelled, body: LineBody::Bare, agent_id },
        RuntimeEvent::RunFinished { .. } => EventLine { kind: LineKind::RunFinished, body: LineBody::Bare, agent_id },
        RuntimeEvent::Checkpoint { .. } => EventLine { kind: LineKind::Checkpoint, body: LineBody::Bare, agent_id },
    }
}

/// The log line of an event carries the event's log tag.
pub proof fn law_log_line_kind_is_the_log_tag(e: RuntimeEvent)
    ensures
        kind_tag(log_line_spec(e).kind) == crate::event::event_type(e),
{
}

/// The JSON stream's line for an event carries the event's own fields: the
/// tag of its kind, its text, tool, summary, approval request (with its risk
/// level) or plan (every step and status, in order), and its sub-agent;
/// progress messages, run completion and checkpoints get no line.
pub proof fn law_stream_line_carries_the_event(e: RuntimeEvent)
    ensures
        e is ThoughtDelta ==> stream_line_spec(e) == Some(
            LineView {
                kind: LineKind::ThoughtDelta,
                body: BodyView::Text { text: e->ThoughtDelta_text },
                agent_id: e->ThoughtDelta_agent_id,
            },
        ),
        e is TextDelta ==> stream_line_spec(e) == Some(
            LineView {
                kind: LineKind::TextDelta,
                body: BodyView::Text { text: e->TextDelta_text },
                agent_id: e->TextDelta_agent_id,
            },
        ),
        e is ToolCallStarted ==> stream_line_spec(e) == Some(
            LineView {
                kind: LineKind::ToolCallStarted,
                body: BodyView::ToolStarted {
                    tool: e->ToolCallStarted_tool_name,
                    args: if json_parses(e->ToolCallStarted_args_json@) {
                        Some(e->ToolCallStarted_args_json)
                    } else {
                        None
                    },
                },
                agent_id: e->ToolCallStarted_agent_id,
            },
        ),
        e is ToolCallFinished ==> stream_line_spec(e) == Some(
            LineView {
                kind: LineKind::ToolCallFinished,
                body: BodyView::ToolFinished {
                    tool: e->ToolCallFinished_tool_name,
                    summary: e->ToolCallFinished_summary,
                    denied: None,
                },
                agent_id: e->ToolCallFinished_agent_id,
            },
        ),
        e is AwaitingApproval ==> stream_line_spec(e) == Some(
            LineView {
                kind: LineKind::ApprovalRequest,
                body: BodyView::Approval {
                    title: e->AwaitingApproval_request.title,
                    message: e->AwaitingApproval_request.message,
                    risk: Some(e->AwaitingApproval_request.risk_level),
                },
                agent_id: e->AwaitingApproval_agent_id,
            },
        ),
        e is PlanUpdated ==> stream_line_spec(e) == Some(
            LineView {
                kind: LineKind::PlanUpdated,
                body: BodyView::Plan { explanation: e->PlanUpdated_explanation, plan: e->PlanUpdated_plan@ },
                agent_id: e->PlanUpdated_agent_id,
            },
        ),
        e is PlanUpdated ==> (stream_line_spec(e) matches Some(l) && l.body matches BodyView::Plan { plan, .. }
            && plan.len() == e->PlanUpdated_plan@.len() && forall|i: int|
            0 <= i < plan.len() ==> #[trigger] plan[i] == e->PlanUpdated_plan@[i]),
        e is UserEvent && e->UserEvent_event is Structured ==> stream_line_spec(e) == Some(
            LineView {
                kind: LineKind::UserEvent,
                body: BodyView::UserEvent {
                    event_type: e->UserEvent_event->Structured_event_type,
                    data: e->UserEvent_event->Structured_data,
                },
                agent_id: e->UserEvent_agent_id,
            },
        ),
        e is UserEvent && e->UserEvent_event is Progress ==> stream_line_spec(e) is None,
        e is RunCancelled ==> stream_line_spec(e) == Some(
            LineView { kind: LineKind::RunCancelled, body: BodyView::Bare, agent_id: e->RunCancelled_agent_id },
        ),
        e is RunFinished ==> stream_line_spec(e) is None,
        e is Checkpoint ==> stream_line_spec(e) is None,
{
}

/// The turn log's line for an event carries the event's own fields as the
/// stream line does, and records whether a finished tool call was denied;
/// every event has a line (a progress message as `other`).
pub proof fn law_log_line_carries_the_event(e: RuntimeEvent)
    ensures
        e is ThoughtDelta ==> log_line_spec(e) == (LineView {
            kind: LineKind::ThoughtDelta,
            body: BodyView::Text { text: e->ThoughtDelta_text },
            agent_id: e->ThoughtDelta_agent_id,
        }),
        e is TextDelta ==> log_line_spec(e) == (LineView {
            kind: LineKind::TextDelta,
            body: BodyView::Text { text: e->TextDelta_text },
            agent_id: e->TextDelta_agent_id,
        }),
        e is ToolCallStarted ==> log_line_spec(e) == (LineView {
            kind: LineKind::ToolCallStarted,
            body: BodyView::ToolStarted {
                tool: e->ToolCallStarted_tool_name,
                args: if json_parses(e->ToolCallStarted_args_json@) {
                    Some(e->ToolCallStarted_args_json)
                } else {
                    None
                },
            },
            agent_id: e->ToolCallStarted_agent_id,
        }),
        e is ToolCallFinished ==> log_line_spec(e) == (LineView {
            kind: LineKind::ToolCallFinished,
            body: BodyView::ToolFinished {
                tool: e->ToolCallFinished_tool_name,
                summary: e->ToolCallFinished_summary,
                denied: Some(e->ToolCallFinished_denied),
            },
            agent_id: e->ToolCallFinished_agent_id,
        }),
        e is AwaitingApproval ==> log_line_spec(e) == (LineView {
            kind: LineKind::ApprovalRequest,
            body: BodyView::Approval {
                title: e->AwaitingApproval_request.title,
                message: e->AwaitingApproval_request.message,
                risk: None,
            },
            agent_id: e->AwaitingApproval_agent_id,
        }),
        e is PlanUpdated ==> log_line_spec(e) == (LineView {
            kind: LineKind::PlanUpdated,
            body: BodyView::Plan { explanation: e->PlanUpdated_explanation, plan: e->PlanUpdated_plan@ },
            agent_id: e->PlanUpdated_agent_id,
        }),
        e is UserEvent && e->UserEvent_event is Structured ==> log_line_spec(e) == (LineView {
            kind: LineKind::UserEvent,
            body: BodyView::UserEvent {
                event_type: e->UserEvent_event->Structured_event_type,
                data: e->UserEvent_event->Structured_data,
            },
            agent_id: e->UserEvent_agent_id,
        }),
        e is UserEvent && e->UserEvent_event is Progress ==> log_line_spec(e) == (LineView {
            kind: LineKind::Other,
            body: BodyView::Bare,
            agent_id: e->UserEvent_agent_id,
        }),
        e is RunCancelled ==> log_line_spec(e) == (LineView {
            kind: LineKind::RunCancelled,
            body: BodyView::Bare,
            agent_id: e->RunCancelled_agent_id,
        }),
        e is RunFinished ==> log_line_spec(e) == (LineView {
            kind: LineKind::RunFinished,
            body: BodyView::Bare,
            agent_id: e->RunFinished_agent_id,
        }),
        e is Checkpoint ==> log_line_spec(e) == (LineView {
            kind: LineKind::Checkpoint,
            body: BodyView::Bare,
            agent_id: e->Checkpoint_agent_id,
        }),
{
}

} // verus!
