//! The runtime events that an agent turn emits, and the approval types they carry.
use vstd::prelude::*;

verus! {

/// Identifier of an agent session.
pub struct SessionId {
    /// Runtime-internal identifier.
    pub id: u64,
    /// Identifier chosen by an external client, if any.
    pub external_id: Option<String>,
}

/// How risky a tool call that awaits approval is.
#[derive(Clone, Copy, Debug, PartialEq, Eq, Structural)]
pub enum RiskLevel {
    /// Read-only or otherwise harmless.
    Safe,
    /// Touches sensitive data or state.
    Sensitive,
    /// May destroy data.
    Destructive,
}

impl RiskLevel {
    /// The variant's name, as `{:?}` prints it.
    pub fn name(&self) -> (s: &'static str)
        ensures
            s@ == risk_name(*self),
    {
        match self {
            RiskLevel::Safe => "Safe",
            RiskLevel::Sensitive => "Sensitive",
            RiskLevel::Destructive => "Destructive",
        }
    }
}

/// The name of a risk level.
pub open spec fn risk_name(r: RiskLevel) -> Seq<char> {
    match r {
        RiskLevel::Safe => "Safe"@,
        RiskLevel::Sensitive => "Sensitive"@,
        RiskLevel::Destructive => "Destructive"@,
    }
}

/// A request for the user's approval of a tool call.
#[derive(Debug)]
pub struct ApprovalRequest {
    /// Short title (usually the tool name).
    pub title: String,
    /// What the call will do.
    pub message: String,
    /// Key under which an "allow always" answer is remembered.
    pub action_key: Option<String>,
    /// Risk of the call.
    pub risk_level: RiskLevel,
    /// Raw arguments, as JSON text.
    pub raw: Option<String>,
}

/// The user's answer to an approval request.
#[derive(Clone, Copy, Debug, PartialEq, Eq, Structural)]
pub enum ApprovalDecision {
    /// Allow this call.
    Allow,
    /// Allow this call and all later ones with the same action key.
    AllowAlways,
    /// Refuse the call.
    Deny,
}

/// Status of one step of a plan.
#[derive(Clone, Copy, Debug, PartialEq, Eq, Structural)]
pub enum PlanStepStatus {
    /// Not started.
    Pending,
    /// Under way.
    InProgress,
    /// Done.
    Completed,
}

/// One step of a plan.
pub struct PlanItem {
    /// What the step does.
    pub step: String,
    /// Where the step stands.
    pub status: PlanStepStatus,
}

/// An application-level event surfaced to consumers.
pub enum UserEvent {
    /// Free-form progress text.
    Progress { text: String },
    /// A typed event with a JSON payload (`data` is JSON text).
    Structured { event_type: String, data: String },
}

/// An event of an agent run. `agent_id` is set on events of sub-agents.
pub enum RuntimeEvent {
    /// A fragment of the model's reasoning.
    ThoughtDelta { session_id: SessionId, text: String, agent_id: Option<String>, trace_id: Option<String> },
    /// A fragment of the model's reply.
    TextDelta { session_id: SessionId, text: String, agent_id: Option<String>, trace_id: Option<String> },
    /// A tool call started; `args_json` holds its arguments.
    ToolCallStarted {
        session_id: SessionId,
        tool_name: String,
        args_json: String,
        agent_id: Option<String>,
        trace_id: Option<String>,
    },
    /// A tool call finished.
    ToolCallFinished {
        session_id: SessionId,
        tool_name: String,
        summary: String,
        agent_id: Option<String>,
        trace_id: Option<String>,
        denied: bool,
    },
    /// A tool call waits for the user's approval.
    AwaitingApproval {
        session_id: SessionId,
        request: ApprovalRequest,
        agent_id: Option<String>,
        trace_id: Option<String>,
    },
    /// The plan changed.
    PlanUpdated {
        session_id: SessionId,
        objective: String,
        explanation: Option<String>,
        plan: Vec<PlanItem>,
        agent_id: Option<String>,
        trace_id: Option<String>,
    },
    /// An application-level event.
    UserEvent { session_id: SessionId, event: UserEvent, agent_id: Option<String>, trace_id: Option<String> },
    /// The run was cancelled.
    RunCancelled { session_id: SessionId, agent_id: Option<String>, trace_id: Option<String> },
    /// The run finished.
    RunFinished { session_id: SessionId, agent_id: Option<String>, trace_id: Option<String> },
    /// A checkpoint was taken.
    Checkpoint { session_id: SessionId, agent_id: Option<String>, trace_id: Option<String> },
}

/// The sub-agent an event comes from, if any.
pub open spec fn event_agent_id(e: RuntimeEvent) -> Option<String> {
    match e {
        RuntimeEvent::ThoughtDelta { agent_id, .. } => agent_id,
        RuntimeEvent::TextDelta { agent_id, .. } => agent_id,
        RuntimeEvent::ToolCallStarted { agent_id, .. } => agent_id,
        RuntimeEvent::ToolCallFinished { agent_id, .. } => agent_id,
        RuntimeEvent::AwaitingApproval { agent_id, .. } => agent_id,
        RuntimeEvent::PlanUpdated { agent_id, .. } => agent_id,
        RuntimeEvent::UserEvent { agent_id, .. } => agent_id,
        RuntimeEvent::RunCancelled { agent_id, .. } => agent_id,
        RuntimeEvent::RunFinished { agent_id, .. } => agent_id,
        RuntimeEvent::Checkpoint { agent_id, .. } => agent_id,
    }
}

impl RuntimeEvent {
    /// The sub-agent this event comes from; `None` for the root agent.
    pub fn agent_id(&self) -> (r: Option<&String>)
        ensures
            match r {
                Some(id) => event_agent_id(*self) == Some(*id),
                None => event_agent_id(*self) is None,
            },
    {
        match self {
            RuntimeEvent::ThoughtDelta { agent_id, .. } => agent_id.as_ref(),
            RuntimeEvent::TextDelta { agent_id, .. } => agent_id.as_ref(),
            RuntimeEvent::ToolCallStarted { agent_id, .. } => agent_id.as_ref(),
            RuntimeEvent::ToolCallFinished { agent_id, .. } => agent_id.as_ref(),
            RuntimeEvent::AwaitingApproval { agent_id, .. } => agent_id.as_ref(),
            RuntimeEvent::PlanUpdated { agent_id, .. } => agent_id.as_ref(),
            RuntimeEvent::UserEvent { agent_id, .. } => agent_id.as_ref(),
            RuntimeEvent::RunCancelled { agent_id, .. } => agent_id.as_ref(),
            RuntimeEvent::RunFinished { agent_id, .. } => agent_id.as_ref(),
            RuntimeEvent::Checkpoint { agent_id, .. } => agent_id.as_ref(),
        }
    }
}

/// The `type` tag of an event in the JSON event log.
pub open spec fn event_type(e: RuntimeEvent) -> Seq<char> {
    match e {
        RuntimeEvent::ThoughtDelta { .. } => "thought_delta"@,
        RuntimeEvent::TextDelta { .. } => "text_delta"@,
        RuntimeEvent::ToolCallStarted { .. } => "tool_call_started"@,
        RuntimeEvent::ToolCallFinished { .. } => "tool_call_finished"@,
        RuntimeEvent::AwaitingApproval { .. } => "approval_request"@,
        RuntimeEvent::PlanUpdated { .. } => "plan_updated"@,
        RuntimeEvent::UserEvent { event: UserEvent::Structured { .. }, .. } => "user_event"@,
        RuntimeEvent::UserEvent { .. } => "other"@,
        RuntimeEvent::RunCancelled { .. } => "run_cancelled"@,
        RuntimeEvent::RunFinished { .. } => "run_finished"@,
        RuntimeEvent::Checkpoint { .. } => "checkpoint"@,
    }
}

impl RuntimeEvent {
    /// The `type` tag of this event in the JSON event log.
    pub fn log_type(&self) -> (s: &'static str)
        ensures
            s@ == event_type(*self),
    {
        match self {
            RuntimeEvent::ThoughtDelta { .. } => "thought_delta",
            RuntimeEvent::TextDelta { .. } => "text_delta",
            RuntimeEvent::ToolCallStarted { .. } => "tool_call_started",
            RuntimeEvent::ToolCallFinished { .. } => "tool_call_finished",
            RuntimeEvent::AwaitingApproval { .. } => "approval_request",
            RuntimeEvent::PlanUpdated { .. } => "plan_updated",
            RuntimeEvent::UserEvent { event: UserEvent::Structured { .. }, .. } => "user_event",
            RuntimeEvent::UserEvent { .. } => "other",
            RuntimeEvent::RunCancelled { .. } => "run_cancelled",
            RuntimeEvent::RunFinished { .. } => "run_finished",
            RuntimeEvent::Checkpoint { .. } => "checkpoint",
        }
    }
}

/// How many of `events` start a tool call.
pub open spec fn started_calls(events: Seq<RuntimeEvent>) -> nat
    decreases events.len(),
{
    if events.len() == 0 {
        0
    } else {
        started_calls(events.drop_last()) + if events.last() is ToolCallStarted {
            1nat
        } else {
            0nat
        }
    }
}

/// The reply text of the root agent among `events`: its text fragments, in order.
pub open spec fn root_reply(events: Seq<RuntimeEvent>) -> Seq<char>
    decreases events.len(),
{
    if events.len() == 0 {
        Seq::empty()
    } else {
        root_reply(events.drop_last()) + match events.last() {
            RuntimeEvent::TextDelta { text, agent_id: None, .. } => text@,
            _ => Seq::empty(),
        }
    }
}

} // verus!
