//! JSON stream rendering: one JSON object per event line, and a summary
//! object at the end of each turn.
//!
//! This renderer gives the line of each event (see [`crate::lines`]) and keeps
//! the per-turn counters; the caller serialises the line (or the summary) as JSON.
use vstd::prelude::*;
use vstd::string::StringExecFns;

use crate::event::{event_agent_id, root_reply, started_calls, RuntimeEvent};
use crate::lines::{line_view, stream_line, stream_line_spec, EventLine};
use crate::text::{trim_end, trim_start, trim_string, trimmed};

verus! {

/// The state of a [`JsonStreamRenderer`].
pub struct JsonStreamState {
    /// Tool calls started in the current turn.
    pub tool_call_count: u32,
    /// Reply text of the root agent in the current turn.
    pub assistant_text: Seq<char>,
    /// Whether an event has come since the renderer was made or the last
    /// turn ended: only then has the current turn a duration.
    pub turn_started: bool,
}

/// JSON stream renderer: one JSON line per event (JSONL), for IDE
/// integrations and programmatic consumers.
pub struct JsonStreamRenderer {
    tool_call_count: u32,
    last_assistant_text: String,
    turn_started: bool,
}

impl View for JsonStreamRenderer {
    type V = JsonStreamState;

    closed spec fn view(&self) -> JsonStreamState {
        JsonStreamState {
            tool_call_count: self.tool_call_count,
            assistant_text: self.last_assistant_text@,
            turn_started: self.turn_started,
        }
    }
}

/// The renderer's state after event `e`: the turn has started, and the
/// event updates the reply and the tool-call count.
pub open spec fn json_next(st: JsonStreamState, e: RuntimeEvent) -> JsonStreamState {
    let st = JsonStreamState { turn_started: true, ..st };
    match e {
        RuntimeEvent::TextDelta { text, .. } => JsonStreamState {
            assistant_text: if event_agent_id(e) is None {
                st.assistant_text + text@
            } else {
                st.assistant_text
            },
            ..st
        },
        RuntimeEvent::ToolCallStarted { .. } => JsonStreamState {
            tool_call_count: (st.tool_call_count + 1) as u32,
            ..st
        },
        _ => st,
    }
}

/// The summary of a finished turn.
pub struct TurnFinished {
    /// Duration of the turn in milliseconds.
    pub duration_ms: u64,
    /// Tool calls started during the turn.
    pub tool_call_count: u32,
    /// The root agent's reply, trimmed.
    pub assistant_text: String,
}

/// The summary of a turn measured at `duration_ms`: its duration (0 when no
/// event started it), its tool calls and its trimmed reply.
pub open spec fn turn_report(st: JsonStreamState, duration_ms: u64) -> (u64, u32, Seq<char>) {
    (
        if st.turn_started {
            duration_ms
        } else {
            0
        },
        st.tool_call_count,
        trimmed(st.assistant_text),
    )
}

/// The renderer's state after a turn ends: nothing counted, no reply, no
/// turn started.
pub open spec fn finished_json(st: JsonStreamState) -> JsonStreamState {
    JsonStreamState { tool_call_count: 0, assistant_text: Seq::empty(), turn_started: false }
}

impl JsonStreamRenderer {
    /// A renderer with an empty turn.
    pub fn new() -> (r: Self)
        ensures
            r@ == (JsonStreamState { tool_call_count: 0, assistant_text: Seq::empty(), turn_started: false }),
    {
        JsonStreamRenderer { tool_call_count: 0, last_assistant_text: String::new(), turn_started: false }
    }

    /// Tool calls started in the current turn.
    pub fn tool_call_count(&self) -> (n: u32)
        ensures
            n == self@.tool_call_count,
    {
        self.tool_call_count
    }

    /// Whether an event has started the current turn.
    pub fn turn_started(&self) -> (b: bool)
        ensures
            b == self@.turn_started,
    {
        self.turn_started
    }

    /// Consumes one event: returns the JSON line written for it, if any, and
    /// updates the turn state.
    pub fn render(&mut self, event: &RuntimeEvent) -> (line: Option<EventLine>)
        requires
            event is ToolCallStarted ==> old(self)@.tool_call_count < u32::MAX,
        ensures
            line_view(line) == stream_line_spec(*event),
            final(self)@ == json_next(old(self)@, *event),
    {
        self.turn_started = true;
        match event {
            RuntimeEvent::TextDelta { text, .. } => {
                if event.agent_id().is_none() {
                    self.last_assistant_text.append(text.as_str());
                }
            },
            RuntimeEvent::ToolCallStarted { .. } => {
                self.tool_call_count = self.tool_call_count + 1;
            },
            _ => {},
        }
        stream_line(event)
    }

    /// Ends the turn: returns its summary and resets the turn state.
    /// `duration_ms` is the time since the turn's first event; a turn without
    /// events reports 0.
    pub fn finish_turn(&mut self, duration_ms: u64) -> (t: TurnFinished)
        ensures
            (t.duration_ms, t.tool_call_count, t.assistant_text@) == turn_report(old(self)@, duration_ms),
            final(self)@ == finished_json(old(self)@),
    {
        let t = TurnFinished {
            duration_ms: if self.turn_started {
                duration_ms
            } else {
                0
            },
            tool_call_count: self.tool_call_count,
            assistant_text: trim_string(self.last_assistant_text.as_str()),
        };
        self.tool_call_count = 0;
        self.last_assistant_text = String::new();
        self.turn_started = false;
        t
    }
}

/// The renderer's state after `events`, one after another.
pub open spec fn json_after(st: JsonStreamState, events: Seq<RuntimeEvent>) -> JsonStreamState
    decreases events.len(),
{
    if events.len() == 0 {
        st
    } else {
        json_next(json_after(st, events.drop_last()), events.last())
    }
}

/// Over a turn, the JSON stream renderer counts exactly the tool calls
/// started and keeps exactly the root agent's reply; any event starts the
/// turn.
pub proof fn law_json_turn_state(st: JsonStreamState, events: Seq<RuntimeEvent>)
    requires
        st.tool_call_count + started_calls(events) <= u32::MAX,
    ensures
        json_after(st, events).tool_call_count == st.tool_call_count + started_calls(events),
        json_after(st, events).assistant_text == st.assistant_text + root_reply(events),
        events.len() > 0 ==> json_after(st, events).turn_started,
    decreases events.len(),
{
    if events.len() > 0 {
        law_json_turn_state(st, events.drop_last());
        let prev = json_after(st, events.drop_last());
        assert(st.assistant_text + root_reply(events) =~= prev.assistant_text + match events.last() {
            RuntimeEvent::TextDelta { text, agent_id: None, .. } => text@,
            _ => Seq::empty(),
        });
    }
}

/// Ending a turn resets it: a second summary with no event in between
/// reports 0 ms, 0 tool calls and an empty reply, whatever time is passed in.
pub proof fn law_json_idle_turn_reports_zero(st: JsonStreamState, duration_ms: u64)
    ensures
        turn_report(finished_json(st), duration_ms) == (0u64, 0u32, Seq::<char>::empty()),
{
    let e = Seq::<char>::empty();
    assert(trim_start(e) =~= e);
    assert(trim_end(e) =~= e);
}

} // verus!
