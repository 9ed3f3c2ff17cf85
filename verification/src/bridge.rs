//! The bridge protocol's data and the session bookkeeping of its server.
//!
//! The wire format itself (NDJSON, one message per line) is read and written
//! by the serving program; the library holds what the messages carry and the
//! rule that runs naming the same external session id share one agent session.
use vstd::prelude::*;

use crate::config::str_text;
use crate::text::text_equals;

verus! {

/// Version of the bridge protocol announced in the `hello` message.
pub const PROTOCOL_VERSION: u32 = 1;

/// Metadata of a registered tool, as the bridge reports it.
#[derive(Clone, Debug)]
pub struct ToolMetadata {
    /// Tool name.
    pub name: String,
    /// What the tool does.
    pub description: String,
    /// Where the tool comes from.
    pub origin: String,
    /// Tool version.
    pub version: String,
    /// What the tool needs to run.
    pub requirements: Vec<String>,
}

/// Per-run overrides sent with a `run` message; every field is optional.
#[derive(Debug)]
pub struct RunConfig {
    /// Model name.
    pub model: Option<String>,
    /// API key.
    pub api_key: Option<String>,
    /// API base URL.
    pub base_url: Option<String>,
    /// Whether the model shows its thinking.
    pub enable_thinking: Option<bool>,
    /// Thinking token budget.
    pub thinking_budget: Option<u64>,
    /// Thinking effort name.
    pub thinking_effort: Option<String>,
    /// Most tool calls in one turn.
    pub max_tool_calls_per_turn: Option<usize>,
    /// Most consecutive failures of one tool.
    pub max_consecutive_failures: Option<usize>,
    /// Most react-loop iterations for the run.
    pub max_turns: Option<u32>,
}

impl Default for RunConfig {
    /// No overrides at all.
    fn default() -> (c: Self)
        ensures
            c.model is None,
            c.api_key is None,
            c.base_url is None,
            c.enable_thinking is None,
            c.thinking_budget is None,
            c.thinking_effort is None,
            c.max_tool_calls_per_turn is None,
            c.max_consecutive_failures is None,
            c.max_turns is None,
    {
        RunConfig {
            model: None,
            api_key: None,
            base_url: None,
            enable_thinking: None,
            thinking_budget: None,
            thinking_effort: None,
            max_tool_calls_per_turn: None,
            max_consecutive_failures: None,
            max_turns: None,
        }
    }
}

/// The sessions of the bridge server that have an external id: each
/// external id names at most one agent session (by its runtime id).
pub struct SessionRegistry {
    entries: Vec<(String, u64)>,
}

/// The map that a list of (external id, session id) entries stands for.
pub open spec fn entries_map(entries: Seq<(String, u64)>) -> Map<Seq<char>, u64>
    decreases entries.len(),
{
    if entries.len() == 0 {
        Map::empty()
    } else {
        entries_map(entries.drop_last()).insert(entries.last().0@, entries.last().1)
    }
}

/// No external id occurs twice among `entries`.
pub open spec fn distinct_ids(entries: Seq<(String, u64)>) -> bool {
    forall|i: int, j: int|
        0 <= i < entries.len() && 0 <= j < entries.len() && i != j ==> entries[i].0@ != entries[j].0@
}

proof fn lemma_entries_map(entries: Seq<(String, u64)>)
    requires
        distinct_ids(entries),
    ensures
        forall|k: Seq<char>|
            entries_map(entries).dom().contains(k) <==> exists|i: int|
                0 <= i < entries.len() && (#[trigger] entries[i]).0@ == k,
        forall|i: int|
            0 <= i < entries.len() ==> entries_map(entries)[(#[trigger] entries[i]).0@] == entries[i].1,
    decreases entries.len(),
{
    if entries.len() > 0 {
        let init = entries.drop_last();
        assert(distinct_ids(init));
        lemma_entries_map(init);
        let n = entries.len() - 1;
        assert forall|k: Seq<char>|
            entries_map(entries).dom().contains(k) implies exists|i: int|
                0 <= i < entries.len() && (#[trigger] entries[i]).0@ == k by {
            if k == entries[n].0@ {
                assert(entries[n].0@ == k);
            } else {
                assert(entries_map(init).dom().contains(k));
                assert(exists|i: int| 0 <= i < init.len() && (#[trigger] init[i]).0@ == k);
                let i = choose|i: int| 0 <= i < init.len() && (#[trigger] init[i]).0@ == k;
                assert(entries[i] == init[i]);
                assert(entries[i].0@ == k);
            }
        }
        assert forall|k: Seq<char>|
            (exists|i: int| 0 <= i < entries.len() && (#[trigger] entries[i]).0@ == k) implies entries_map(
            entries,
        ).dom().contains(k) by {
            let i = choose|i: int| 0 <= i < entries.len() && (#[trigger] entries[i]).0@ == k;
            if i < n {
                assert(init[i] == entries[i]);
            }
        }
        assert forall|i: int| 0 <= i < entries.len() implies entries_map(entries)[(
        #[trigger] entries[i]).0@] == entries[i].1 by {
            if i < n {
                assert(init[i] == entries[i]);
                assert(entries[i].0@ != entries[n].0@);
            }
        }
    }
}

proof fn lemma_entries_map_update(entries: Seq<(String, u64)>, i: int, e: (String, u64))
    requires
        distinct_ids(entries),
        0 <= i < entries.len(),
        e.0@ == entries[i].0@,
    ensures
        distinct_ids(entries.update(i, e)),
        entries_map(entries.update(i, e)) == entries_map(entries).insert(e.0@, e.1),
{
    let u = entries.update(i, e);
    assert(distinct_ids(u)) by {
        assert forall|a: int, b: int|
            0 <= a < u.len() && 0 <= b < u.len() && a != b implies u[a].0@ != u[b].0@ by {
            assert(entries[a].0@ != entries[b].0@);
        }
    }
    lemma_entries_map(entries);
    lemma_entries_map(u);
    let m = entries_map(entries).insert(e.0@, e.1);
    assert forall|k: Seq<char>| entries_map(u).dom().contains(k) <==> m.dom().contains(k) by {
        if entries_map(u).dom().contains(k) {
            let j = choose|j: int| 0 <= j < u.len() && (#[trigger] u[j]).0@ == k;
            if j != i {
                assert(entries[j] == u[j]);
            }
        }
        if entries_map(entries).dom().contains(k) {
            let j = choose|j: int| 0 <= j < entries.len() && (#[trigger] entries[j]).0@ == k;
            if j != i {
                assert(entries[j] == u[j]);
            } else {
                assert(u[i] == e);
            }
        }
        if k == e.0@ {
            assert(u[i] == e);
        }
    }
    assert forall|k: Seq<char>| entries_map(u).dom().contains(k) implies entries_map(u)[k] == m[k] by {
        let j = choose|j: int| 0 <= j < u.len() && (#[trigger] u[j]).0@ == k;
        if j != i {
            assert(entries[j] == u[j]);
        } else {
            assert(u[i] == e);
        }
    }
    assert(entries_map(u) =~= m);
}

/// What the server does for a run that names `external_id`.
pub enum SessionChoice {
    /// Continue the agent session with this runtime id.
    Reuse(u64),
    /// Create a new agent session, and register it under the external id
    /// when there is one.
    Create(Option<String>),
}

/// The choice for `external_id` when the registry holds `sessions`.
pub open spec fn session_choice_for(sessions: Map<Seq<char>, u64>, external_id: Option<Seq<char>>) -> Option<
    u64,
> {
    match external_id {
        Some(k) => if sessions.dom().contains(k) {
            Some(sessions[k])
        } else {
            None
        },
        None => None,
    }
}

impl View for SessionRegistry {
    type V = Map<Seq<char>, u64>;

    closed spec fn view(&self) -> Map<Seq<char>, u64> {
        entries_map(self.entries@)
    }
}

impl SessionRegistry {
    #[verifier::type_invariant]
    spec fn keys_distinct(self) -> bool {
        distinct_ids(self.entries@)
    }

    /// An empty registry.
    pub fn new() -> (r: Self)
        ensures
            r@ == Map::<Seq<char>, u64>::empty(),
    {
        SessionRegistry { entries: Vec::new() }
    }

    fn find(&self, external_id: &str) -> (r: Option<usize>)
        ensures
            match r {
                Some(i) => i < self.entries@.len() && self.entries@[i as int].0@ == external_id@,
                None => forall|i: int|
                    0 <= i < self.entries@.len() ==> (#[trigger] self.entries@[i]).0@ != external_id@,
            },
    {
        let mut i: usize = 0;
        while i < self.entries.len()
            invariant
                i <= self.entries@.len(),
                forall|j: int| 0 <= j < i ==> (#[trigger] self.entries@[j]).0@ != external_id@,
            decreases self.entries@.len() - i,
        {
            if text_equals(self.entries[i].0.as_str(), external_id) {
                return Some(i);
            }
            i = i + 1;
        }
        None
    }

    /// The runtime id of the session registered under `external_id`, if any.
    pub fn lookup(&self, external_id: &str) -> (r: Option<u64>)
        ensures
            r == session_choice_for(self@, Some(external_id@)),
    {
        proof {
            use_type_invariant(self);
            lemma_entries_map(self.entries@);
        }
        match self.find(external_id) {
            Some(i) => Some(self.entries[i].1),
            None => {
                proof {
                    if self@.dom().contains(external_id@) {
                        let j = choose|j: int|
                            0 <= j < self.entries@.len() && (#[trigger] self.entries@[j]).0@
                                == external_id@;
                        assert(self.entries@[j].0@ != external_id@);
                    }
                }
                None
            },
        }
    }

    /// Decides how to serve a run: a run with an external id that is already
    /// registered continues that session; any other run gets a new session,
    /// registered under its external id when it has one.
    pub fn choose_session(&self, external_id: Option<&str>) -> (c: SessionChoice)
        ensures
            match session_choice_for(self@, str_text(external_id)) {
                Some(id) => c matches SessionChoice::Reuse(x) && x == id,
                None => c matches SessionChoice::Create(reg) && match external_id {
                    Some(k) => reg matches Some(r) && r@ == k@,
                    None => reg is None,
                },
            },
    {
        match external_id {
            Some(k) => match self.lookup(k) {
                Some(id) => SessionChoice::Reuse(id),
                None => SessionChoice::Create(Some(String::from_str(k))),
            },
            None => SessionChoice::Create(None),
        }
    }

    /// Registers the session `id` under `external_id`, replacing any earlier
    /// registration of that id.
    pub fn register(&mut self, external_id: String, id: u64)
        ensures
            final(self)@ == old(self)@.insert(external_id@, id),
    {
        proof {
            use_type_invariant(&*self);
        }
        let found = self.find(external_id.as_str());
        let ghost before = self.entries@;
        let mut entries: Vec<(String, u64)> = Vec::new();
        std::mem::swap(&mut entries, &mut self.entries);
        match found {
            Some(i) => {
                proof {
                    lemma_entries_map_update(before, i as int, (external_id, id));
                }
                entries.set(i, (external_id, id));
            },
            None => {
                proof {
                    let after = before.push((external_id, id));
                    assert(after.drop_last() =~= before);
                    assert(distinct_ids(after)) by {
                        assert forall|a: int, b: int|
                            0 <= a < after.len() && 0 <= b < after.len() && a != b implies after[a].0@
                            != after[b].0@ by {
                            if a < before.len() && b < before.len() {
                                assert(after[a] == before[a] && after[b] == before[b]);
                            } else if a < before.len() {
                                assert(after[a] == before[a]);
                            } else if b < before.len() {
                                assert(after[b] == before[b]);
                            }
                        }
                    }
                }
                entries.push((external_id, id));
            },
        }
        self.entries = entries;
    }
}

/// Runs that name the same external id share one session: once a session is
/// registered under an id, the next run naming that id continues it.
pub proof fn law_registered_session_is_reused(sessions: Map<Seq<char>, u64>, external_id: Seq<char>, id: u64)
    ensures
        session_choice_for(sessions.insert(external_id, id), Some(external_id)) == Some(id),
{
}

/// A run without an external id never continues an earlier session.
pub proof fn law_anonymous_run_gets_new_session(sessions: Map<Seq<char>, u64>)
    ensures
        session_choice_for(sessions, None) is None,
{
}

/// Registering one external id leaves the choice for every other id as it was.
pub proof fn law_registration_is_local(
    sessions: Map<Seq<char>, u64>,
    registered: Seq<char>,
    id: u64,
    other: Seq<char>,
)
    requires
        other != registered,
    ensures
        session_choice_for(sessions.insert(registered, id), Some(other)) == session_choice_for(
            sessions,
            Some(other),
        ),
{
}

} // verus!
