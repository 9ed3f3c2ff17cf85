//! Session metrics as `phi metrics` lists and shows them: the order of the
//! listing and the texts of its columns.
use vstd::prelude::*;

use crate::cli::MetricsSort;
use crate::text::{
    decimal, join, join_strings, pad_left, pad_right, padded_left, padded_right, push_decimal, truncate_str,
    truncated, views,
};

verus! {

broadcast use vstd::seq_lib::lemma_multiset_commutative;

/// How a session ended.
#[derive(Clone, Copy, Debug, PartialEq, Eq, Structural)]
pub enum SessionOutcome {
    /// The last turn completed.
    Completed,
    /// A turn failed.
    Failed,
    /// The user cancelled.
    Cancelled,
    /// The turn limit was reached.
    MaxTurns,
}

/// How a turn ended.
#[derive(Clone, Copy, Debug, PartialEq, Eq, Structural)]
pub enum TurnOutcome {
    /// The model answered.
    Completed,
    /// The model called tools.
    ToolCalls,
    /// The turn failed.
    Error,
    /// The user cancelled.
    Cancelled,
    /// The turn limit was reached.
    MaxTurns,
}

/// One line of the session listing.
pub struct SessionSummary {
    /// Session id.
    pub session_id: String,
    /// Product that ran the session, if recorded.
    pub product: Option<String>,
    /// Node that ran the session (may be empty).
    pub node_id: String,
    /// Turns in the session.
    pub total_turns: u32,
    /// Characters exchanged in the session.
    pub total_chars: u64,
    /// How the session ended.
    pub outcome: SessionOutcome,
    /// Creation time, in milliseconds since the Unix epoch.
    pub created_at: i64,
}

/// Position of an outcome when listing by outcome: failures first.
pub open spec fn outcome_rank(o: SessionOutcome) -> int {
    match o {
        SessionOutcome::Failed => 0,
        SessionOutcome::MaxTurns => 1,
        SessionOutcome::Cancelled => 2,
        SessionOutcome::Completed => 3,
    }
}

/// The primary sort key of a summary; smaller keys are listed first.
pub open spec fn primary_key(s: SessionSummary, sort: MetricsSort) -> int {
    match sort {
        MetricsSort::Date => 0,
        MetricsSort::Turns => -(s.total_turns as int),
        MetricsSort::Chars => -(s.total_chars as int),
        MetricsSort::Outcome => outcome_rank(s.outcome),
    }
}

/// Whether `a` is listed before `b` under `sort`: by the key, then older first.
pub open spec fn goes_before(a: SessionSummary, b: SessionSummary, sort: MetricsSort) -> bool {
    primary_key(a, sort) < primary_key(b, sort) || (primary_key(a, sort) == primary_key(b, sort)
        && a.created_at < b.created_at)
}

/// Where `x` goes in the ordered list `sorted`: after every summary that is
/// listed before it.
pub open spec fn listing_position(sorted: Seq<SessionSummary>, x: SessionSummary, sort: MetricsSort) -> nat
    decreases sorted.len(),
{
    if sorted.len() == 0 {
        0
    } else if goes_before(sorted[0], x, sort) {
        1 + listing_position(sorted.drop_first(), x, sort)
    } else {
        0
    }
}

/// `summaries` stably sorted by `goes_before`.
pub open spec fn stably_sorted(summaries: Seq<SessionSummary>, sort: MetricsSort) -> Seq<SessionSummary>
    decreases summaries.len(),
{
    if summaries.len() == 0 {
        summaries
    } else {
        let rest = stably_sorted(summaries.drop_first(), sort);
        let p = listing_position(rest, summaries[0], sort) as int;
        rest.take(p) + seq![summaries[0]] + rest.skip(p)
    }
}

/// The listing order: as given for `Date`, else stably sorted.
pub open spec fn listing_order(summaries: Seq<SessionSummary>, sort: MetricsSort) -> Seq<SessionSummary> {
    match sort {
        MetricsSort::Date => summaries,
        _ => stably_sorted(summaries, sort),
    }
}

proof fn lemma_listing_position(sorted: Seq<SessionSummary>, x: SessionSummary, sort: MetricsSort, i: int)
    requires
        0 <= i <= sorted.len(),
        forall|j: int| 0 <= j < i ==> goes_before(#[trigger] sorted[j], x, sort),
    ensures
        listing_position(sorted, x, sort) == i + listing_position(sorted.skip(i), x, sort),
    decreases i,
{
    if i > 0 {
        assert(sorted.drop_first().skip(i - 1) =~= sorted.skip(i));
        assert forall|j: int| 0 <= j < i - 1 implies goes_before(#[trigger] sorted.drop_first()[j], x, sort) by {
            assert(sorted.drop_first()[j] == sorted[j + 1]);
        }
        lemma_listing_position(sorted.drop_first(), x, sort, i - 1);
    } else {
        assert(sorted.skip(0) =~= sorted);
    }
}

proof fn lemma_position_bounds(sorted: Seq<SessionSummary>, x: SessionSummary, sort: MetricsSort)
    ensures
        listing_position(sorted, x, sort) <= sorted.len(),
        forall|j: int| 0 <= j < listing_position(sorted, x, sort) ==> goes_before(#[trigger] sorted[j], x, sort),
        listing_position(sorted, x, sort) < sorted.len() ==> !goes_before(
            sorted[listing_position(sorted, x, sort) as int],
            x,
            sort,
        ),
    decreases sorted.len(),
{
    if sorted.len() > 0 && goes_before(sorted[0], x, sort) {
        lemma_position_bounds(sorted.drop_first(), x, sort);
        assert forall|j: int| 0 <= j < listing_position(sorted, x, sort) implies goes_before(
            #[trigger] sorted[j],
            x,
            sort,
        ) by {
            if j > 0 {
                assert(sorted[j] == sorted.drop_first()[j - 1]);
            }
        }
    }
}

/// Orders summaries for `phi metrics list`: as given for `Date`; otherwise
/// most turns, most characters, or failures first, each time with older
/// sessions before newer ones among equals, and equal summaries in their
/// given order.
pub fn sort_summaries(summaries: Vec<SessionSummary>, sort: MetricsSort) -> (r: Vec<SessionSummary>)
    ensures
        r@ == listing_order(summaries@, sort),
{
    if sort == MetricsSort::Date {
        return summaries;
    }
    let ghost given = summaries@;
    let mut input = summaries;
    let mut sorted: Vec<SessionSummary> = Vec::new();
    assert(given.skip(given.len() as int) =~= Seq::<SessionSummary>::empty());
    while input.len() > 0
        invariant
            sort != MetricsSort::Date,
            input@ == given.take(input@.len() as int),
            input@.len() <= given.len(),
            sorted@ == stably_sorted(given.skip(input@.len() as int), sort),
        decreases input@.len(),
    {
        let k = input.len();
        let x = input.pop().unwrap();
        proof {
            let tail = given.skip(k - 1);
            assert(tail.drop_first() =~= given.skip(k as int));
            assert(tail[0] == x);
            assert(input@ =~= given.take(k - 1));
        }
        let mut pos: usize = 0;
        while pos < sorted.len() && listed_before(&sorted[pos], &x, sort)
            invariant
                pos <= sorted@.len(),
                forall|j: int| 0 <= j < pos ==> goes_before(#[trigger] sorted@[j], x, sort),
            decreases sorted@.len() - pos,
        {
            pos = pos + 1;
        }
        proof {
            lemma_listing_position(sorted@, x, sort, pos as int);
            if pos < sorted@.len() {
                assert(sorted@.skip(pos as int)[0] == sorted@[pos as int]);
            }
        }
        let ghost before = sorted@;
        sorted.insert(pos, x);
        proof {
            assert(sorted@ =~= before.take(pos as int) + seq![x] + before.skip(pos as int));
        }
    }
    assert(given.skip(0) =~= given);
    sorted
}

fn outcome_position(o: SessionOutcome) -> (r: u8)
    ensures
        r == outcome_rank(o),
{
    match o {
        SessionOutcome::Failed => 0,
        SessionOutcome::MaxTurns => 1,
        SessionOutcome::Cancelled => 2,
        SessionOutcome::Completed => 3,
    }
}

fn listed_before(a: &SessionSummary, b: &SessionSummary, sort: MetricsSort) -> (r: bool)
    ensures
        r == goes_before(*a, *b, sort),
{
    let older = a.created_at < b.created_at;
    match sort {
        MetricsSort::Date => older,
        MetricsSort::Turns => a.total_turns > b.total_turns || (a.total_turns == b.total_turns && older),
        MetricsSort::Chars => a.total_chars > b.total_chars || (a.total_chars == b.total_chars && older),
        MetricsSort::Outcome => {
            let ra = outcome_position(a.outcome);
            let rb = outcome_position(b.outcome);
            ra < rb || (ra == rb && older)
        },
    }
}

/// The listing holds exactly the summaries it was given.
pub proof fn law_listing_is_a_permutation(summaries: Seq<SessionSummary>, sort: MetricsSort)
    ensures
        listing_order(summaries, sort).to_multiset() == summaries.to_multiset(),
    decreases summaries.len(),
{
    broadcast use vstd::multiset::group_multiset_axioms;

    if sort != MetricsSort::Date && summaries.len() > 0 {
        let rest = stably_sorted(summaries.drop_first(), sort);
        law_listing_is_a_permutation(summaries.drop_first(), sort);
        let p = listing_position(rest, summaries[0], sort) as int;
        lemma_position_bounds(rest, summaries[0], sort);
        let a = rest.take(p);
        let b = rest.skip(p);
        let one = seq![summaries[0]];
        assert(rest =~= a + b);
        assert(summaries =~= one + summaries.drop_first());
        assert(a + one + b =~= a + (one + b));
        assert((a + (one + b)).to_multiset() =~= a.to_multiset().add(one.to_multiset().add(b.to_multiset())));
        assert((a + b).to_multiset() =~= a.to_multiset().add(b.to_multiset()));
        assert((one + summaries.drop_first()).to_multiset() =~= one.to_multiset().add(
            summaries.drop_first().to_multiset(),
        ));
    }
}

/// Under a sort key, no summary of the listing is listed before one that
/// precedes it: the listing is ordered.
pub proof fn law_listing_is_ordered(summaries: Seq<SessionSummary>, sort: MetricsSort, i: int, j: int)
    requires
        sort != MetricsSort::Date,
        0 <= i < j < summaries.len(),
    ensures
        !goes_before(listing_order(summaries, sort)[j], listing_order(summaries, sort)[i], sort),
{
    lemma_sorted(summaries, sort);
}

proof fn lemma_sorted(summaries: Seq<SessionSummary>, sort: MetricsSort)
    requires
        sort != MetricsSort::Date,
    ensures
        stably_sorted(summaries, sort).len() == summaries.len(),
        forall|i: int, j: int|
            0 <= i < j < summaries.len() ==> !goes_before(
                #[trigger] stably_sorted(summaries, sort)[j],
                #[trigger] stably_sorted(summaries, sort)[i],
                sort,
            ),
    decreases summaries.len(),
{
    if summaries.len() > 0 {
        let x = summaries[0];
        lemma_sorted(summaries.drop_first(), sort);
        let rest = stably_sorted(summaries.drop_first(), sort);
        lemma_position_bounds(rest, x, sort);
        let p = listing_position(rest, x, sort) as int;
        let r = rest.take(p) + seq![x] + rest.skip(p);
        assert(r.len() == summaries.len());
        assert forall|i: int, j: int| 0 <= i < j < r.len() implies !goes_before(
            #[trigger] r[j],
            #[trigger] r[i],
            sort,
        ) by {
            if j < p {
                assert(r[i] == rest[i] && r[j] == rest[j]);
            } else if j == p {
                assert(r[i] == rest[i] && r[j] == x);
                assert(goes_before(rest[i], x, sort));
            } else if i == p {
                assert(r[i] == x && r[j] == rest[j - 1]);
                assert(!goes_before(rest[p], x, sort));
                if j - 1 > p {
                    assert(!goes_before(rest[j - 1], rest[p], sort));
                }
            } else if i < p {
                assert(r[i] == rest[i] && r[j] == rest[j - 1]);
            } else {
                assert(r[i] == rest[i - 1] && r[j] == rest[j - 1]);
            }
        }
    }
}

/// The column text of an outcome in the listing.
pub open spec fn outcome_text(o: SessionOutcome) -> Seq<char> {
    match o {
        SessionOutcome::Completed => "✅ completed"@,
        SessionOutcome::Failed => "❌ failed"@,
        SessionOutcome::Cancelled => "⏹️ cancelled"@,
        SessionOutcome::MaxTurns => "⚠️ max_turns"@,
    }
}

/// The column text of an outcome in the listing and the detail view.
pub fn outcome_label(o: SessionOutcome) -> (s: &'static str)
    ensures
        s@ == outcome_text(o),
{
    match o {
        SessionOutcome::Completed => "✅ completed",
        SessionOutcome::Failed => "❌ failed",
        SessionOutcome::Cancelled => "⏹️ cancelled",
        SessionOutcome::MaxTurns => "⚠️ max_turns",
    }
}

/// The icon of a turn's outcome.
pub open spec fn turn_icon_text(o: TurnOutcome) -> Seq<char> {
    match o {
        TurnOutcome::Completed => "✅"@,
        TurnOutcome::ToolCalls => "🔧"@,
        TurnOutcome::Error => "❌"@,
        TurnOutcome::Cancelled => "⏹️"@,
        TurnOutcome::MaxTurns => "⚠️"@,
    }
}

/// The icon of a turn's outcome in the turn breakdown.
pub fn turn_outcome_icon(o: TurnOutcome) -> (s: &'static str)
    ensures
        s@ == turn_icon_text(o),
{
    match o {
        TurnOutcome::Completed => "✅",
        TurnOutcome::ToolCalls => "🔧",
        TurnOutcome::Error => "❌",
        TurnOutcome::Cancelled => "⏹️",
        TurnOutcome::MaxTurns => "⚠️",
    }
}

/// Width, in characters, of the session and tools columns.
pub const COLUMN_CHARS: usize = 29;

/// The session column of a summary: its id, with the product in brackets
/// when recorded, cut to 29 characters.
pub open spec fn label_text(s: SessionSummary) -> Seq<char> {
    let full = match s.product {
        Some(p) => s.session_id@ + " ("@ + p@ + ")"@,
        None => s.session_id@,
    };
    truncated(full, COLUMN_CHARS as nat, "..."@)
}

/// The session column of a summary.
pub fn session_label(s: &SessionSummary) -> (r: String)
    ensures
        r@ == label_text(*s),
{
    let mut full = s.session_id.clone();
    match &s.product {
        Some(p) => {
            full.append(" (");
            full.append(p.as_str());
            full.append(")");
        },
        None => {},
    }
    truncate_str(full.as_str(), COLUMN_CHARS)
}

/// The node column: the node id, or `-` when it is empty.
pub fn node_label(node_id: &str) -> (r: String)
    ensures
        r@ == if node_id@.len() == 0 {
            "-"@
        } else {
            node_id@
        },
{
    if crate::text::chars_of(node_id).len() == 0 {
        String::from_str("-")
    } else {
        String::from_str(node_id)
    }
}

/// The tools of a turn: `text-only` without tools, else `tools[a, b]`.
pub open spec fn tools_text(tools: Seq<Seq<char>>) -> Seq<char> {
    if tools.len() == 0 {
        "text-only"@
    } else {
        "tools["@ + join(tools, ", "@) + "]"@
    }
}

/// The tools column of a turn, before it is cut to the column width.
pub fn tools_used_text(tools: &Vec<String>) -> (r: String)
    ensures
        r@ == tools_text(views(tools@)),
{
    if tools.len() == 0 {
        return String::from_str("text-only");
    }
    let mut r = String::from_str("tools[");
    let joined = join_strings(tools, ", ");
    r.append(joined.as_str());
    r.append("]");
    r
}

/// The share of `part` in `total`, in whole percent; 0 when `total` is 0.
pub fn percent_of(part: u64, total: u64) -> (r: u64)
    requires
        part * 100 <= u64::MAX,
    ensures
        r == if total == 0 {
            0
        } else {
            (part * 100) / (total as int)
        },
{
    if total == 0 {
        0
    } else {
        (part * 100) / total
    }
}

// ── The session table ──

/// What `phi metrics` prints when there is no session.
pub const NO_SESSIONS: &'static str = "No sessions found.";

/// The header line of the session table.
pub open spec fn header_text() -> Seq<char> {
    "  "@ + padded_right("Session"@, 30) + " "@ + padded_right("Node"@, 22) + " "@ + padded_left("Turns"@, 6)
        + " "@ + padded_left("Chars"@, 10) + "  Outcome"@
}

/// The header line of the session table.
pub fn metrics_header() -> (r: String)
    ensures
        r@ == header_text(),
{
    let mut r = String::from_str("  ");
    r.append(pad_right("Session", 30).as_str());
    r.append(" ");
    r.append(pad_right("Node", 22).as_str());
    r.append(" ");
    r.append(pad_left("Turns", 6).as_str());
    r.append(" ");
    r.append(pad_left("Chars", 10).as_str());
    r.append("  Outcome");
    r
}

/// The rule under the header: two spaces and 80 dashes.
pub fn metrics_rule() -> (r: String)
    ensures
        r@ == "  "@ + Seq::new(80, |i: int| '-'),
{
    let mut r = String::from_str("  ");
    let mut i: usize = 0;
    while i < 80
        invariant
            i <= 80,
            r@ == "  "@ + Seq::new(i as nat, |j: int| '-'),
        decreases 80 - i,
    {
        r.push('-');
        i = i + 1;
        proof {
            assert(r@ =~= "  "@ + Seq::new(i as nat, |j: int| '-'));
        }
    }
    r
}

/// The node column text.
pub open spec fn node_text(node_id: Seq<char>) -> Seq<char> {
    if node_id.len() == 0 {
        "-"@
    } else {
        node_id
    }
}

/// The row of a summary, with `chars_text` the character count as the
/// table shows it (thousands and millions with one decimal).
pub open spec fn row_text(s: SessionSummary, chars_text: Seq<char>) -> Seq<char> {
    "  "@ + padded_right(label_text(s), 30) + " "@ + padded_right(node_text(s.node_id@), 22) + " "@
        + padded_left(decimal(s.total_turns as nat), 6) + " "@ + padded_left(chars_text, 10) + "  "@
        + outcome_text(s.outcome)
}

/// The row of a summary in the session table.
pub fn metrics_row(s: &SessionSummary, chars_text: &str) -> (r: String)
    ensures
        r@ == row_text(*s, chars_text@),
{
    let mut turns = String::new();
    push_decimal(&mut turns, s.total_turns as u64);
    let mut r = String::from_str("  ");
    r.append(pad_right(session_label(s).as_str(), 30).as_str());
    r.append(" ");
    r.append(pad_right(node_label(s.node_id.as_str()).as_str(), 22).as_str());
    r.append(" ");
    r.append(pad_left(turns.as_str(), 6).as_str());
    r.append(" ");
    r.append(pad_left(chars_text, 10).as_str());
    r.append("  ");
    r.append(outcome_label(s.outcome));
    r
}

/// The count line under the table.
pub fn metrics_footer(count: usize) -> (r: String)
    ensures
        r@ == "  "@ + decimal(count as nat) + " session(s)"@,
{
    let mut r = String::from_str("  ");
    push_decimal(&mut r, count as u64);
    r.append(" session(s)");
    r
}

/// The most recent session of a listing: the one created last (the last of
/// those created at that time), or `None` for an empty listing.
pub fn most_recent_session(summaries: &Vec<SessionSummary>) -> (r: Option<usize>)
    ensures
        r is None <==> summaries@.len() == 0,
        r matches Some(i) ==> {
            &&& i < summaries@.len()
            &&& forall|j: int| 0 <= j < summaries@.len() ==> summaries@[j].created_at <= summaries@[i as int].created_at
            &&& forall|j: int| i < j < summaries@.len() ==> summaries@[j].created_at < summaries@[i as int].created_at
        },
{
    if summaries.len() == 0 {
        return None;
    }
    let mut best: usize = 0;
    let mut i: usize = 1;
    while i < summaries.len()
        invariant
            1 <= i <= summaries@.len(),
            best < i,
            forall|j: int| 0 <= j < i ==> summaries@[j].created_at <= summaries@[best as int].created_at,
            forall|j: int| best < j < i ==> summaries@[j].created_at < summaries@[best as int].created_at,
        decreases summaries@.len() - i,
    {
        if summaries[i].created_at >= summaries[best].created_at {
            best = i;
        }
        i = i + 1;
    }
    Some(best)
}

// ── The detail view ──

/// Metrics of one turn, as the detail view shows them.
pub struct TurnMetricsData {
    /// Turn number.
    pub turn_number: u32,
    /// Duration, in milliseconds.
    pub duration_ms: u64,
    /// Time to the first token, in milliseconds.
    pub time_to_first_token_ms: u64,
    /// Tools called during the turn.
    pub tools_used: Vec<String>,
    /// How the turn ended.
    pub outcome: TurnOutcome,
}

/// Metrics of one session, as the detail view shows them.
pub struct SessionMetricsData {
    /// Node that ran the session.
    pub node_id: String,
    /// Model used.
    pub model: String,
    /// Product that ran the session, if recorded.
    pub product: Option<String>,
    /// Role within the product, if recorded.
    pub role: Option<String>,
    /// Turns in the session.
    pub total_turns: u32,
    /// Total duration, in milliseconds.
    pub total_duration_ms: u64,
    /// Mean turn duration, in milliseconds.
    pub avg_turn_ms: u64,
    /// Median turn duration, in milliseconds.
    pub p50_turn_ms: u64,
    /// 95th percentile turn duration, in milliseconds.
    pub p95_turn_ms: u64,
    /// 99th percentile turn duration, in milliseconds.
    pub p99_turn_ms: u64,
    /// Characters exchanged.
    pub total_chars: u64,
    /// Time spent in LLM calls, in milliseconds.
    pub total_llm_ms: u64,
    /// Time spent in tool calls, in milliseconds.
    pub total_tool_ms: u64,
    /// Calls per tool, in the order to show them.
    pub tool_breakdown: Vec<(String, u64)>,
    /// How the session ended.
    pub outcome: SessionOutcome,
    /// Errors during the session.
    pub error_count: u64,
    /// Plan updates during the session.
    pub total_plan_updates: u64,
    /// Approval requests during the session.
    pub total_approvals: u64,
    /// Per-turn metrics.
    pub turns: Vec<TurnMetricsData>,
}

/// The rule between the groups of the detail view.
pub open spec fn detail_rule() -> Seq<char> {
    "  "@ + Seq::new(41, |i: int| '\u{2500}')
}

/// Whole seconds of a duration in milliseconds.
pub open spec fn secs(ms: u64) -> Seq<char> {
    decimal((ms / 1000) as nat)
}

/// The share of `part` in `total` in whole percent, 0 when `total` is 0.
pub open spec fn percent(part: u64, total: u64) -> nat {
    if total == 0 {
        0
    } else {
        ((part * 100) / (total as int)) as nat
    }
}

/// The product line, when a product is recorded.
pub open spec fn product_lines(m: SessionMetricsData) -> Seq<Seq<char>> {
    match m.product {
        Some(p) => seq![
            "  Product:    "@ + p@ + match m.role {
                Some(r) => " ("@ + r@ + ")"@,
                None => Seq::empty(),
            },
        ],
        None => Seq::empty(),
    }
}

/// The duration line.
pub open spec fn duration_line(m: SessionMetricsData) -> Seq<char> {
    "  Duration:   "@ + secs(m.total_duration_ms) + "s (avg "@ + secs(m.avg_turn_ms) + "s/turn, P50 "@ + secs(
        m.p50_turn_ms,
    ) + "s, P95 "@ + secs(m.p95_turn_ms) + "s, P99 "@ + secs(m.p99_turn_ms) + "s)"@
}

/// A time-share line: `label`, seconds, and percent of the total duration.
pub open spec fn share_line(label: Seq<char>, ms: u64, total: u64) -> Seq<char> {
    label + secs(ms) + "s ("@ + decimal(percent(ms, total)) + "%)"@
}

/// The `name(count)` items of the tool breakdown.
pub open spec fn breakdown_items(b: Seq<(String, u64)>) -> Seq<Seq<char>> {
    b.map_values(|e: (String, u64)| e.0@ + "("@ + decimal(e.1 as nat) + ")"@)
}

/// The tool breakdown line, when tools were called.
pub open spec fn tools_lines(m: SessionMetricsData) -> Seq<Seq<char>> {
    if m.tool_breakdown@.len() == 0 {
        Seq::empty()
    } else {
        seq!["  Tools:      "@ + join(breakdown_items(m.tool_breakdown@), ", "@)]
    }
}

/// The plans line, when there were plan updates or approvals.
pub open spec fn plans_lines(m: SessionMetricsData) -> Seq<Seq<char>> {
    if m.total_plan_updates > 0 || m.total_approvals > 0 {
        seq![
            "  Plans:      "@ + decimal(m.total_plan_updates as nat) + " update(s), "@ + decimal(
                m.total_approvals as nat,
            ) + " approval(s)"@,
        ]
    } else {
        Seq::empty()
    }
}

/// The line of one turn in the turn breakdown.
pub open spec fn turn_line(t: TurnMetricsData) -> Seq<char> {
    "  #"@ + padded_right(decimal(t.turn_number as nat), 3) + " "@ + padded_left(secs(t.duration_ms), 4)
        + "s  TTFT "@ + padded_left(decimal(t.time_to_first_token_ms as nat), 4) + "ms  "@ + padded_right(
        truncated(tools_text(views(t.tools_used@)), COLUMN_CHARS as nat, "..."@),
        30,
    ) + " "@ + turn_icon_text(t.outcome)
}

/// The turn breakdown, when there are turns.
pub open spec fn turn_section(turns: Seq<TurnMetricsData>) -> Seq<Seq<char>> {
    if turns.len() == 0 {
        Seq::empty()
    } else {
        seq![Seq::empty(), "  Turn breakdown:"@] + turns.map_values(|t: TurnMetricsData| turn_line(t))
    }
}

/// The first group of the detail view: identity, turns and duration, chars, time shares.
pub open spec fn detail_head(m: SessionMetricsData, session_id: Seq<char>, chars_text: Seq<char>) -> Seq<
    Seq<char>,
> {
    seq![
        Seq::empty(),
        "  Session:    "@ + session_id,
        "  Node:       "@ + m.node_id@,
        "  Model:      "@ + m.model@,
    ] + product_lines(m) + seq![
        "  Turns:      "@ + decimal(m.total_turns as nat),
        duration_line(m),
        detail_rule(),
        "  Chars:      "@ + chars_text,
        detail_rule(),
        share_line("  LLM:        "@, m.total_llm_ms, m.total_duration_ms),
        share_line("  Tool:       "@, m.total_tool_ms, m.total_duration_ms),
    ]
}

/// The lines of `phi metrics show` for session `session_id`, with
/// `chars_text` the character count as shown (thousands and millions with
/// one decimal).
pub open spec fn detail_lines(m: SessionMetricsData, session_id: Seq<char>, chars_text: Seq<char>) -> Seq<
    Seq<char>,
> {
    detail_head(m, session_id, chars_text) + tools_lines(m) + seq![
        detail_rule(),
        "  Outcome:    "@ + outcome_text(m.outcome),
        "  Errors:     "@ + decimal(m.error_count as nat),
    ] + plans_lines(m) + turn_section(m.turns@) + seq![Seq::empty()]
}

fn push_line(out: &mut Vec<String>, line: String)
    ensures
        views(final(out)@) == views(old(out)@).push(line@),
{
    let ghost before = out@;
    out.push(line);
    proof {
        assert(views(out@) =~= views(before).push(line@));
    }
}

fn text_line(head: &str, tail: &str) -> (r: String)
    ensures
        r@ == head@ + tail@,
{
    let mut r = String::from_str(head);
    r.append(tail);
    r
}

fn number_line(head: &str, n: u64) -> (r: String)
    ensures
        r@ == head@ + decimal(n as nat),
{
    let mut r = String::from_str(head);
    push_decimal(&mut r, n);
    r
}

fn rule_line() -> (r: String)
    ensures
        r@ == detail_rule(),
{
    let mut r = String::from_str("  ");
    let mut i: usize = 0;
    while i < 41
        invariant
            i <= 41,
            r@ == "  "@ + Seq::new(i as nat, |j: int| '\u{2500}'),
        decreases 41 - i,
    {
        r.push('\u{2500}');
        i = i + 1;
        proof {
            assert(r@ =~= "  "@ + Seq::new(i as nat, |j: int| '\u{2500}'));
        }
    }
    r
}

fn duration_text_line(m: &SessionMetricsData) -> (r: String)
    ensures
        r@ == duration_line(*m),
{
    let mut r = String::from_str("  Duration:   ");
    push_decimal(&mut r, m.total_duration_ms / 1000);
    r.append("s (avg ");
    push_decimal(&mut r, m.avg_turn_ms / 1000);
    r.append("s/turn, P50 ");
    push_decimal(&mut r, m.p50_turn_ms / 1000);
    r.append("s, P95 ");
    push_decimal(&mut r, m.p95_turn_ms / 1000);
    r.append("s, P99 ");
    push_decimal(&mut r, m.p99_turn_ms / 1000);
    r.append("s)");
    r
}

fn share_text_line(label: &str, ms: u64, total: u64) -> (r: String)
    requires
        ms * 100 <= u64::MAX,
    ensures
        r@ == share_line(label@, ms, total),
{
    let mut r = String::from_str(label);
    push_decimal(&mut r, ms / 1000);
    r.append("s (");
    push_decimal(&mut r, percent_of(ms, total));
    r.append("%)");
    r
}

fn breakdown_text(b: &Vec<(String, u64)>) -> (r: String)
    ensures
        r@ == join(breakdown_items(b@), ", "@),
{
    let mut items: Vec<String> = Vec::new();
    let mut i: usize = 0;
    while i < b.len()
        invariant
            i <= b@.len(),
            views(items@) == breakdown_items(b@.take(i as int)),
        decreases b@.len() - i,
    {
        let mut item = b[i].0.clone();
        item.append("(");
        push_decimal(&mut item, b[i].1);
        item.append(")");
        let ghost before = items@;
        items.push(item);
        proof {
            assert(views(items@) =~= views(before).push(item@));
            assert(breakdown_items(b@.take(i + 1)) =~= breakdown_items(b@.take(i as int)).push(
                b@[i as int].0@ + "("@ + decimal(b@[i as int].1 as nat) + ")"@,
            ));
        }
        i = i + 1;
    }
    assert(b@.take(b@.len() as int) =~= b@);
    join_strings(&items, ", ")
}

fn turn_text_line(t: &TurnMetricsData) -> (r: String)
    ensures
        r@ == turn_line(*t),
{
    let mut num = String::new();
    push_decimal(&mut num, t.turn_number as u64);
    let mut dur = String::new();
    push_decimal(&mut dur, t.duration_ms / 1000);
    let mut ttft = String::new();
    push_decimal(&mut ttft, t.time_to_first_token_ms);
    let tools = truncate_str(tools_used_text(&t.tools_used).as_str(), COLUMN_CHARS);
    let mut r = String::from_str("  #");
    r.append(pad_right(num.as_str(), 3).as_str());
    r.append(" ");
    r.append(pad_left(dur.as_str(), 4).as_str());
    r.append("s  TTFT ");
    r.append(pad_left(ttft.as_str(), 4).as_str());
    r.append("ms  ");
    r.append(pad_right(tools.as_str(), 30).as_str());
    r.append(" ");
    r.append(turn_outcome_icon(t.outcome));
    r
}

fn append_lines(out: &mut Vec<String>, more: Vec<String>)
    ensures
        views(final(out)@) == views(old(out)@) + views(more@),
{
    let ghost before = out@;
    let ghost added = more@;
    let mut more = more;
    out.append(&mut more);
    proof {
        assert(views(out@) =~= views(before) + views(added));
    }
}

fn identity_lines(m: &SessionMetricsData, session_id: &str) -> (r: Vec<String>)
    ensures
        views(r@) == seq![
            Seq::<char>::empty(),
            "  Session:    "@ + session_id@,
            "  Node:       "@ + m.node_id@,
            "  Model:      "@ + m.model@,
        ],
{
    let mut out: Vec<String> = Vec::new();
    push_line(&mut out, String::new());
    push_line(&mut out, text_line("  Session:    ", session_id));
    push_line(&mut out, text_line("  Node:       ", m.node_id.as_str()));
    push_line(&mut out, text_line("  Model:      ", m.model.as_str()));
    proof {
        assert(views(out@) =~= seq![
            Seq::<char>::empty(),
            "  Session:    "@ + session_id@,
            "  Node:       "@ + m.node_id@,
            "  Model:      "@ + m.model@,
        ]);
    }
    out
}

fn product_vec(m: &SessionMetricsData) -> (r: Vec<String>)
    ensures
        views(r@) == product_lines(*m),
{
    let mut out: Vec<String> = Vec::new();
    match &m.product {
        Some(p) => {
            let mut line = text_line("  Product:    ", p.as_str());
            match &m.role {
                Some(role) => {
                    line.append(" (");
                    line.append(role.as_str());
                    line.append(")");
                },
                None => {},
            }
            proof {
                assert(line@ =~= "  Product:    "@ + p@ + match m.role {
                    Some(r) => " ("@ + r@ + ")"@,
                    None => Seq::empty(),
                });
            }
            push_line(&mut out, line);
            proof {
                assert(views(out@) =~= product_lines(*m));
            }
        },
        None => {
            proof {
                assert(views(out@) =~= product_lines(*m));
            }
        },
    }
    out
}

fn figures_lines(m: &SessionMetricsData, chars_text: &str) -> (r: Vec<String>)
    requires
        m.total_llm_ms * 100 <= u64::MAX,
        m.total_tool_ms * 100 <= u64::MAX,
    ensures
        views(r@) == seq![
            "  Turns:      "@ + decimal(m.total_turns as nat),
            duration_line(*m),
            detail_rule(),
            "  Chars:      "@ + chars_text@,
            detail_rule(),
            share_line("  LLM:        "@, m.total_llm_ms, m.total_duration_ms),
            share_line("  Tool:       "@, m.total_tool_ms, m.total_duration_ms),
        ],
{
    let mut out: Vec<String> = Vec::new();
    push_line(&mut out, number_line("  Turns:      ", m.total_turns as u64));
    push_line(&mut out, duration_text_line(m));
    push_line(&mut out, rule_line());
    push_line(&mut out, text_line("  Chars:      ", chars_text));
    push_line(&mut out, rule_line());
    push_line(&mut out, share_text_line("  LLM:        ", m.total_llm_ms, m.total_duration_ms));
    push_line(&mut out, share_text_line("  Tool:       ", m.total_tool_ms, m.total_duration_ms));
    proof {
        assert(views(out@) =~= seq![
            "  Turns:      "@ + decimal(m.total_turns as nat),
            duration_line(*m),
            detail_rule(),
            "  Chars:      "@ + chars_text@,
            detail_rule(),
            share_line("  LLM:        "@, m.total_llm_ms, m.total_duration_ms),
            share_line("  Tool:       "@, m.total_tool_ms, m.total_duration_ms),
        ]);
    }
    out
}

fn tools_vec(m: &SessionMetricsData) -> (r: Vec<String>)
    ensures
        views(r@) == tools_lines(*m),
{
    let mut out: Vec<String> = Vec::new();
    if m.tool_breakdown.len() > 0 {
        push_line(&mut out, text_line("  Tools:      ", breakdown_text(&m.tool_breakdown).as_str()));
    }
    proof {
        assert(views(out@) =~= tools_lines(*m));
    }
    out
}

fn outcome_lines(m: &SessionMetricsData) -> (r: Vec<String>)
    ensures
        views(r@) == seq![
            detail_rule(),
            "  Outcome:    "@ + outcome_text(m.outcome),
            "  Errors:     "@ + decimal(m.error_count as nat),
        ],
{
    let mut out: Vec<String> = Vec::new();
    push_line(&mut out, rule_line());
    push_line(&mut out, text_line("  Outcome:    ", outcome_label(m.outcome)));
    push_line(&mut out, number_line("  Errors:     ", m.error_count));
    proof {
        assert(views(out@) =~= seq![
            detail_rule(),
            "  Outcome:    "@ + outcome_text(m.outcome),
            "  Errors:     "@ + decimal(m.error_count as nat),
        ]);
    }
    out
}

fn plans_vec(m: &SessionMetricsData) -> (r: Vec<String>)
    ensures
        views(r@) == plans_lines(*m),
{
    let mut out: Vec<String> = Vec::new();
    if m.total_plan_updates > 0 || m.total_approvals > 0 {
        let mut line = number_line("  Plans:      ", m.total_plan_updates);
        line.append(" update(s), ");
        push_decimal(&mut line, m.total_approvals);
        line.append(" approval(s)");
        push_line(&mut out, line);
    }
    proof {
        assert(views(out@) =~= plans_lines(*m));
    }
    out
}

fn turns_vec(turns: &Vec<TurnMetricsData>) -> (r: Vec<String>)
    ensures
        views(r@) == turn_section(turns@),
{
    let mut out: Vec<String> = Vec::new();
    if turns.len() == 0 {
        proof {
            assert(views(out@) =~= turn_section(turns@));
        }
        return out;
    }
    push_line(&mut out, String::new());
    push_line(&mut out, String::from_str("  Turn breakdown:"));
    let ghost start = views(out@);
    assert(start =~= seq![Seq::<char>::empty(), "  Turn breakdown:"@]);
    let mut i: usize = 0;
    while i < turns.len()
        invariant
            i <= turns@.len(),
            views(out@) == start + turns@.take(i as int).map_values(|t: TurnMetricsData| turn_line(t)),
        decreases turns@.len() - i,
    {
        let line = turn_text_line(&turns[i]);
        push_line(&mut out, line);
        proof {
            assert(turns@.take(i + 1).map_values(|t: TurnMetricsData| turn_line(t)) =~= turns@.take(
                i as int,
            ).map_values(|t: TurnMetricsData| turn_line(t)).push(turn_line(turns@[i as int])));
        }
        i = i + 1;
    }
    proof {
        assert(turns@.take(turns@.len() as int) =~= turns@);
    }
    out
}

/// The lines of `phi metrics show` for session `session_id`; `chars_text`
/// is the character count as shown.
pub fn session_detail_lines(m: &SessionMetricsData, session_id: &str, chars_text: &str) -> (r: Vec<String>)
    requires
        m.total_llm_ms * 100 <= u64::MAX,
        m.total_tool_ms * 100 <= u64::MAX,
    ensures
        views(r@) == detail_lines(*m, session_id@, chars_text@),
{
    let mut out = identity_lines(m, session_id);
    append_lines(&mut out, product_vec(m));
    append_lines(&mut out, figures_lines(m, chars_text));
    append_lines(&mut out, tools_vec(m));
    append_lines(&mut out, outcome_lines(m));
    append_lines(&mut out, plans_vec(m));
    append_lines(&mut out, turns_vec(&m.turns));
    let mut last: Vec<String> = Vec::new();
    push_line(&mut last, String::new());
    proof {
        assert(views(last@) =~= seq![Seq::<char>::empty()]);
    }
    append_lines(&mut out, last);
    out
}

} // verus!
