//! System prompt assembly from prioritised fragments.
//!
//! The library's own fragments (core instructions, memory instructions, China
//! network hints) are combined with fragments supplied by the consumer,
//! ordered by priority, and joined with blank lines; the memory section is
//! set off by a `---` separator.
use vstd::prelude::*;
use vstd::string::StringExecFns;

use crate::text::{chars_match_at, chars_of, join, string_from_chars};

verus! {

broadcast use vstd::string::group_string_axioms;

/// A prompt fragment as it enters composition: its name, its priority
/// (lower renders first) and its rendered text (`None` when it renders nothing).
pub struct Fragment {
    /// Fragment name.
    pub name: String,
    /// Priority; fragments are rendered in ascending priority.
    pub priority: i32,
    /// Rendered content, if any.
    pub content: Option<String>,
}

/// The main system prompt content: role, conversation detection, thinking
/// approach, execution guidelines, file operation guidelines, wrap-up.
pub const CORE_INSTRUCTIONS: &'static str = "You are a versatile AI assistant with strong autonomous problem-solving abilities.\n\n[Role]\nYou get things done, not chat. Take initiative \u{2014} don't ask for confirmation repeatedly. Reply with conclusions only.\n\n[Conversation Type Detection]\n- Greetings / small talk (hello, thanks, goodbye) \u{2192} Friendly response, no tools.\n- Questions / discussion \u{2192} Give analysis and advice, don't execute destructive actions directly.\n- Dev / ops tasks \u{2192} Take action directly.\n\n[Thinking Approach]\nEach turn, quickly assess: what phase am I in \u{2192} what's the next step \u{2192} do it.\nFor complex tasks (3+ steps), use update_plan to show the plan and let the user see progress.\n\n[Execution Guidelines]\n- Check state before acting. Probe current state before making changes.\n- Verify results after operations.\n- Text replies should only contain analysis and conclusions \u{2014} don't repeat tool output.\n- When your current task is active and not fully complete, each reply must include tool calls that advance the work \u{2014} a text-only reply then ends the run. Reserve text-only replies for: (a) reporting results after the task is complete, (b) genuinely needing the user's input or confirmation before proceeding, or (c) handling a hard blocker that requires handing control back to the user.\n- Avoid narrating next steps (\"let me check X\", \"next I'll do Y\") without emitting the matching tool call in the same reply \u{2014} think aloud in your reasoning block, not in the visible reply.\n- If more work is needed, keep calling tools \u{2014} don't stop after one step.\n- Independent operations can run in parallel; dependent ones must be serial.\n- On error: analyze the cause, find a fix, and apply it directly. Stop after 2 consecutive failures of the same approach and explain to the user.\n\n[File Operation Guidelines]\n- Confirm the file exists before reading.\n- Confirm the directory exists before writing (create if needed).\n- Back up or verify content before modifying files.\n- Verify file state after operations.\n\n[Wrap-Up]\nReport a final conclusion once the entire user request is complete. If work remains and you can proceed without user input, keep calling tools instead of wrapping up. After confirming results, report the conclusion concisely.";

/// Network hints for users in mainland China.
pub const NETWORK_ENV_CN: &'static str = "[Network Environment]\nYou are operating in mainland China. Google, YouTube, Twitter, BBC, and many foreign sites are inaccessible. Prefer domestic alternatives:\n- Search: Bing (cn.bing.com) or Baidu (baidu.com)\n- News: Toutiao, Baidu News, The Paper (thepaper.cn), Zaobao (zaobao.com)\n- Dev: mirrors.tuna.tsinghua.edu.cn, gitee.com\nWhen a foreign site times out, switch to a domestic alternative immediately \u{2014} don't retry.";

/// Memory instructions: the agent keeps durable notes as files under
/// `.phi/memory/`, indexed by `MEMORY.md`, using the file tools.
pub const MEMORY_INSTRUCTIONS: &'static str = "## Memory\n\nYou have a persistent, file-based memory that survives across sessions. It lives in the `.phi/memory/` directory of the current project.\n\n- `.phi/memory/MEMORY.md` is the index: one line per memory file with a short description. Read it with read_file at the start of a task when earlier context could help.\n- Save durable facts (user preferences, project conventions, decisions, recurring fixes) as separate markdown files in `.phi/memory/` with write_file, and add a line for each new file to MEMORY.md.\n- Keep memories short and factual; update or remove entries that turn out to be wrong.\n- Never store secrets, credentials or one-off task details in memory.";

/// The separator placed before the memory section.
pub const MEMORY_HEADING: &'static str = "\n\n## Memory";

/// The memory heading with its `---` separator.
pub const SEPARATED_MEMORY_HEADING: &'static str = "\n---\n\n## Memory";

/// The core instructions fragment (priority 10, renders first).
pub struct CoreInstructionsFragment;

/// The memory fragment (priority 95, renders near the end).
pub struct MemoryFragment;

/// The China network fragment (priority 90, after the core instructions and
/// before memory); only included on request.
pub struct NetworkEnvironmentFragment;

impl CoreInstructionsFragment {
    /// Fragment name.
    pub fn name(&self) -> (s: &'static str)
        ensures
            s@ == "core_instructions"@,
    {
        "core_instructions"
    }

    /// Fragment priority.
    pub fn priority(&self) -> (p: i32)
        ensures
            p == 10,
    {
        10
    }

    /// Rendered content.
    pub fn render(&self) -> (r: Option<String>)
        ensures
            r matches Some(s) && s@ == CORE_INSTRUCTIONS@,
    {
        Some(String::from_str(CORE_INSTRUCTIONS))
    }

    /// The fragment as it enters composition.
    pub fn fragment(&self) -> (f: Fragment)
        ensures
            f.name@ == "core_instructions"@,
            f.priority == 10,
            f.content matches Some(s) && s@ == CORE_INSTRUCTIONS@,
    {
        Fragment { name: String::from_str(self.name()), priority: self.priority(), content: self.render() }
    }
}

impl MemoryFragment {
    /// Fragment name.
    pub fn name(&self) -> (s: &'static str)
        ensures
            s@ == "memory"@,
    {
        "memory"
    }

    /// Fragment priority.
    pub fn priority(&self) -> (p: i32)
        ensures
            p == 95,
    {
        95
    }

    /// Rendered content.
    pub fn render(&self) -> (r: Option<String>)
        ensures
            r matches Some(s) && s@ == MEMORY_INSTRUCTIONS@,
    {
        Some(String::from_str(MEMORY_INSTRUCTIONS))
    }

    /// The fragment as it enters composition.
    pub fn fragment(&self) -> (f: Fragment)
        ensures
            f.name@ == "memory"@,
            f.priority == 95,
            f.content matches Some(s) && s@ == MEMORY_INSTRUCTIONS@,
    {
        Fragment { name: String::from_str(self.name()), priority: self.priority(), content: self.render() }
    }
}

impl NetworkEnvironmentFragment {
    /// Fragment name.
    pub fn name(&self) -> (s: &'static str)
        ensures
            s@ == "network_environment_cn"@,
    {
        "network_environment_cn"
    }

    /// Fragment priority.
    pub fn priority(&self) -> (p: i32)
        ensures
            p == 90,
    {
        90
    }

    /// Rendered content.
    pub fn render(&self) -> (r: Option<String>)
        ensures
            r matches Some(s) && s@ == NETWORK_ENV_CN@,
    {
        Some(String::from_str(NETWORK_ENV_CN))
    }

    /// The fragment as it enters composition.
    pub fn fragment(&self) -> (f: Fragment)
        ensures
            f.name@ == "network_environment_cn"@,
            f.priority == 90,
            f.content matches Some(s) && s@ == NETWORK_ENV_CN@,
    {
        Fragment { name: String::from_str(self.name()), priority: self.priority(), content: self.render() }
    }
}

/// Where a fragment of priority `p` goes in a list already in ascending
/// priority order: after every fragment of lower priority.
pub open spec fn priority_position(sorted: Seq<Fragment>, p: i32) -> nat
    decreases sorted.len(),
{
    if sorted.len() == 0 {
        0
    } else if sorted[0].priority < p {
        1 + priority_position(sorted.drop_first(), p)
    } else {
        0
    }
}

/// `fragments` in ascending priority; fragments of equal priority keep their
/// order (a stable sort).
pub open spec fn by_priority(fragments: Seq<Fragment>) -> Seq<Fragment>
    decreases fragments.len(),
{
    if fragments.len() == 0 {
        fragments
    } else {
        let rest = by_priority(fragments.drop_first());
        let p = priority_position(rest, fragments[0].priority) as int;
        rest.take(p) + seq![fragments[0]] + rest.skip(p)
    }
}

/// The rendered texts of `fragments`, in order, skipping those that render nothing.
pub open spec fn rendered(fragments: Seq<Fragment>) -> Seq<Seq<char>>
    decreases fragments.len(),
{
    if fragments.len() == 0 {
        Seq::empty()
    } else {
        let rest = rendered(fragments.drop_last());
        match fragments.last().content {
            Some(c) => rest.push(c@),
            None => rest,
        }
    }
}

/// The composition of `fragments`: rendered in ascending priority and joined
/// by blank lines.
pub open spec fn composed(fragments: Seq<Fragment>) -> Seq<char> {
    join(rendered(by_priority(fragments)), "\n\n"@)
}

proof fn lemma_priority_position(sorted: Seq<Fragment>, p: i32, i: int)
    requires
        0 <= i <= sorted.len(),
        forall|j: int| 0 <= j < i ==> (#[trigger] sorted[j]).priority < p,
    ensures
        priority_position(sorted, p) == i + priority_position(sorted.skip(i), p),
    decreases i,
{
    if i > 0 {
        assert(sorted.drop_first().skip(i - 1) =~= sorted.skip(i));
        assert forall|j: int| 0 <= j < i - 1 implies (#[trigger] sorted.drop_first()[j]).priority
            < p by {
            assert(sorted.drop_first()[j] == sorted[j + 1]);
        }
        lemma_priority_position(sorted.drop_first(), p, i - 1);
    } else {
        assert(sorted.skip(0) =~= sorted);
    }
}

/// Orders fragments by ascending priority, stably.
pub fn sort_by_priority(fragments: Vec<Fragment>) -> (r: Vec<Fragment>)
    ensures
        r@ == by_priority(fragments@),
{
    let ghost given = fragments@;
    let mut input = fragments;
    let mut sorted: Vec<Fragment> = Vec::new();
    assert(given.skip(given.len() as int) =~= Seq::<Fragment>::empty());
    while input.len() > 0
        invariant
            input@ == given.take(input@.len() as int),
            input@.len() <= given.len(),
            sorted@ == by_priority(given.skip(input@.len() as int)),
        decreases input@.len(),
    {
        let k = input.len();
        let x = input.pop().unwrap();
        proof {
            let tail = given.skip(k - 1);
            assert(tail.drop_first() =~= given.skip(k as int));
            assert(tail[0] == x);
            assert(input@ =~= given.take(k - 1));
        }
        let mut pos: usize = 0;
        while pos < sorted.len() && sorted[pos].priority < x.priority
            invariant
                pos <= sorted@.len(),
                forall|j: int| 0 <= j < pos ==> (#[trigger] sorted@[j]).priority < x.priority,
            decreases sorted@.len() - pos,
        {
            pos = pos + 1;
        }
        proof {
            lemma_priority_position(sorted@, x.priority, pos as int);
            if pos < sorted@.len() {
                assert(sorted@.skip(pos as int)[0] == sorted@[pos as int]);
            }
        }
        let ghost before = sorted@;
        sorted.insert(pos, x);
        proof {
            assert(sorted@ =~= before.take(pos as int) + seq![x] + before.skip(pos as int));
        }
    }
    assert(given.skip(0) =~= given);
    sorted
}

/// Renders `fragments` in ascending priority and joins them with blank lines.
pub fn compose_fragments(fragments: Vec<Fragment>) -> (r: String)
    ensures
        r@ == composed(fragments@),
{
    let sorted = sort_by_priority(fragments);
    let mut r = String::new();
    let mut any = false;
    let mut i: usize = 0;
    while i < sorted.len()
        invariant
            i <= sorted@.len(),
            r@ == join(rendered(sorted@.take(i as int)), "\n\n"@),
            any == (rendered(sorted@.take(i as int)).len() > 0),
        decreases sorted@.len() - i,
    {
        let ghost prev = rendered(sorted@.take(i as int));
        let ghost t = sorted@.take(i + 1);
        assert(t.drop_last() =~= sorted@.take(i as int));
        match &sorted[i].content {
            Some(c) => {
                if any {
                    r.append("\n\n");
                }
                r.append(c.as_str());
                any = true;
                proof {
                    let cur = prev.push(c@);
                    assert(cur.drop_last() =~= prev);
                    assert(rendered(t) == cur);
                    if prev.len() == 0 {
                        assert(r@ =~= join(cur, "\n\n"@));
                    } else {
                        assert(r@ =~= join(cur, "\n\n"@));
                    }
                }
            },
            None => {
                assert(rendered(t) == prev);
            },
        }
        i = i + 1;
    }
    assert(sorted@.take(sorted@.len() as int) =~= sorted@);
    r
}

/// The first position where `pat` occurs in `s`, if any.
pub open spec fn occurs_at(s: Seq<char>, pat: Seq<char>, i: int) -> bool {
    0 <= i && i + pat.len() <= s.len() && s.subrange(i, i + pat.len()) == pat
}

/// `s` with the first occurrence of `pat` replaced by `with` (as
/// `str::replacen(pat, with, 1)` does for a non-empty `pat`).
pub open spec fn replace_first(s: Seq<char>, pat: Seq<char>, with: Seq<char>) -> Seq<char> {
    if exists|i: int| occurs_at(s, pat, i) {
        let i = choose|i: int| occurs_at(s, pat, i) && forall|j: int| 0 <= j < i ==> !occurs_at(s, pat, j);
        s.take(i) + with + s.skip(i + pat.len())
    } else {
        s
    }
}

proof fn lemma_first_occurrence(s: Seq<char>, pat: Seq<char>, i: int)
    requires
        occurs_at(s, pat, i),
        forall|j: int| 0 <= j < i ==> !occurs_at(s, pat, j),
    ensures
        (choose|k: int| occurs_at(s, pat, k) && forall|j: int| 0 <= j < k ==> !occurs_at(s, pat, j))
            == i,
{
    let k = choose|k: int| occurs_at(s, pat, k) && forall|j: int| 0 <= j < k ==> !occurs_at(s, pat, j);
    assert(occurs_at(s, pat, k) && forall|j: int| 0 <= j < k ==> !occurs_at(s, pat, j));
    if k < i {
        assert(!occurs_at(s, pat, k));
    } else if k > i {
        assert(!occurs_at(s, pat, i));
    }
}

/// Replaces the first occurrence of `pat` in `s` with `with`.
pub fn replace_first_occurrence(s: &str, pat: &str, with: &str) -> (r: String)
    ensures
        r@ == replace_first(s@, pat@, with@),
{
    let sc = chars_of(s);
    let pc = chars_of(pat);
    let mut i: usize = 0;
    while i < sc.len()
        invariant
            i <= sc@.len(),
            sc@ == s@,
            pc@ == pat@,
            forall|j: int| 0 <= j < i ==> !occurs_at(s@, pat@, j),
        decreases sc@.len() - i,
    {
        if chars_match_at(&sc, i, &pc) {
            proof {
                lemma_first_occurrence(s@, pat@, i as int);
            }
            let mut r = string_from_chars(&sc, 0, i);
            r.append(with);
            let rest = string_from_chars(&sc, i + pc.len(), sc.len());
            r.append(rest.as_str());
            proof {
                assert(occurs_at(s@, pat@, i as int));
                assert(s@.take(i as int) =~= s@.subrange(0, i as int));
                assert(s@.skip(i + pat@.len()) =~= s@.subrange(i + pat@.len(), s@.len() as int));
                assert(r@ =~= replace_first(s@, pat@, with@));
            }
            return r;
        }
        i = i + 1;
    }
    proof {
        if exists|k: int| occurs_at(s@, pat@, k) {
            let k = choose|k: int| occurs_at(s@, pat@, k);
            if k == sc@.len() {
                assert(pat@.len() == 0);
                assert(s@.subrange(0, 0) =~= pat@);
                assert(occurs_at(s@, pat@, 0));
                if sc@.len() > 0 {
                    assert(false);
                }
            }
        }
    }
    if pc.len() == 0 {
        let mut r = String::from_str(with);
        r.append(s);
        proof {
            assert(s@.subrange(0, 0) =~= pat@);
            assert(occurs_at(s@, pat@, 0));
            lemma_first_occurrence(s@, pat@, 0);
            assert(s@.skip(0) =~= s@);
            assert(r@ =~= replace_first(s@, pat@, with@));
        }
        return r;
    }
    String::from_str(s)
}

/// `fragment` has the given priority and renders exactly `text`.
pub open spec fn carries(fragment: Fragment, priority: i32, text: Seq<char>) -> bool {
    &&& fragment.priority == priority
    &&& fragment.content is Some
    &&& fragment.content->0@ == text
}

/// Builds a system prompt from the library's fragments and consumer-supplied
/// `extra` fragments (already rendered), with the China network hints when
/// `include_cn`. The memory section is preceded by a `---` separator.
pub fn build_system_prompt_with_fragments(extra: Vec<Fragment>, include_cn: bool) -> (r: String)
    ensures
        exists|all: Seq<Fragment>|
            {
                &&& all.len() == extra@.len() + (if include_cn {
                    3int
                } else {
                    2int
                })
                &&& carries(all[0], 10, CORE_INSTRUCTIONS@)
                &&& include_cn ==> (carries(all[1], 90, NETWORK_ENV_CN@))
                &&& ({
                    let m = if include_cn {
                        2int
                    } else {
                        1int
                    };
                    carries(all[m], 95, MEMORY_INSTRUCTIONS@)
                })
                &&& all.skip(all.len() - extra@.len()) == extra@
                &&& r@ == replace_first(composed(all), MEMORY_HEADING@, SEPARATED_MEMORY_HEADING@)
            },
{
    let mut fragments: Vec<Fragment> = Vec::new();
    fragments.push(CoreInstructionsFragment.fragment());
    if include_cn {
        fragments.push(NetworkEnvironmentFragment.fragment());
    }
    fragments.push(MemoryFragment.fragment());
    let ghost base = fragments@;
    let mut extra = extra;
    let ghost extra_v = extra@;
    fragments.append(&mut extra);
    let ghost all = fragments@;
    let body = compose_fragments(fragments);
    let r = replace_first_occurrence(body.as_str(), MEMORY_HEADING, SEPARATED_MEMORY_HEADING);
    proof {
        assert(all.skip(all.len() - extra_v.len()) =~= extra_v);
        assert(all[0] == base[0]);
        if include_cn {
            assert(all[1] == base[1]);
            assert(all[2] == base[2]);
        } else {
            assert(all[1] == base[1]);
        }
    }
    r
}

/// Builds the general-purpose English system prompt.
pub fn build_system_prompt() -> (r: String)
    ensures
        r@ == replace_first(
            CORE_INSTRUCTIONS@ + "\n\n"@ + MEMORY_INSTRUCTIONS@,
            MEMORY_HEADING@,
            SEPARATED_MEMORY_HEADING@,
        ),
{
    let r = build_system_prompt_with_fragments(Vec::new(), false);
    proof {
        let all = choose|all: Seq<Fragment>|
            {
                &&& all.len() == 0 + 2
                &&& carries(all[0], 10, CORE_INSTRUCTIONS@)
                &&& (false ==> carries(all[1], 90, NETWORK_ENV_CN@))
                &&& carries(all[1], 95, MEMORY_INSTRUCTIONS@)
                &&& all.skip(all.len() - 0) == Seq::<Fragment>::empty()
                &&& r@ == replace_first(composed(all), MEMORY_HEADING@, SEPARATED_MEMORY_HEADING@)
            };
        lemma_composed_pair(all);
    }
    r
}

/// Builds the system prompt for users in mainland China: the network hints
/// come between the core instructions and the memory section.
pub fn build_system_prompt_cn() -> (r: String)
    ensures
        r@ == replace_first(
            CORE_INSTRUCTIONS@ + "\n\n"@ + NETWORK_ENV_CN@ + "\n\n"@ + MEMORY_INSTRUCTIONS@,
            MEMORY_HEADING@,
            SEPARATED_MEMORY_HEADING@,
        ),
{
    let r = build_system_prompt_with_fragments(Vec::new(), true);
    proof {
        let all = choose|all: Seq<Fragment>|
            {
                &&& all.len() == 0 + 3
                &&& carries(all[0], 10, CORE_INSTRUCTIONS@)
                &&& (true ==> carries(all[1], 90, NETWORK_ENV_CN@))
                &&& carries(all[2], 95, MEMORY_INSTRUCTIONS@)
                &&& all.skip(all.len() - 0) == Seq::<Fragment>::empty()
                &&& r@ == replace_first(composed(all), MEMORY_HEADING@, SEPARATED_MEMORY_HEADING@)
            };
        lemma_composed_triple(all);
    }
    r
}

proof fn lemma_composed_pair(all: Seq<Fragment>)
    requires
        all.len() == 2,
        carries(all[0], 10, CORE_INSTRUCTIONS@),
        carries(all[1], 95, MEMORY_INSTRUCTIONS@),
    ensures
        composed(all) == CORE_INSTRUCTIONS@ + "\n\n"@ + MEMORY_INSTRUCTIONS@,
{
    let tail = all.drop_first();
    assert(tail.drop_first() =~= Seq::<Fragment>::empty());
    assert(by_priority(tail.drop_first()) == Seq::<Fragment>::empty());
    assert(priority_position(Seq::<Fragment>::empty(), 95) == 0);
    assert(tail[0] == all[1]);
    assert(by_priority(tail) =~= seq![all[1]]);
    assert(priority_position(seq![all[1]], 10) == 0);
    assert(by_priority(all) =~= seq![all[0], all[1]]);
    let b = seq![all[0], all[1]];
    assert(b.drop_last() =~= seq![all[0]]);
    assert(seq![all[0]].drop_last() =~= Seq::<Fragment>::empty());
    assert(rendered(Seq::<Fragment>::empty()) == Seq::<Seq<char>>::empty());
    assert(rendered(seq![all[0]]) =~= seq![CORE_INSTRUCTIONS@]);
    assert(rendered(b) =~= seq![CORE_INSTRUCTIONS@, MEMORY_INSTRUCTIONS@]);
    let parts = seq![CORE_INSTRUCTIONS@, MEMORY_INSTRUCTIONS@];
    assert(parts.drop_last() =~= seq![CORE_INSTRUCTIONS@]);
    assert(join(seq![CORE_INSTRUCTIONS@], "\n\n"@) == CORE_INSTRUCTIONS@);
    assert(join(parts, "\n\n"@) == CORE_INSTRUCTIONS@ + "\n\n"@ + MEMORY_INSTRUCTIONS@);
    assert(composed(all) == join(parts, "\n\n"@));
}

proof fn lemma_composed_triple(all: Seq<Fragment>)
    requires
        all.len() == 3,
        carries(all[0], 10, CORE_INSTRUCTIONS@),
        carries(all[1], 90, NETWORK_ENV_CN@),
        carries(all[2], 95, MEMORY_INSTRUCTIONS@),
    ensures
        composed(all) == CORE_INSTRUCTIONS@ + "\n\n"@ + NETWORK_ENV_CN@ + "\n\n"@ + MEMORY_INSTRUCTIONS@,
{
    let t1 = all.drop_first();
    let t2 = t1.drop_first();
    assert(t2 =~= seq![all[2]]);
    assert(t2.drop_first() =~= Seq::<Fragment>::empty());
    assert(by_priority(t2.drop_first()) == Seq::<Fragment>::empty());
    assert(priority_position(Seq::<Fragment>::empty(), 95) == 0);
    assert(by_priority(t2) =~= seq![all[2]]);
    assert(priority_position(seq![all[2]], 90) == 0);
    assert(t1[0] == all[1]);
    assert(by_priority(t1) =~= seq![all[1], all[2]]);
    assert(priority_position(seq![all[1], all[2]], 10) == 0);
    assert(by_priority(all) =~= seq![all[0], all[1], all[2]]);
    let b = seq![all[0], all[1], all[2]];
    assert(b.drop_last() =~= seq![all[0], all[1]]);
    assert(seq![all[0], all[1]].drop_last() =~= seq![all[0]]);
    assert(seq![all[0]].drop_last() =~= Seq::<Fragment>::empty());
    assert(rendered(Seq::<Fragment>::empty()) == Seq::<Seq<char>>::empty());
    assert(rendered(seq![all[0]]) =~= seq![CORE_INSTRUCTIONS@]);
    assert(rendered(seq![all[0], all[1]]) =~= seq![CORE_INSTRUCTIONS@, NETWORK_ENV_CN@]);
    assert(rendered(b) =~= seq![CORE_INSTRUCTIONS@, NETWORK_ENV_CN@, MEMORY_INSTRUCTIONS@]);
    let parts = seq![CORE_INSTRUCTIONS@, NETWORK_ENV_CN@, MEMORY_INSTRUCTIONS@];
    assert(parts.drop_last() =~= seq![CORE_INSTRUCTIONS@, NETWORK_ENV_CN@]);
    assert(seq![CORE_INSTRUCTIONS@, NETWORK_ENV_CN@].drop_last() =~= seq![CORE_INSTRUCTIONS@]);
    assert(join(seq![CORE_INSTRUCTIONS@], "\n\n"@) == CORE_INSTRUCTIONS@);
    assert(join(seq![CORE_INSTRUCTIONS@, NETWORK_ENV_CN@], "\n\n"@) == CORE_INSTRUCTIONS@ + "\n\n"@
        + NETWORK_ENV_CN@);
    assert(join(parts, "\n\n"@) == CORE_INSTRUCTIONS@ + "\n\n"@ + NETWORK_ENV_CN@ + "\n\n"@
        + MEMORY_INSTRUCTIONS@);
    assert(composed(all) == join(parts, "\n\n"@));
}

// ── Laws ──

proof fn lemma_priority_position_bounds(sorted: Seq<Fragment>, p: i32)
    ensures
        priority_position(sorted, p) <= sorted.len(),
        forall|j: int| 0 <= j < priority_position(sorted, p) ==> (#[trigger] sorted[j]).priority < p,
        priority_position(sorted, p) < sorted.len() ==> sorted[priority_position(sorted, p) as int].priority
            >= p,
    decreases sorted.len(),
{
    if sorted.len() > 0 && sorted[0].priority < p {
        lemma_priority_position_bounds(sorted.drop_first(), p);
        assert forall|j: int| 0 <= j < priority_position(sorted, p) implies (#[trigger] sorted[j]).priority
            < p by {
            if j > 0 {
                assert(sorted[j] == sorted.drop_first()[j - 1]);
            }
        }
    }
}

/// The plain system prompt is the fragment-built prompt without extra
/// fragments and without the network hints: any fragments that
/// `build_system_prompt_with_fragments` describes for no extras and no hints
/// compose to what `build_system_prompt` returns.
pub proof fn law_plain_prompt_is_the_fragment_prompt(all: Seq<Fragment>)
    requires
        all.len() == 2,
        carries(all[0], 10, CORE_INSTRUCTIONS@),
        carries(all[1], 95, MEMORY_INSTRUCTIONS@),
    ensures
        replace_first(composed(all), MEMORY_HEADING@, SEPARATED_MEMORY_HEADING@) == replace_first(
            CORE_INSTRUCTIONS@ + "\n\n"@ + MEMORY_INSTRUCTIONS@,
            MEMORY_HEADING@,
            SEPARATED_MEMORY_HEADING@,
        ),
{
    lemma_composed_pair(all);
}

/// Likewise the China prompt is the fragment-built prompt with the network
/// hints and without extra fragments.
pub proof fn law_cn_prompt_is_the_fragment_prompt(all: Seq<Fragment>)
    requires
        all.len() == 3,
        carries(all[0], 10, CORE_INSTRUCTIONS@),
        carries(all[1], 90, NETWORK_ENV_CN@),
        carries(all[2], 95, MEMORY_INSTRUCTIONS@),
    ensures
        replace_first(composed(all), MEMORY_HEADING@, SEPARATED_MEMORY_HEADING@) == replace_first(
            CORE_INSTRUCTIONS@ + "\n\n"@ + NETWORK_ENV_CN@ + "\n\n"@ + MEMORY_INSTRUCTIONS@,
            MEMORY_HEADING@,
            SEPARATED_MEMORY_HEADING@,
        ),
{
    lemma_composed_triple(all);
}

/// Fragments are composed in ascending priority: no fragment comes after
/// one of higher priority.
pub proof fn law_fragments_compose_in_priority_order(fragments: Seq<Fragment>, i: int, j: int)
    requires
        0 <= i < j < fragments.len(),
    ensures
        by_priority(fragments)[i].priority <= by_priority(fragments)[j].priority,
{
    lemma_by_priority_sorted(fragments);
}

proof fn lemma_by_priority_sorted(fragments: Seq<Fragment>)
    ensures
        by_priority(fragments).len() == fragments.len(),
        forall|i: int, j: int|
            0 <= i < j < fragments.len() ==> (#[trigger] by_priority(fragments)[i]).priority <= (
            #[trigger] by_priority(fragments)[j]).priority,
    decreases fragments.len(),
{
    if fragments.len() > 0 {
        let x = fragments[0];
        lemma_by_priority_sorted(fragments.drop_first());
        let rest = by_priority(fragments.drop_first());
        lemma_priority_position_bounds(rest, x.priority);
        let p = priority_position(rest, x.priority) as int;
        let r = rest.take(p) + seq![x] + rest.skip(p);
        assert forall|i: int, j: int| 0 <= i < j < r.len() implies (#[trigger] r[i]).priority <= (
        #[trigger] r[j]).priority by {
            if j < p {
                assert(r[i] == rest[i] && r[j] == rest[j]);
            } else if j == p {
                assert(r[i] == rest[i] && r[j] == x);
            } else if i == p {
                assert(r[i] == x && r[j] == rest[j - 1]);
                if j - 1 > p {
                    assert(rest[p].priority <= rest[j - 1].priority);
                }
            } else if i < p {
                assert(r[i] == rest[i] && r[j] == rest[j - 1]);
            } else {
                assert(r[i] == rest[i - 1] && r[j] == rest[j - 1]);
            }
        }
    }
}

/// Composition keeps every fragment: the ordered fragments are those given.
pub proof fn law_fragments_are_all_kept(fragments: Seq<Fragment>)
    ensures
        by_priority(fragments).to_multiset() == fragments.to_multiset(),
    decreases fragments.len(),
{
    broadcast use vstd::multiset::group_multiset_axioms;
    broadcast use vstd::seq_lib::lemma_multiset_commutative;

    if fragments.len() > 0 {
        let rest = by_priority(fragments.drop_first());
        law_fragments_are_all_kept(fragments.drop_first());
        lemma_priority_position_bounds(rest, fragments[0].priority);
        let p = priority_position(rest, fragments[0].priority) as int;
        let a = rest.take(p);
        let b = rest.skip(p);
        let one = seq![fragments[0]];
        assert(rest =~= a + b);
        assert(fragments =~= one + fragments.drop_first());
        assert(a + one + b =~= a + (one + b));
        assert((a + (one + b)).to_multiset() =~= a.to_multiset().add(one.to_multiset().add(b.to_multiset())));
        assert((a + b).to_multiset() =~= a.to_multiset().add(b.to_multiset()));
        assert((one + fragments.drop_first()).to_multiset() =~= one.to_multiset().add(
            fragments.drop_first().to_multiset(),
        ));
    }
}

} // verus!
