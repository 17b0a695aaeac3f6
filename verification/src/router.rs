//! The team router: the runtime team context, interception of user input,
//! round-robin and selector routing, and the selector prompt.

use vstd::prelude::*;
use vstd::string::StringExecFns;
use crate::agents::ConfigValue;
use crate::agents::ConfigValueView;
use crate::agents::TeamDefinition;
use crate::paths::FsPath;
use crate::paths::PathView;
use crate::pump::EventMsg;
use crate::strmap::StrMap;
use crate::strutil::dec_str;
use crate::strutil::first_non_ws_is;
use crate::strutil::first_non_ws_spec;
use crate::strutil::eq_ignore_ascii_case_str;
use crate::strutil::seq_lower;
use crate::strutil::trim_spec;
use crate::strutil::trim_str;
use crate::strutil::usize_to_string;

verus! {

/// The runtime state attached while the UI is inside a team.
pub struct TeamContext {
    pub name: String,
    pub prompt: Option<String>,
    pub members: Vec<String>,
    pub mode: Option<String>,
    pub next_idx: usize,
    pub turns_taken: usize,
    pub max_turns: Option<usize>,
    pub selector_model: Option<String>,
    pub selector_prompt: Option<String>,
    pub allow_repeated_speaker: bool,
}

impl TeamContext {
    /// The rotation index stays within the member list.
    pub open spec fn wf(&self) -> bool {
        if self.members@.len() > 0 {
            self.next_idx < self.members@.len()
        } else {
            self.next_idx == 0
        }
    }

    /// The fields routing never changes.
    pub open spec fn same_static_fields(&self, other: &TeamContext) -> bool {
        &&& self.name == other.name
        &&& self.prompt == other.prompt
        &&& self.members == other.members
        &&& self.mode == other.mode
        &&& self.max_turns == other.max_turns
        &&& self.selector_model == other.selector_model
        &&& self.selector_prompt == other.selector_prompt
        &&& self.allow_repeated_speaker == other.allow_repeated_speaker
    }
}

/// The `max_turns` a free-form termination table sets: a non-negative
/// integer under the recognized key; anything else is ignored.
pub open spec fn spec_max_turns(t: Map<Seq<char>, ConfigValueView>) -> Option<int> {
    if t.contains_key("max_turns"@) {
        match t["max_turns"@] {
            ConfigValueView::Int(i) => if 0 <= i <= usize::MAX as int {
                Some(i)
            } else {
                None
            },
            _ => None,
        }
    } else {
        None
    }
}

pub fn termination_max_turns(termination: &StrMap<ConfigValue>) -> (r: Option<usize>)
    requires
        termination.wf(),
    ensures
        match r {
            Some(n) => spec_max_turns(termination@) == Some(n as int),
            None => spec_max_turns(termination@) is None,
        },
{
    match termination.get("max_turns") {
        Some(v) => match v {
            ConfigValue::Int(i) => {
                if *i >= 0 && *i as u64 <= usize::MAX as u64 {
                    Some(*i as usize)
                } else {
                    None
                }
            },
            _ => None,
        },
        None => None,
    }
}

/// A string value a free-form table binds under a key, if any.
pub open spec fn spec_str_setting(t: Map<Seq<char>, ConfigValueView>, key: Seq<char>) -> Option<
    Seq<char>,
> {
    if t.contains_key(key) {
        match t[key] {
            ConfigValueView::Str(s) => Some(s),
            _ => None,
        }
    } else {
        None
    }
}

/// A boolean value a free-form table binds under a key, defaulting to false.
pub open spec fn spec_bool_setting(t: Map<Seq<char>, ConfigValueView>, key: Seq<char>) -> bool {
    if t.contains_key(key) {
        match t[key] {
            ConfigValueView::Bool(b) => b,
            _ => false,
        }
    } else {
        false
    }
}

fn str_setting(table: &StrMap<ConfigValue>, key: &str) -> (r: Option<String>)
    requires
        table.wf(),
    ensures
        r.deep_view() == spec_str_setting(table@, key@),
{
    match table.get(key) {
        Some(v) => match v {
            ConfigValue::Str(s) => Some(s.clone()),
            _ => None,
        },
        None => None,
    }
}

/// The recognized selector settings of a team.
pub struct SelectorSettings {
    pub model: Option<String>,
    pub prompt_file: Option<String>,
    pub allow_repeated_speaker: bool,
}

pub fn selector_settings(selector: &StrMap<ConfigValue>) -> (r: SelectorSettings)
    requires
        selector.wf(),
    ensures
        r.model.deep_view() == spec_str_setting(selector@, "model"@),
        r.prompt_file.deep_view() == spec_str_setting(selector@, "prompt_file"@),
        r.allow_repeated_speaker == spec_bool_setting(selector@, "allow_repeated_speaker"@),
{
    let model = str_setting(selector, "model");
    let prompt_file = str_setting(selector, "prompt_file");
    let allow_repeated_speaker = match selector.get("allow_repeated_speaker") {
        Some(v) => match v {
            ConfigValue::Bool(b) => *b,
            _ => false,
        },
        None => false,
    };
    SelectorSettings { model, prompt_file, allow_repeated_speaker }
}

/// Where a selector prompt path, relative to the team file, resolves to;
/// nothing when the team file path has no parent.
pub fn selector_prompt_path(team_file: &FsPath, rel: &FsPath) -> (r: Option<FsPath>)
    ensures
        team_file@.parts.len() == 0 ==> r is None,
        team_file@.parts.len() > 0 ==> (r matches Some(p) && (if rel@.absolute {
            p@ == rel@
        } else {
            p@ == (PathView {
                absolute: team_file@.absolute,
                parts: team_file@.parts.drop_last() + rel@.parts,
            })
        })),
{
    match team_file.parent() {
        None => None,
        Some(parent) => Some(parent.join(rel)),
    }
}

/// The team context created on switching to a team: rotation and turn count
/// start at zero; the recognized termination and selector settings are
/// extracted; the selector prompt is the given file contents.
pub fn new_team_context(
    name: &str,
    team: &TeamDefinition,
    selector_prompt_contents: Option<String>,
) -> (r: TeamContext)
    requires
        team.config.termination.wf(),
        team.config.selector.wf(),
    ensures
        r.wf(),
        r.name@ == name@,
        r.prompt == team.prompt,
        r.members@ == team.config.members@,
        r.mode == team.config.mode,
        r.next_idx == 0,
        r.turns_taken == 0,
        (match r.max_turns {
            Some(n) => spec_max_turns(team.config.termination@) == Some(n as int),
            None => spec_max_turns(team.config.termination@) is None,
        }),
        r.selector_model.deep_view() == spec_str_setting(team.config.selector@, "model"@),
        r.selector_prompt == selector_prompt_contents,
        r.allow_repeated_speaker == spec_bool_setting(
            team.config.selector@,
            "allow_repeated_speaker"@,
        ),
{
    let settings = selector_settings(&team.config.selector);
    let prompt = match &team.prompt {
        Some(p) => Some(p.clone()),
        None => None,
    };
    let mode = match &team.config.mode {
        Some(m) => Some(m.clone()),
        None => None,
    };
    TeamContext {
        name: String::from_str(name),
        prompt,
        members: crate::paths::clone_parts(&team.config.members),
        mode,
        next_idx: 0,
        turns_taken: 0,
        max_turns: termination_max_turns(&team.config.termination),
        selector_model: settings.model,
        selector_prompt: selector_prompt_contents,
        allow_repeated_speaker: settings.allow_repeated_speaker,
    }
}

/// The default selector prompt.
pub open spec fn spec_default_selector_prompt() -> Seq<char> {
    "You are a team orchestrator. Given the user message and the list of candidates, choose exactly one candidate to handle the next step.\n\nReturn ONLY the candidate name, exactly as shown in the list. No explanations."@
}

/// The candidate lines of the selector prompt, one `- <name>` line each.
pub open spec fn spec_candidates_block(cs: Seq<Seq<char>>) -> Seq<char>
    decreases cs.len(),
{
    if cs.len() == 0 {
        Seq::<char>::empty()
    } else {
        spec_candidates_block(cs.drop_last()) + "- "@ + cs.last() + "\n"@
    }
}

/// The selector prompt, exactly as submitted to the auxiliary session.
pub open spec fn spec_selector_prompt(
    base: Option<Seq<char>>,
    team: Seq<char>,
    cs: Seq<Seq<char>>,
    msg: Seq<char>,
    allow_repeated: bool,
    last: Option<Seq<char>>,
) -> Seq<char> {
    (match base {
        Some(b) => b,
        None => spec_default_selector_prompt(),
    }) + "\n\nTeam: "@ + team + "\nUser Message:\n"@ + msg + "\n\nCandidates:\n"@
        + spec_candidates_block(cs) + "\nPolicy:\n"@ + (if !allow_repeated {
        "- Do not choose the same speaker twice in a row.\n"@ + (match last {
            Some(l) => "- The last speaker was: "@ + l + "\n"@,
            None => Seq::<char>::empty(),
        })
    } else {
        Seq::<char>::empty()
    }) + "\nAnswer with exactly one candidate name from the list above.\n"@
}

/// View of an optional borrowed string slice.
pub open spec fn opt_slice_view(o: Option<&str>) -> Option<Seq<char>> {
    match o {
        Some(s) => Some(s@),
        None => None,
    }
}

/// Builds the prompt for the selector's auxiliary session: the configured or
/// default selector prompt, the team name, the user message, the candidate
/// list, and the repetition policy with the last speaker when known.
pub fn build_selector_prompt(
    team_name: &str,
    candidates: &Vec<String>,
    selector_prompt: Option<&str>,
    user_message: &str,
    allow_repeated: bool,
    last_speaker: Option<&str>,
) -> (r: String)
    ensures
        r@ == spec_selector_prompt(
            opt_slice_view(selector_prompt),
            team_name@,
            candidates.deep_view(),
            user_message@,
            allow_repeated,
            opt_slice_view(last_speaker),
        ),
{
    let mut out = match selector_prompt {
        Some(b) => String::from_str(b),
        None => String::from_str(
            "You are a team orchestrator. Given the user message and the list of candidates, choose exactly one candidate to handle the next step.\n\nReturn ONLY the candidate name, exactly as shown in the list. No explanations.",
        ),
    };
    out.append("\n\nTeam: ");
    out.append(team_name);
    out.append("\nUser Message:\n");
    out.append(user_message);
    out.append("\n\nCandidates:\n");
    let n = candidates.len();
    let mut i: usize = 0;
    let ghost head = out@;
    proof {
        assert(candidates.deep_view().take(0) =~= Seq::<Seq<char>>::empty());
    }
    while i < n
        invariant
            i <= n,
            n == candidates@.len(),
            out@ == head + spec_candidates_block(candidates.deep_view().take(i as int)),
        decreases n - i,
    {
        out.append("- ");
        out.append(candidates[i].as_str());
        out.append("\n");
        proof {
            let cs = candidates.deep_view();
            assert(cs.take(i as int + 1).drop_last() =~= cs.take(i as int));
            assert(cs.take(i as int + 1).last() == cs[i as int]);
            assert(cs[i as int] == candidates@[i as int]@);
        }
        i = i + 1;
    }
    proof {
        assert(candidates.deep_view().take(n as int) =~= candidates.deep_view());
    }
    out.append("\nPolicy:\n");
    if !allow_repeated {
        out.append("- Do not choose the same speaker twice in a row.\n");
        match last_speaker {
            Some(last) => {
                out.append("- The last speaker was: ");
                out.append(last);
                out.append("\n");
            },
            None => {},
        }
    }
    out.append("\nAnswer with exactly one candidate name from the list above.\n");
    out
}

/// The last speaker a round-robin state implies: the member before the next
/// one in rotation, when there are members.
pub open spec fn spec_last_speaker(members: Seq<Seq<char>>, next_idx: int) -> Option<Seq<char>> {
    if members.len() == 0 {
        None
    } else if next_idx == 0 {
        Some(members[members.len() - 1])
    } else {
        Some(members[next_idx - 1])
    }
}

/// What the router decides for one intercepted user input.
#[derive(Debug)]
pub enum RouteAction {
    /// Not intercepted: the input goes to the chat widget unchanged.
    Forward,
    /// The turn limit is reached: an informational line, no dispatch.
    Blocked(String),
    /// Selector mode without a configured model: an informational line.
    SelectorUnconfigured(String),
    /// Run the selector's auxiliary session with this model and prompt.
    RunSelector { model: String, prompt: String },
    /// A round-robin team without members: an informational line.
    NoMembers(String),
    /// Dispatch to this member with the user's text as initial prompt.
    Dispatch { name: String, initial_prompt: String },
}

/// Whether a text starts (after whitespace) with the explicit tag marker.
pub open spec fn spec_is_tagged(text: Seq<char>) -> bool {
    first_non_ws_spec(text) == Some('@')
}

/// Whether the mode names the selector, ASCII-case-insensitively; an absent
/// mode means round robin.
pub open spec fn spec_mode_is_selector(mode: Option<Seq<char>>) -> bool {
    match mode {
        Some(m) => seq_lower(m) == seq_lower("selector"@),
        None => false,
    }
}

/// Whether the turn limit is reached.
pub open spec fn spec_limit_reached(max_turns: Option<usize>, turns_taken: usize) -> bool {
    match max_turns {
        Some(k) => turns_taken >= k,
        None => false,
    }
}

/// Routes one user input within a team context. An explicit tag bypasses
/// routing entirely; a reached turn limit blocks; selector mode runs the
/// auxiliary selector; otherwise the next member in rotation is dispatched
/// and the rotation advances.
pub fn route_user_input(tc: &mut TeamContext, text: &String) -> (r: RouteAction)
    requires
        old(tc).wf(),
        old(tc).turns_taken < usize::MAX,
    ensures
        final(tc).wf(),
        final(tc).same_static_fields(old(tc)),
        spec_is_tagged(text@) ==> (r is Forward && *final(tc) == *old(tc)),
        (!spec_is_tagged(text@) && spec_limit_reached(old(tc).max_turns, old(tc).turns_taken))
            ==> (r matches RouteAction::Blocked(msg) && msg@ == "Team '"@ + old(tc).name@
            + "' reached max_turns="@ + dec_str(old(tc).max_turns->0 as nat) && *final(tc) == *old(tc)),
        (!spec_is_tagged(text@) && !spec_limit_reached(old(tc).max_turns, old(tc).turns_taken)
            && spec_mode_is_selector(old(tc).mode.deep_view()) && old(tc).selector_model is None)
            ==> (r matches RouteAction::SelectorUnconfigured(msg) && msg@
            == "Selector model not configured for team"@ && *final(tc) == *old(tc)),
        (!spec_is_tagged(text@) && !spec_limit_reached(old(tc).max_turns, old(tc).turns_taken)
            && spec_mode_is_selector(old(tc).mode.deep_view()) && old(tc).selector_model is Some)
            ==> (match r {
            RouteAction::RunSelector { model, prompt } => {
                &&& Some(model@) == old(tc).selector_model.deep_view()
                &&& prompt@ == spec_selector_prompt(
                    old(tc).selector_prompt.deep_view(),
                    old(tc).name@,
                    old(tc).members.deep_view(),
                    text@,
                    old(tc).allow_repeated_speaker,
                    spec_last_speaker(old(tc).members.deep_view(), old(tc).next_idx as int),
                )
                &&& *final(tc) == *old(tc)
            },
            _ => false,
        }),
        (!spec_is_tagged(text@) && !spec_limit_reached(old(tc).max_turns, old(tc).turns_taken)
            && !spec_mode_is_selector(old(tc).mode.deep_view()) && old(tc).members@.len() == 0)
            ==> (r matches RouteAction::NoMembers(msg) && msg@ == "Team has no members"@ && *final(tc) == *old(tc)),
        (!spec_is_tagged(text@) && !spec_limit_reached(old(tc).max_turns, old(tc).turns_taken)
            && !spec_mode_is_selector(old(tc).mode.deep_view()) && old(tc).members@.len() > 0)
            ==> (match r {
            RouteAction::Dispatch { name, initial_prompt } => {
                &&& name@ == old(tc).members.deep_view()[old(tc).next_idx as int]
                &&& initial_prompt@ == text@
                &&& final(tc).next_idx == (old(tc).next_idx + 1) as int % old(tc).members@.len() as int
                &&& final(tc).turns_taken == old(tc).turns_taken + 1
            },
            _ => false,
        }),
{
    if first_non_ws_is(text.as_str(), '@') {
        return RouteAction::Forward;
    }
    match tc.max_turns {
        Some(limit) => {
            if tc.turns_taken >= limit {
                let mut msg = String::from_str("Team '");
                msg.append(tc.name.as_str());
                msg.append("' reached max_turns=");
                let k = usize_to_string(limit);
                msg.append(k.as_str());
                return RouteAction::Blocked(msg);
            }
        },
        None => {},
    }
    let is_selector = match &tc.mode {
        Some(m) => eq_ignore_ascii_case_str(m.as_str(), "selector"),
        None => false,
    };
    if is_selector {
        let model = match &tc.selector_model {
            Some(m) => m.clone(),
            None => {
                return RouteAction::SelectorUnconfigured(
                    String::from_str("Selector model not configured for team"),
                );
            },
        };
        let last_idx: usize = if tc.next_idx == 0 {
            if tc.members.len() == 0 {
                0
            } else {
                tc.members.len() - 1
            }
        } else {
            tc.next_idx - 1
        };
        let last_speaker: Option<&str> = if last_idx < tc.members.len() {
            Some(tc.members[last_idx].as_str())
        } else {
            None
        };
        let selector_prompt: Option<&str> = match &tc.selector_prompt {
            Some(p) => Some(p.as_str()),
            None => None,
        };
        let prompt = build_selector_prompt(
            tc.name.as_str(),
            &tc.members,
            selector_prompt,
            text.as_str(),
            tc.allow_repeated_speaker,
            last_speaker,
        );
        return RouteAction::RunSelector { model, prompt };
    }
    if tc.members.len() == 0 {
        return RouteAction::NoMembers(String::from_str("Team has no members"));
    }
    let idx = tc.next_idx % tc.members.len();
    proof {
        assert(old(tc).next_idx < old(tc).members@.len());
        vstd::arithmetic::div_mod::lemma_small_mod(
            old(tc).next_idx as nat,
            old(tc).members@.len() as nat,
        );
        assert(idx == old(tc).next_idx);
        assert(tc.members.deep_view()[idx as int] == tc.members@[idx as int]@);
    }
    let member = tc.members[idx].clone();
    tc.next_idx = (tc.next_idx + 1) % tc.members.len();
    tc.turns_taken = tc.turns_taken + 1;
    RouteAction::Dispatch { name: member, initial_prompt: text.clone() }
}

/// The selector's choice: the trimmed text of the first agent message in the
/// auxiliary session's events, if any.
pub open spec fn spec_first_agent_message(events: Seq<EventMsg>) -> Option<Seq<char>>
    decreases events.len(),
{
    if events.len() == 0 {
        None
    } else {
        match events[0] {
            EventMsg::AgentMessage(m) => Some(m@),
            _ => spec_first_agent_message(events.skip(1)),
        }
    }
}

pub fn selector_choice(events: &Vec<EventMsg>) -> (r: Option<String>)
    ensures
        match spec_first_agent_message(events@) {
            Some(m) => (r matches Some(c) && c@ == trim_spec(m)),
            None => r is None,
        },
{
    let n = events.len();
    let mut i: usize = 0;
    proof {
        assert(events@.skip(0) =~= events@);
    }
    while i < n
        invariant
            i <= n,
            n == events@.len(),
            spec_first_agent_message(events@) == spec_first_agent_message(events@.skip(i as int)),
        decreases n - i,
    {
        proof {
            assert(events@.skip(i as int)[0] == events@[i as int]);
            assert(events@.skip(i as int).skip(1) =~= events@.skip(i as int + 1));
        }
        match &events[i] {
            EventMsg::AgentMessage(m) => {
                return Some(trim_str(m.as_str()));
            },
            _ => {},
        }
        i = i + 1;
    }
    None
}

/// The auxiliary selector session's configuration: the base configuration
/// with only the model replaced by the selector model.
pub fn selector_config(base: crate::config::Config, model: String) -> (r: crate::config::Config)
    ensures
        r.model == model,
        r.model_provider_id == base.model_provider_id,
        r.model_provider == base.model_provider,
        r.model_providers == base.model_providers,
        r.approval_policy == base.approval_policy,
        r.sandbox_mode == base.sandbox_mode,
        r.cwd == base.cwd,
        r.base_instructions == base.base_instructions,
        r.include_plan_tool == base.include_plan_tool,
        r.include_apply_patch_tool == base.include_apply_patch_tool,
        r.mcp_servers == base.mcp_servers,
        r.preferred_auth_method == base.preferred_auth_method,
{
    let mut cfg = base;
    cfg.model = model;
    cfg
}

/// The line rendered when the selector returns no choice.
pub fn selector_no_choice_message() -> (r: String)
    ensures
        r@ == "Selector returned no choice"@,
{
    String::from_str("Selector returned no choice")
}

/// The member index round robin picks for the t-th routed message after a
/// state whose next index is `i0`, in a team of `k` members: selection is
/// deterministic given the rotation index.
pub open spec fn rr_pick(i0: int, k: int, t: int) -> int {
    (i0 + t) % k
}

/// How many of the first `n` routed messages the member at index `j`
/// handles.
pub open spec fn rr_count(i0: int, k: int, j: int, n: nat) -> nat
    decreases n,
{
    if n == 0 {
        0nat
    } else {
        rr_count(i0, k, j, (n - 1) as nat) + (if rr_pick(i0, k, n - 1) == j {
            1nat
        } else {
            0nat
        })
    }
}

/// How many messages pass before the rotation first reaches `j` from `i0`.
pub open spec fn rr_delay(i0: int, k: int, j: int) -> int {
    if j >= i0 {
        j - i0
    } else {
        j - i0 + k
    }
}

/// The rotation reaches `j` exactly at offsets congruent to its delay.
proof fn lemma_rr_pick_is_delay(i0: int, k: int, j: int, t: int)
    requires
        0 <= i0 < k,
        0 <= j < k,
        0 <= t,
    ensures
        (rr_pick(i0, k, t) == j) <==> (t % k == rr_delay(i0, k, j)),
{
    let e = t % k;
    vstd::arithmetic::div_mod::lemma_mod_bound(t, k);
    vstd::arithmetic::div_mod::lemma_fundamental_div_mod(t, k);
    vstd::arithmetic::div_mod::lemma_mod_multiples_vanish(t / k, i0 + e, k);
    assert(i0 + t == k * (t / k) + (i0 + e));
    assert((i0 + t) % k == (i0 + e) % k);
    if i0 + e < k {
        vstd::arithmetic::div_mod::lemma_small_mod((i0 + e) as nat, k as nat);
        assert((i0 + e) % k == i0 + e);
    } else {
        vstd::arithmetic::div_mod::lemma_mod_multiples_vanish(1, i0 + e - k, k);
        vstd::arithmetic::div_mod::lemma_small_mod((i0 + e - k) as nat, k as nat);
        assert((i0 + e) % k == i0 + e - k);
    }
}

/// Closed form of the selection count: full cycles, plus one when the
/// remainder reaches past the member's delay.
proof fn lemma_rr_count_closed(i0: int, k: int, j: int, n: nat)
    requires
        0 <= i0 < k,
        0 <= j < k,
    ensures
        rr_count(i0, k, j, n) == n as int / k + if rr_delay(i0, k, j) < n as int % k {
            1int
        } else {
            0int
        },
    decreases n,
{
    let d = rr_delay(i0, k, j);
    if n == 0 {
        vstd::arithmetic::div_mod::lemma_small_mod(0, k as nat);
        assert(0int / k == 0) by {
            vstd::arithmetic::div_mod::lemma_basic_div(0, k);
        }
    } else {
        let m = (n - 1) as nat;
        lemma_rr_count_closed(i0, k, j, m);
        lemma_rr_pick_is_delay(i0, k, j, m as int);
        vstd::arithmetic::div_mod::lemma_mod_bound(m as int, k);
        vstd::arithmetic::div_mod::lemma_fundamental_div_mod(m as int, k);
        let q = m as int / k;
        let r = m as int % k;
        if r + 1 < k {
            vstd::arithmetic::div_mod::lemma_fundamental_div_mod_converse(n as int, k, q, r + 1);
        } else {
            assert(n as int == (q + 1) * k + 0) by (nonlinear_arith)
                requires
                    n as int == m as int + 1,
                    m as int == q * k + r,
                    r + 1 == k,
            ;
            vstd::arithmetic::div_mod::lemma_fundamental_div_mod_converse(n as int, k, q + 1, 0);
        }
    }
}

/// Round-robin fairness: over `n` consecutive routed messages in a team of
/// `k` members, each member is selected either `n / k` times (rounded down)
/// or `(n + k - 1) / k` times (rounded up), and which member handles the
/// t-th message is `rr_pick`, determined by the rotation index alone.
pub proof fn lemma_round_robin_fairness(i0: int, k: int, j: int, n: nat)
    requires
        0 <= i0 < k,
        0 <= j < k,
    ensures
        rr_count(i0, k, j, n) == n as int / k || rr_count(i0, k, j, n) == (n as int + k - 1) / k,
        n as int / k <= rr_count(i0, k, j, n) <= (n as int + k - 1) / k,
{
    lemma_rr_count_closed(i0, k, j, n);
    vstd::arithmetic::div_mod::lemma_mod_bound(n as int, k);
    vstd::arithmetic::div_mod::lemma_fundamental_div_mod(n as int, k);
    let q = n as int / k;
    let r = n as int % k;
    if r == 0 {
        assert(n as int + k - 1 == q * k + (k - 1)) by (nonlinear_arith)
            requires
                n as int == q * k + r,
                r == 0,
        ;
        vstd::arithmetic::div_mod::lemma_fundamental_div_mod_converse(n as int + k - 1, k, q, k - 1);
    } else {
        assert(n as int + k - 1 == (q + 1) * k + (r - 1)) by (nonlinear_arith)
            requires
                n as int == q * k + r,
        ;
        vstd::arithmetic::div_mod::lemma_fundamental_div_mod_converse(
            n as int + k - 1,
            k,
            q + 1,
            r - 1,
        );
    }
}

/// Rotation advance matches the pick sequence: advancing the index after
/// the t-th pick lands on the (t+1)-th pick.
pub proof fn lemma_rr_succession(i0: int, k: int, t: int)
    requires
        0 <= i0 < k,
        0 <= t,
    ensures
        (rr_pick(i0, k, t) + 1) % k == rr_pick(i0, k, t + 1),
{
    vstd::arithmetic::div_mod::lemma_mod_bound(i0 + t, k);
    vstd::arithmetic::div_mod::lemma_fundamental_div_mod(i0 + t, k);
    vstd::arithmetic::div_mod::lemma_mod_multiples_vanish(
        (i0 + t) / k,
        (i0 + t) % k + 1,
        k,
    );
    assert(i0 + t + 1 == k * ((i0 + t) / k) + ((i0 + t) % k + 1));
}

} // verus!

