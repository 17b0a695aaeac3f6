//! Composition of a per-step session configuration: agent overrides layered
//! atop a base configuration, and the prompt priority rules.

use vstd::prelude::*;
use vstd::string::StringExecFns;
use crate::agents::AgentDefinition;
use crate::config::Config;
use crate::config::clone_mcp_map;
use crate::config::clone_provider_info;

verus! {

/// View of an optional borrowed string.
pub open spec fn opt_str_view(o: Option<&String>) -> Option<Seq<char>> {
    match o {
        Some(s) => Some(s@),
        None => None,
    }
}

/// The prompt priority rule: an explicit step prompt wins; otherwise team and
/// agent prompts joined by a blank line; otherwise whichever is present;
/// otherwise absent.
pub open spec fn spec_merged_prompt(
    step: Option<Seq<char>>,
    team: Option<Seq<char>>,
    agent: Option<Seq<char>>,
) -> Option<Seq<char>> {
    match step {
        Some(p) => Some(p),
        None => match (team, agent) {
            (Some(t), Some(a)) => Some(t + "\n\n"@ + a),
            (Some(t), None) => Some(t),
            (None, Some(a)) => Some(a),
            (None, None) => None,
        },
    }
}

/// The prompt priority table, row by row: the step prompt when present,
/// `<team>`, a blank line and `<agent>` when both are present, the present
/// one of the two otherwise, and absence when none is.
pub proof fn lemma_prompt_merge_priority(
    p: Seq<char>,
    t: Seq<char>,
    a: Seq<char>,
    team: Option<Seq<char>>,
    agent: Option<Seq<char>>,
)
    ensures
        spec_merged_prompt(Some(p), team, agent) == Some(p),
        spec_merged_prompt(None, Some(t), Some(a)) == Some(t + "\n\n"@ + a),
        spec_merged_prompt(None, Some(t), None) == Some(t),
        spec_merged_prompt(None, None, Some(a)) == Some(a),
        spec_merged_prompt(None, None, None) is None,
{
}

/// Joins two prompts with a blank line.
pub fn join_prompts(team: &String, agent: &String) -> (r: String)
    ensures
        r@ == team@ + "\n\n"@ + agent@,
{
    let mut s = team.clone();
    s.append("\n\n");
    s.append(agent.as_str());
    s
}

/// The merged prompt for a step, by the priority rule.
pub fn merged_prompt(step: Option<&String>, team: Option<&String>, agent: Option<&String>) -> (r:
    Option<String>)
    ensures
        r.deep_view() == spec_merged_prompt(
            opt_str_view(step),
            opt_str_view(team),
            opt_str_view(agent),
        ),
{
    match step {
        Some(p) => Some(p.clone()),
        None => match (team, agent) {
            (Some(t), Some(a)) => Some(join_prompts(t, a)),
            (Some(t), None) => Some(t.clone()),
            (None, Some(a)) => Some(a.clone()),
            (None, None) => None,
        },
    }
}

/// The merged prompt as the text submitted to the session: the empty string
/// when no prompt is present.
pub fn derive_step_prompt(step: Option<&String>, team: Option<&String>, agent: Option<&String>) -> (r:
    String)
    ensures
        r@ == match spec_merged_prompt(
            opt_str_view(step),
            opt_str_view(team),
            opt_str_view(agent),
        ) {
            Some(p) => p,
            None => Seq::<char>::empty(),
        },
{
    match merged_prompt(step, team, agent) {
        Some(p) => p,
        None => String::new(),
    }
}

/// A per-step session configuration: the base configuration with the agent's
/// overrides applied in order. A provider id absent from the base provider
/// table leaves the provider fields unchanged. The MCP server table is
/// replaced by the agent's effective table, never merged with the base.
pub fn compose_step_config(
    base: Config,
    agent: &AgentDefinition,
    team_prompt: Option<&String>,
    step_prompt: Option<&String>,
) -> (r: Config)
    requires
        base.wf(),
        agent.mcp_servers.wf(),
    ensures
        r.wf(),
        r.model@ == match agent.config.model {
            Some(m) => m@,
            None => base.model@,
        },
        match agent.config.model_provider {
            Some(pid) => {
                if base.model_providers@.contains_key(pid@) {
                    r.model_provider_id@ == pid@ && r.model_provider@ == base.model_providers@[pid@]
                } else {
                    r.model_provider_id == base.model_provider_id && r.model_provider
                        == base.model_provider
                }
            },
            None => r.model_provider_id == base.model_provider_id && r.model_provider
                == base.model_provider,
        },
        r.include_plan_tool == match agent.config.include_plan_tool {
            Some(v) => v,
            None => base.include_plan_tool,
        },
        r.include_apply_patch_tool == match agent.config.include_apply_patch_tool {
            Some(v) => v,
            None => base.include_apply_patch_tool,
        },
        r.base_instructions.deep_view() == spec_merged_prompt(
            opt_str_view(step_prompt),
            opt_str_view(team_prompt),
            agent.prompt.deep_view(),
        ),
        r.mcp_servers@ == agent.mcp_servers@,
        r.model_providers == base.model_providers,
        r.approval_policy == base.approval_policy,
        r.sandbox_mode == base.sandbox_mode,
        r.cwd == base.cwd,
        r.preferred_auth_method == base.preferred_auth_method,
{
    let mut cfg = base;
    match &agent.config.model {
        Some(m) => {
            cfg.model = m.clone();
        },
        None => {},
    }
    match &agent.config.model_provider {
        Some(pid) => {
            let looked_up = match cfg.model_providers.get(pid.as_str()) {
                Some(info) => Some(clone_provider_info(info)),
                None => None,
            };
            match looked_up {
                Some(info) => {
                    cfg.model_provider_id = pid.clone();
                    cfg.model_provider = info;
                },
                None => {},
            }
        },
        None => {},
    }
    match agent.config.include_plan_tool {
        Some(v) => {
            cfg.include_plan_tool = v;
        },
        None => {},
    }
    match agent.config.include_apply_patch_tool {
        Some(v) => {
            cfg.include_apply_patch_tool = v;
        },
        None => {},
    }
    cfg.base_instructions = merged_prompt(step_prompt, team_prompt, agent.prompt.as_ref());
    cfg.mcp_servers = clone_mcp_map(&agent.mcp_servers);
    cfg
}

} // verus!
