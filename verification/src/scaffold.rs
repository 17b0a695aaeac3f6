//! Contents of the sample project configuration tree that initialization
//! writes: a minimal agent, a selector-mode team containing it, and a sample
//! workflow with a team step followed by an agent step. An existing
//! configuration directory is never overwritten.

use vstd::prelude::*;
use vstd::string::StringExecFns;

verus! {

/// The project configuration file, pinning the current model.
pub fn project_config_contents(model: &str) -> (r: String)
    ensures
        r@ == "# Project-scoped Codex config\nmodel = \""@ + model@ + "\"\n"@,
{
    let mut s = String::from_str("# Project-scoped Codex config\nmodel = \"");
    s.append(model);
    s.append("\"\n");
    s
}

/// The project-level prompt.
pub fn project_prompt_contents() -> (r: String)
    ensures
        r@ == "You are Codex for this project. Be concise, direct, and safe."@,
{
    String::from_str("You are Codex for this project. Be concise, direct, and safe.")
}

/// The sample agent's configuration.
pub fn agent_config_contents(model: &str) -> (r: String)
    ensures
        r@ == "name = \"dev\"\nrole = \"General developer\"\nmodel = \""@ + model@
            + "\"\ninclude_plan_tool = true\n"@,
{
    let mut s = String::from_str("name = \"dev\"\nrole = \"General developer\"\nmodel = \"");
    s.append(model);
    s.append("\"\ninclude_plan_tool = true\n");
    s
}

/// The sample agent's prompt.
pub fn agent_prompt_contents() -> (r: String)
    ensures
        r@ == "You are the Dev agent. Be practical and terse."@,
{
    String::from_str("You are the Dev agent. Be practical and terse.")
}

/// The sample team: selector mode, with the sample agent as only member.
pub fn team_config_contents(model: &str) -> (r: String)
    ensures
        r@ == "mode = \"selector\"\n\n[selector]\nmodel = \""@ + model@
            + "\"\nallow_repeated_speaker = false\n\n# Members by agent directory name\nmembers = [\"dev\"]\n"@,
{
    let mut s = String::from_str("mode = \"selector\"\n\n[selector]\nmodel = \"");
    s.append(model);
    s.append(
        "\"\nallow_repeated_speaker = false\n\n# Members by agent directory name\nmembers = [\"dev\"]\n",
    );
    s
}

/// The sample team's prompt.
pub fn team_prompt_contents() -> (r: String)
    ensures
        r@ == "Team prompt: collaborative developer team focusing on execution."@,
{
    String::from_str("Team prompt: collaborative developer team focusing on execution.")
}

/// The sample workflow: a team step, then an agent step.
pub fn sample_workflow_contents() -> (r: String)
    ensures
        r@
            == "name = \"sample\"\ndescription = \"Sample sequential workflow\"\nsteps = [\"plan\", \"implement\"]\n\n[step.plan]\ntype = \"team\"\nid = \"dev-team\"\nprompt = \"Draft a short plan.\"\nmax_turns = 1\n\n[step.implement]\ntype = \"agent\"\nid = \"dev\"\nprompt = \"Implement the plan with concise steps.\"\nmax_turns = 1\n"@,
{
    String::from_str(
        "name = \"sample\"\ndescription = \"Sample sequential workflow\"\nsteps = [\"plan\", \"implement\"]\n\n[step.plan]\ntype = \"team\"\nid = \"dev-team\"\nprompt = \"Draft a short plan.\"\nmax_turns = 1\n\n[step.implement]\ntype = \"agent\"\nid = \"dev\"\nprompt = \"Implement the plan with concise steps.\"\nmax_turns = 1\n",
    )
}

} // verus!
