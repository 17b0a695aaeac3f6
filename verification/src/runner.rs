//! The headless workflow runner's decisions: its argument model, the
//! headless configuration overrides, team-step resolution and the lines it
//! prints.

use vstd::prelude::*;
use vstd::string::StringExecFns;
use crate::config::AskForApproval;
use crate::config::Config;
use crate::config::SandboxMode;
use crate::errors::LoadError;
use crate::paths::FsPath;
use crate::strutil::dec_str;
use crate::strutil::usize_to_string;
use crate::workflows::StepKind;

verus! {

/// Arguments of a workflow run.
pub struct WorkflowRunArgs {
    /// Workflow name: the file stem under the project's workflow directory.
    pub name: String,
    /// Emit the last message as one JSON line instead of plain text.
    pub json: bool,
    /// Write the last agent message to this file.
    pub last_message_file: Option<FsPath>,
    /// Working directory for the session and for project discovery.
    pub cwd: Option<FsPath>,
    /// Sandboxed automatic execution.
    pub full_auto: bool,
    /// Skip confirmations and sandboxing.
    pub dangerously_bypass_approvals_and_sandbox: bool,
    /// Configuration profile supplying defaults.
    pub config_profile: Option<String>,
}

/// The workflow subcommands.
pub enum WorkflowSubcommand {
    Run(WorkflowRunArgs),
}

/// The sandbox mode a headless run forces, if any: sandboxed automatic
/// execution wins over the bypass flag; with neither flag the base setting
/// stays.
pub open spec fn spec_headless_sandbox(
    base: SandboxMode,
    full_auto: bool,
    bypass: bool,
) -> SandboxMode {
    if full_auto {
        SandboxMode::WorkspaceWrite
    } else if bypass {
        SandboxMode::DangerFullAccess
    } else {
        base
    }
}

/// The base configuration of a headless run: approvals are never asked for,
/// and the sandbox mode follows the flags. Everything else stays.
pub fn headless_base_config(base: Config, full_auto: bool, bypass: bool) -> (r: Config)
    ensures
        r.approval_policy == AskForApproval::Never,
        r.sandbox_mode == spec_headless_sandbox(base.sandbox_mode, full_auto, bypass),
        r.model == base.model,
        r.model_provider_id == base.model_provider_id,
        r.model_provider == base.model_provider,
        r.model_providers == base.model_providers,
        r.cwd == base.cwd,
        r.base_instructions == base.base_instructions,
        r.include_plan_tool == base.include_plan_tool,
        r.include_apply_patch_tool == base.include_apply_patch_tool,
        r.mcp_servers == base.mcp_servers,
        r.preferred_auth_method == base.preferred_auth_method,
{
    let mut cfg = base;
    cfg.approval_policy = AskForApproval::Never;
    if full_auto {
        cfg.sandbox_mode = SandboxMode::WorkspaceWrite;
    } else if bypass {
        cfg.sandbox_mode = SandboxMode::DangerFullAccess;
    }
    cfg
}

/// The member a team step runs as: the first member; a team without members
/// fails.
pub fn first_team_member(members: &Vec<String>, step_id: &str) -> (r: Result<String, LoadError>)
    ensures
        members@.len() == 0 ==> (r matches Err(e) && e matches LoadError::TeamHasNoMembers(n)
            && n@ == step_id@),
        members@.len() > 0 ==> (r matches Ok(m) && m@ == members.deep_view()[0]),
{
    if members.len() == 0 {
        Err(LoadError::TeamHasNoMembers(String::from_str(step_id)))
    } else {
        Ok(members[0].clone())
    }
}

/// The word a step kind prints as.
pub fn step_kind_word(kind: StepKind) -> (r: &'static str)
    ensures
        r@ == match kind {
            StepKind::Agent => "agent"@,
            StepKind::Team => "team"@,
        },
{
    match kind {
        StepKind::Agent => "agent",
        StepKind::Team => "team",
    }
}

/// The banner printed before step `idx` (zero-based) of `total`.
pub fn step_banner(idx: usize, total: usize, kind: StepKind, id: &str) -> (r: String)
    requires
        idx < total,
    ensures
        r@ == "--- Step "@ + dec_str((idx + 1) as nat) + "/"@ + dec_str(total as nat) + ": "@
            + (match kind {
            StepKind::Agent => "agent"@,
            StepKind::Team => "team"@,
        }) + " "@ + id@,
{
    let mut s = String::from_str("--- Step ");
    let number = usize_to_string(idx + 1);
    s.append(number.as_str());
    s.append("/");
    let of = usize_to_string(total);
    s.append(of.as_str());
    s.append(": ");
    s.append(step_kind_word(kind));
    s.append(" ");
    s.append(id);
    s
}

/// The line printed when a workflow has no steps.
pub fn no_steps_message(name: &str) -> (r: String)
    ensures
        r@ == "Workflow '"@ + name@ + "' has no steps"@,
{
    let mut s = String::from_str("Workflow '");
    s.append(name);
    s.append("' has no steps");
    s
}

/// The line printed when no project configuration directory is discovered.
pub fn no_project_dir_message() -> (r: String)
    ensures
        r@ == "No project .codex/ directory discovered (use -C to set working dir)"@,
{
    String::from_str("No project .codex/ directory discovered (use -C to set working dir)")
}

/// The JSON string literal serde_json encodes a string slice to. The result
/// depends on the characters alone.
pub uninterp spec fn json_string_of(s: Seq<char>) -> Seq<char>;

/// Relies on serde_json::to_string on a string slice: the JSON string
/// literal for the slice. Serializing a string slice cannot fail.
#[verifier::external_body]
fn json_encode_str(s: &str) -> (r: String)
    ensures
        r@ == json_string_of(s@),
{
    match serde_json::to_string(s) {
        Ok(j) => j,
        Err(_) => String::new(),
    }
}

/// The single JSON line a run emits for the last agent message.
pub fn json_last_message_line(text: &str) -> (r: String)
    ensures
        r@ == "{\"type\":\"last_message\",\"text\":"@ + json_string_of(text@) + "}"@,
{
    let mut s = String::from_str("{\"type\":\"last_message\",\"text\":");
    let encoded = json_encode_str(text);
    s.append(encoded.as_str());
    s.append("}");
    s
}

} // verus!
