//! Agent and team definitions: the configuration file schemas, the prompt
//! file resolution rules, and the MCP server merge policy.

use vstd::prelude::*;
use vstd::string::StringExecFns;
use crate::config::ConfigToml;
use crate::config::McpServerConfig;
use crate::config::McpServerView;
use crate::config::clone_mcp_map;
use crate::errors::LoadError;
use crate::paths::FsPath;
use crate::paths::PathView;
use crate::strmap::StrMap;
use crate::strutil::trim_spec;
use crate::strutil::trimmed_nonempty;

verus! {

/// Mathematical value of a free-form configuration value.
pub enum ConfigValueView {
    Str(Seq<char>),
    Int(int),
    Bool(bool),
    Other,
}

/// A value of a free-form configuration table (`termination`, `selector`):
/// the scalar kinds the recognized keys use, everything else opaque.
#[derive(Clone, Debug)]
pub enum ConfigValue {
    Str(String),
    Int(i64),
    Bool(bool),
    Other,
}

impl View for ConfigValue {
    type V = ConfigValueView;

    open spec fn view(&self) -> ConfigValueView {
        match self {
            ConfigValue::Str(s) => ConfigValueView::Str(s@),
            ConfigValue::Int(i) => ConfigValueView::Int(*i as int),
            ConfigValue::Bool(b) => ConfigValueView::Bool(*b),
            ConfigValue::Other => ConfigValueView::Other,
        }
    }
}

/// Per-agent configuration file schema (`config.toml` in the agent's
/// directory).
pub struct AgentConfigToml {
    pub name: Option<String>,
    pub role: Option<String>,
    pub model: Option<String>,
    pub model_provider: Option<String>,
    pub profile: Option<String>,
    pub prompt_file: Option<FsPath>,
    pub include_apply_patch_tool: Option<bool>,
    pub include_plan_tool: Option<bool>,
    pub tags: Vec<String>,
    /// When true, project-level MCP servers are merged in, the agent winning
    /// on conflicts. Default false.
    pub inherit_mcp_from_project: bool,
    /// Inline MCP servers, an alternative to a separate `mcp.toml`.
    pub mcp_servers: StrMap<McpServerConfig>,
}

/// A loaded agent: its directory, its configuration, its resolved prompt and
/// its effective MCP servers after the merge policy.
pub struct AgentDefinition {
    pub dir: FsPath,
    pub config: AgentConfigToml,
    pub prompt: Option<String>,
    pub mcp_servers: StrMap<McpServerConfig>,
}

/// Team configuration file schema (`teams/<name>.toml`).
pub struct TeamConfigToml {
    pub name: Option<String>,
    /// One of `route`, `coordinate`, `collaborate`, `round_robin`,
    /// `selector`; absent means `round_robin`.
    pub mode: Option<String>,
    /// Prompt path; absent means `TEAM.md` next to the team file.
    pub prompt_file: Option<FsPath>,
    pub members: Vec<String>,
    /// Free-form termination table; the recognized key is `max_turns`.
    pub termination: StrMap<ConfigValue>,
    /// Free-form selector table; recognized keys are `model`, `prompt_file`
    /// and `allow_repeated_speaker`.
    pub selector: StrMap<ConfigValue>,
}

/// A loaded team: its file, its configuration and its resolved prompt.
pub struct TeamDefinition {
    pub file: FsPath,
    pub config: TeamConfigToml,
    pub prompt: Option<String>,
}

/// The agent-side MCP table: entries of `mcp.toml` override inline entries
/// with the same name.
pub open spec fn spec_agent_side_mcp(
    inline: Map<Seq<char>, McpServerView>,
    mcp_file: Option<Map<Seq<char>, McpServerView>>,
) -> Map<Seq<char>, McpServerView> {
    match mcp_file {
        Some(f) => inline.union_prefer_right(f),
        None => inline,
    }
}

/// The effective MCP table: the agent side, with project entries added for
/// names the agent side does not bind when inheritance is on.
pub open spec fn spec_effective_mcp(
    inline: Map<Seq<char>, McpServerView>,
    mcp_file: Option<Map<Seq<char>, McpServerView>>,
    inherit: bool,
    project: Map<Seq<char>, McpServerView>,
) -> Map<Seq<char>, McpServerView> {
    let agent_side = spec_agent_side_mcp(inline, mcp_file);
    if inherit {
        project.union_prefer_right(agent_side)
    } else {
        agent_side
    }
}

/// Builds the effective MCP server table for an agent.
pub fn effective_mcp_servers(
    inline: StrMap<McpServerConfig>,
    mcp_file: Option<StrMap<McpServerConfig>>,
    inherit: bool,
    project: StrMap<McpServerConfig>,
) -> (r: StrMap<McpServerConfig>)
    requires
        inline.wf(),
        (mcp_file matches Some(f) ==> f.wf()),
        project.wf(),
    ensures
        r.wf(),
        r@ == spec_effective_mcp(
            inline@,
            match mcp_file {
                Some(f) => Some(f@),
                None => None,
            },
            inherit,
            project@,
        ),
{
    let mut m = inline;
    match mcp_file {
        Some(f) => {
            m.extend_override(f);
        },
        None => {},
    }
    if inherit {
        m.extend_keep(project);
    }
    m
}

/// Same-name collisions resolve agent-side in every case: an entry of the
/// agent side (inline overridden by `mcp.toml`) survives project inheritance
/// unchanged, whether or not inheritance is on.
pub proof fn lemma_mcp_agent_side_wins(
    inline: Map<Seq<char>, McpServerView>,
    mcp_file: Option<Map<Seq<char>, McpServerView>>,
    inherit: bool,
    project: Map<Seq<char>, McpServerView>,
)
    ensures
        forall|k: Seq<char>|
            #[trigger] spec_agent_side_mcp(inline, mcp_file).contains_key(k) ==> spec_effective_mcp(
                inline,
                mcp_file,
                inherit,
                project,
            ).contains_key(k) && spec_effective_mcp(inline, mcp_file, inherit, project)[k]
                == spec_agent_side_mcp(inline, mcp_file)[k],
        match mcp_file {
            Some(f) => forall|k: Seq<char>|
                #[trigger] f.contains_key(k) ==> spec_agent_side_mcp(inline, mcp_file).contains_key(
                    k,
                ) && spec_agent_side_mcp(inline, mcp_file)[k] == f[k],
            None => true,
        },
{
}

/// The directory that holds an agent's files.
pub fn agent_dir(project_dir: &FsPath, name: &str) -> (r: FsPath)
    ensures
        r@.absolute == project_dir@.absolute,
        r@.parts == project_dir@.parts.push("agents"@).push(name@),
{
    project_dir.child("agents").child(name)
}

/// The agent's configuration file.
pub fn agent_config_path(dir: &FsPath) -> (r: FsPath)
    ensures
        r@.absolute == dir@.absolute,
        r@.parts == dir@.parts.push("config.toml"@),
{
    dir.child("config.toml")
}

/// The agent's optional MCP server file.
pub fn agent_mcp_path(dir: &FsPath) -> (r: FsPath)
    ensures
        r@.absolute == dir@.absolute,
        r@.parts == dir@.parts.push("mcp.toml"@),
{
    dir.child("mcp.toml")
}

/// Where an agent's prompt is read from: the configured path, resolved
/// against the agent directory when relative; `AGENTS.md` in the agent
/// directory when none is configured.
pub fn agent_prompt_path(dir: &FsPath, prompt_file: &Option<FsPath>) -> (r: FsPath)
    ensures
        match prompt_file {
            None => r@.absolute == dir@.absolute && r@.parts == dir@.parts.push("AGENTS.md"@),
            Some(p) => if p@.absolute {
                r@ == p@
            } else {
                r@ == (PathView { absolute: dir@.absolute, parts: dir@.parts + p@.parts })
            },
        },
{
    match prompt_file {
        None => dir.child("AGENTS.md"),
        Some(p) => {
            if p.is_relative() {
                dir.join(p)
            } else {
                p.duplicate()
            }
        },
    }
}

/// The prompt derived from a prompt file's contents: trimmed, and absent when
/// the file was absent or nothing remains after trimming.
pub fn prompt_from_contents(contents: Option<String>) -> (r: Option<String>)
    ensures
        match contents {
            None => r is None,
            Some(s) => if trim_spec(s@).len() == 0 {
                r is None
            } else {
                r matches Some(t) && t@ == trim_spec(s@)
            },
        },
{
    match contents {
        None => None,
        Some(s) => trimmed_nonempty(s.as_str()),
    }
}

/// Assembles a loaded agent from its parsed configuration, the contents of
/// its prompt file (when readable), its parsed `mcp.toml` (when present) and
/// the project configuration. The name defaults to the directory name.
pub fn load_agent(
    project_dir: &FsPath,
    name: &str,
    cfg: AgentConfigToml,
    prompt_contents: Option<String>,
    mcp_file: Option<StrMap<McpServerConfig>>,
    project_cfg: ConfigToml,
) -> (r: AgentDefinition)
    requires
        cfg.mcp_servers.wf(),
        (mcp_file matches Some(f) ==> f.wf()),
        project_cfg.mcp_servers.wf(),
    ensures
        r.dir@.absolute == project_dir@.absolute,
        r.dir@.parts == project_dir@.parts.push("agents"@).push(name@),
        match prompt_contents {
            None => r.prompt is None,
            Some(s) => if trim_spec(s@).len() == 0 {
                r.prompt is None
            } else {
                r.prompt matches Some(t) && t@ == trim_spec(s@)
            },
        },
        r.mcp_servers.wf(),
        r.mcp_servers@ == spec_effective_mcp(
            cfg.mcp_servers@,
            match mcp_file {
                Some(f) => Some(f@),
                None => None,
            },
            cfg.inherit_mcp_from_project,
            project_cfg.mcp_servers@,
        ),
        cfg.name is Some ==> r.config.name == cfg.name,
        (r.config.name matches Some(n) && n@ == match cfg.name {
            Some(given) => given@,
            None => name@,
        }),
        r.config.role == cfg.role,
        r.config.model == cfg.model,
        r.config.model_provider == cfg.model_provider,
        r.config.profile == cfg.profile,
        r.config.prompt_file == cfg.prompt_file,
        r.config.include_apply_patch_tool == cfg.include_apply_patch_tool,
        r.config.include_plan_tool == cfg.include_plan_tool,
        r.config.tags == cfg.tags,
        r.config.inherit_mcp_from_project == cfg.inherit_mcp_from_project,
        r.config.mcp_servers@ == cfg.mcp_servers@,
{
    let dir = agent_dir(project_dir, name);
    let prompt = prompt_from_contents(prompt_contents);
    let inline = clone_mcp_map(&cfg.mcp_servers);
    let mcp = effective_mcp_servers(
        inline,
        mcp_file,
        cfg.inherit_mcp_from_project,
        project_cfg.mcp_servers,
    );
    let mut config = cfg;
    if config.name.is_none() {
        config.name = Some(String::from_str(name));
    }
    AgentDefinition { dir, config, prompt, mcp_servers: mcp }
}

/// The file a team is defined in.
pub fn team_file_path(project_dir: &FsPath, name: &str) -> (r: FsPath)
    ensures
        r@.absolute == project_dir@.absolute,
        r@.parts == project_dir@.parts.push("teams"@).push(name@ + ".toml"@),
{
    let mut file_name = String::from_str(name);
    file_name.append(".toml");
    project_dir.child("teams").child(file_name.as_str())
}

/// Where a team's prompt is read from: `TEAM.md` next to the team file when
/// none is configured; a configured absolute path as given; a configured
/// relative path against the team file's parent, failing when the team file
/// path has no parent.
pub fn team_prompt_path(file: &FsPath, prompt_file: &Option<FsPath>) -> (r: Result<
    FsPath,
    LoadError,
>)
    ensures
        match prompt_file {
            None => r matches Ok(p) && p@.absolute == file@.absolute && p@.parts == (if file@.parts.len()
                > 0 {
                file@.parts.drop_last()
            } else {
                file@.parts
            }).push("TEAM.md"@),
            Some(q) => if q@.absolute {
                r matches Ok(p) && p@ == q@
            } else if file@.parts.len() == 0 {
                r matches Err(e) && e is NoParentDir
            } else {
                r matches Ok(p) && p@ == (PathView {
                    absolute: file@.absolute,
                    parts: file@.parts.drop_last() + q@.parts,
                })
            },
        },
{
    match prompt_file {
        None => Ok(file.with_file_name("TEAM.md")),
        Some(q) => {
            if !q.is_relative() {
                Ok(q.duplicate())
            } else {
                match file.parent() {
                    None => Err(LoadError::NoParentDir),
                    Some(parent) => Ok(parent.join(q)),
                }
            }
        },
    }
}

/// Assembles a loaded team from its file, its parsed configuration and the
/// contents of its prompt file (when readable).
pub fn load_team(file: FsPath, cfg: TeamConfigToml, prompt_contents: Option<String>) -> (r:
    TeamDefinition)
    ensures
        r.file == file,
        r.config == cfg,
        match prompt_contents {
            None => r.prompt is None,
            Some(s) => if trim_spec(s@).len() == 0 {
                r.prompt is None
            } else {
                r.prompt matches Some(t) && t@ == trim_spec(s@)
            },
        },
{
    let prompt = prompt_from_contents(prompt_contents);
    TeamDefinition { file, config: cfg, prompt }
}

} // verus!
