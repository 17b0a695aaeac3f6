//! The session configuration model: the fields of a session `Config` that the
//! orchestration logic reads or writes, with the provider and MCP server
//! tables as string-keyed maps.

use vstd::prelude::*;
use crate::login::AuthMode;
use crate::paths::FsPath;
use crate::strmap::StrMap;

verus! {

/// Approval policy for command execution; headless runs always use `Never`.
#[derive(Clone, Copy, Debug, PartialEq, Eq, Structural)]
pub enum AskForApproval {
    UnlessTrusted,
    OnFailure,
    OnRequest,
    Never,
}

/// Sandboxing level of a session.
#[derive(Clone, Copy, Debug, PartialEq, Eq, Structural)]
pub enum SandboxMode {
    ReadOnly,
    WorkspaceWrite,
    DangerFullAccess,
}

/// Mathematical value of an MCP server entry.
pub struct McpServerView {
    pub command: Seq<char>,
    pub args: Seq<Seq<char>>,
    pub env: Seq<(Seq<char>, Seq<char>)>,
}

/// One MCP server registration: the command to launch it, its arguments and
/// its environment.
#[derive(Clone, Debug)]
pub struct McpServerConfig {
    pub command: String,
    pub args: Vec<String>,
    pub env: Vec<(String, String)>,
}

impl View for McpServerConfig {
    type V = McpServerView;

    open spec fn view(&self) -> McpServerView {
        McpServerView {
            command: self.command@,
            args: self.args.deep_view(),
            env: self.env.deep_view(),
        }
    }
}

/// Mathematical value of a model provider entry.
pub struct ModelProviderView {
    pub name: Seq<char>,
    pub base_url: Option<Seq<char>>,
}

/// A model provider as the composition step sees it.
#[derive(Clone, Debug)]
pub struct ModelProviderInfo {
    pub name: String,
    pub base_url: Option<String>,
}

impl View for ModelProviderInfo {
    type V = ModelProviderView;

    open spec fn view(&self) -> ModelProviderView {
        ModelProviderView { name: self.name@, base_url: self.base_url.deep_view() }
    }
}

/// The session configuration fields the orchestration core composes.
#[derive(Clone, Debug)]
pub struct Config {
    pub model: String,
    pub model_provider_id: String,
    pub model_provider: ModelProviderInfo,
    pub model_providers: StrMap<ModelProviderInfo>,
    pub approval_policy: AskForApproval,
    pub sandbox_mode: SandboxMode,
    pub cwd: FsPath,
    pub base_instructions: Option<String>,
    pub include_plan_tool: bool,
    pub include_apply_patch_tool: bool,
    pub mcp_servers: StrMap<McpServerConfig>,
    pub preferred_auth_method: AuthMode,
}

impl Config {
    /// Both maps carried by the configuration are well-formed.
    pub open spec fn wf(&self) -> bool {
        self.model_providers.wf() && self.mcp_servers.wf()
    }
}

/// The raw project configuration file, of which only the project-level MCP
/// server table is read here.
pub struct ConfigToml {
    pub mcp_servers: StrMap<McpServerConfig>,
}

/// Duplicate of a list of environment pairs, equal element by element.
pub fn clone_env(v: &Vec<(String, String)>) -> (r: Vec<(String, String)>)
    ensures
        r@ == v@,
{
    let mut r: Vec<(String, String)> = Vec::new();
    let n = v.len();
    let mut i: usize = 0;
    while i < n
        invariant
            i <= n,
            n == v@.len(),
            r@ =~= v@.take(i as int),
        decreases n - i,
    {
        let name = v[i].0.clone();
        let value = v[i].1.clone();
        r.push((name, value));
        proof {
            assert(r@ =~= v@.take(i + 1));
        }
        i = i + 1;
    }
    proof {
        assert(v@.take(n as int) =~= v@);
    }
    r
}

/// A copy of an MCP server entry with the same value.
pub fn clone_mcp_server(v: &McpServerConfig) -> (r: McpServerConfig)
    ensures
        r@ == v@,
{
    McpServerConfig {
        command: v.command.clone(),
        args: crate::paths::clone_parts(&v.args),
        env: clone_env(&v.env),
    }
}

/// A copy of a provider entry with the same value.
pub fn clone_provider_info(v: &ModelProviderInfo) -> (r: ModelProviderInfo)
    ensures
        r@ == v@,
{
    let base_url = match &v.base_url {
        Some(u) => Some(u.clone()),
        None => None,
    };
    ModelProviderInfo { name: v.name.clone(), base_url }
}

/// A copy of an MCP server table with the same contents.
pub fn clone_mcp_map(m: &StrMap<McpServerConfig>) -> (r: StrMap<McpServerConfig>)
    requires
        m.wf(),
    ensures
        r.wf(),
        r@ == m@,
{
    let mut out: StrMap<McpServerConfig> = StrMap::new();
    let n = m.num_entries();
    let mut i: usize = 0;
    while i < n
        invariant
            out.wf(),
            m.wf(),
            i <= n,
            n == m.spec_num_entries(),
            forall|j: int|
                0 <= j < i ==> m@.contains_key(#[trigger] m.spec_key_at(j)) && out@.contains_key(
                    m.spec_key_at(j),
                ) && out@[m.spec_key_at(j)] == m@[m.spec_key_at(j)],
            forall|k: Seq<char>|
                #[trigger] out@.contains_key(k) ==> exists|j: int|
                    0 <= j < i && #[trigger] m.spec_key_at(j) == k,
        decreases n - i,
    {
        let entry = m.entry_at(i);
        let key = entry.0.clone();
        let value = clone_mcp_server(entry.1);
        out.insert(key, value);
        proof {
            assert forall|k: Seq<char>| #[trigger] out@.contains_key(k) implies exists|j: int|
                0 <= j < i + 1 && #[trigger] m.spec_key_at(j) == k by {
                if k == m.spec_key_at(i as int) {
                    assert(m.spec_key_at(i as int) == k);
                }
            }
        }
        i = i + 1;
    }
    proof {
        m.lemma_dom_witness();
        assert forall|k: Seq<char>| m@.contains_key(k) implies out@.contains_key(k)
            && out@[k] == m@[k] by {
            let j = choose|j: int|
                0 <= j < m.spec_num_entries() && #[trigger] m.spec_key_at(j) == k;
        }
        assert(out@ =~= m@);
    }
    out
}

} // verus!
