use codex_orchestration::agents::AgentConfigToml;
use codex_orchestration::agents::AgentDefinition;
use codex_orchestration::compose::compose_step_config;
use codex_orchestration::compose::derive_step_prompt;
use codex_orchestration::config::AskForApproval;
use codex_orchestration::config::Config;
use codex_orchestration::config::McpServerConfig;
use codex_orchestration::config::ModelProviderInfo;
use codex_orchestration::config::SandboxMode;
use codex_orchestration::login::AuthMode;
use codex_orchestration::paths::FsPath;
use codex_orchestration::runner::headless_base_config;
use codex_orchestration::strmap::StrMap;

fn base_config() -> Config {
    Config {
        model: "base-model".to_string(),
        model_provider_id: "openai".to_string(),
        model_provider: ModelProviderInfo {
            name: "OpenAI".to_string(),
            base_url: None,
        },
        model_providers: {
            let mut m = StrMap::new();
            m.insert(
                "openai".to_string(),
                ModelProviderInfo {
                    name: "OpenAI".to_string(),
                    base_url: None,
                },
            );
            m.insert(
                "other".to_string(),
                ModelProviderInfo {
                    name: "Other".to_string(),
                    base_url: Some("https://other.example".to_string()),
                },
            );
            m
        },
        approval_policy: AskForApproval::OnRequest,
        sandbox_mode: SandboxMode::ReadOnly,
        cwd: FsPath {
            absolute: true,
            parts: vec!["repo".to_string()],
        },
        base_instructions: None,
        include_plan_tool: false,
        include_apply_patch_tool: false,
        mcp_servers: StrMap::new(),
        preferred_auth_method: AuthMode::ChatGPT,
    }
}

fn agent(model: Option<&str>, provider: Option<&str>, prompt: Option<&str>) -> AgentDefinition {
    let mut mcp = StrMap::new();
    mcp.insert(
        "tools".to_string(),
        McpServerConfig {
            command: "tool-server".to_string(),
            args: Vec::new(),
            env: Vec::new(),
        },
    );
    AgentDefinition {
        dir: FsPath {
            absolute: true,
            parts: vec!["repo".to_string(), ".codex".to_string()],
        },
        config: AgentConfigToml {
            name: Some("dev".to_string()),
            role: None,
            model: model.map(|m| m.to_string()),
            model_provider: provider.map(|p| p.to_string()),
            profile: None,
            prompt_file: None,
            include_apply_patch_tool: Some(true),
            include_plan_tool: None,
            tags: Vec::new(),
            inherit_mcp_from_project: false,
            mcp_servers: StrMap::new(),
        },
        prompt: prompt.map(|p| p.to_string()),
        mcp_servers: mcp,
    }
}

#[test]
fn single_agent_step_composes_model_and_instructions() {
    let composed = compose_step_config(
        base_config(),
        &agent(Some("dev-model"), None, None),
        None,
        Some(&"hi".to_string()),
    );
    assert_eq!(composed.model, "dev-model");
    assert_eq!(composed.base_instructions, Some("hi".to_string()));
    assert_eq!(composed.include_apply_patch_tool, true);
    assert_eq!(composed.include_plan_tool, false);
    assert!(composed.mcp_servers.get("tools").is_some());
}

#[test]
fn team_step_prompt_merges_team_and_agent() {
    let composed = compose_step_config(
        base_config(),
        &agent(None, None, Some("A")),
        Some(&"T".to_string()),
        None,
    );
    assert_eq!(composed.base_instructions, Some("T\n\nA".to_string()));
    assert_eq!(composed.model, "base-model");
}

#[test]
fn provider_override_applies_only_when_known() {
    let known = compose_step_config(base_config(), &agent(None, Some("other"), None), None, None);
    assert_eq!(known.model_provider_id, "other");
    assert_eq!(known.model_provider.name, "Other");

    let unknown = compose_step_config(
        base_config(),
        &agent(None, Some("missing"), None),
        None,
        None,
    );
    assert_eq!(unknown.model_provider_id, "openai");
    assert_eq!(unknown.model_provider.name, "OpenAI");
}

#[test]
fn prompt_priority_table() {
    let step = "S".to_string();
    let team = "T".to_string();
    let agent_p = "A".to_string();
    assert_eq!(
        derive_step_prompt(Some(&step), Some(&team), Some(&agent_p)),
        "S"
    );
    assert_eq!(derive_step_prompt(Some(&step), Some(&team), None), "S");
    assert_eq!(derive_step_prompt(Some(&step), None, Some(&agent_p)), "S");
    assert_eq!(derive_step_prompt(Some(&step), None, None), "S");
    assert_eq!(
        derive_step_prompt(None, Some(&team), Some(&agent_p)),
        "T\n\nA"
    );
    assert_eq!(derive_step_prompt(None, Some(&team), None), "T");
    assert_eq!(derive_step_prompt(None, None, Some(&agent_p)), "A");
    assert_eq!(derive_step_prompt(None, None, None), "");
}

#[test]
fn headless_overrides_force_never_approval() {
    let plain = headless_base_config(base_config(), false, false);
    assert_eq!(plain.approval_policy, AskForApproval::Never);
    assert_eq!(plain.sandbox_mode, SandboxMode::ReadOnly);

    let auto = headless_base_config(base_config(), true, false);
    assert_eq!(auto.sandbox_mode, SandboxMode::WorkspaceWrite);

    let bypass = headless_base_config(base_config(), false, true);
    assert_eq!(bypass.sandbox_mode, SandboxMode::DangerFullAccess);

    let both = headless_base_config(base_config(), true, true);
    assert_eq!(both.sandbox_mode, SandboxMode::WorkspaceWrite);
}
