use codex_orchestration::agents::AgentConfigToml;
use codex_orchestration::agents::agent_prompt_path;
use codex_orchestration::agents::effective_mcp_servers;
use codex_orchestration::agents::load_agent;
use codex_orchestration::agents::load_team;
use codex_orchestration::agents::prompt_from_contents;
use codex_orchestration::agents::team_file_path;
use codex_orchestration::agents::team_prompt_path;
use codex_orchestration::agents::TeamConfigToml;
use codex_orchestration::config::ConfigToml;
use codex_orchestration::config::McpServerConfig;
use codex_orchestration::errors::LoadError;
use codex_orchestration::paths::FsPath;
use codex_orchestration::strmap::StrMap;

fn path(absolute: bool, parts: &[&str]) -> FsPath {
    FsPath {
        absolute,
        parts: parts.iter().map(|p| p.to_string()).collect(),
    }
}

fn server(command: &str) -> McpServerConfig {
    McpServerConfig {
        command: command.to_string(),
        args: Vec::new(),
        env: Vec::new(),
    }
}

fn server_map(entries: &[(&str, &str)]) -> StrMap<McpServerConfig> {
    let mut m = StrMap::new();
    for (k, v) in entries {
        m.insert(k.to_string(), server(v));
    }
    m
}

fn command_of(m: &StrMap<McpServerConfig>, key: &str) -> Option<String> {
    m.get(key).map(|s| s.command.clone())
}

#[test]
fn mcp_file_overrides_inline_and_project_fills_gaps() {
    let inline = server_map(&[("a", "inline-a"), ("b", "inline-b")]);
    let file = server_map(&[("a", "file-a"), ("c", "file-c")]);
    let project = server_map(&[("a", "proj-a"), ("d", "proj-d")]);
    let eff = effective_mcp_servers(inline, Some(file), true, project);
    assert_eq!(command_of(&eff, "a"), Some("file-a".to_string()));
    assert_eq!(command_of(&eff, "b"), Some("inline-b".to_string()));
    assert_eq!(command_of(&eff, "c"), Some("file-c".to_string()));
    assert_eq!(command_of(&eff, "d"), Some("proj-d".to_string()));
}

#[test]
fn mcp_without_inheritance_ignores_project() {
    let inline = server_map(&[("a", "inline-a")]);
    let file = server_map(&[("b", "file-b")]);
    let project = server_map(&[("c", "proj-c")]);
    let eff = effective_mcp_servers(inline, Some(file), false, project);
    assert_eq!(command_of(&eff, "a"), Some("inline-a".to_string()));
    assert_eq!(command_of(&eff, "b"), Some("file-b".to_string()));
    assert_eq!(command_of(&eff, "c"), None);
}

#[test]
fn mcp_without_file_keeps_inline() {
    let inline = server_map(&[("a", "inline-a")]);
    let project = server_map(&[("a", "proj-a")]);
    let eff = effective_mcp_servers(inline, None, true, project);
    assert_eq!(command_of(&eff, "a"), Some("inline-a".to_string()));
}

#[test]
fn prompt_is_trimmed_and_empty_becomes_absent() {
    assert_eq!(
        prompt_from_contents(Some("  be terse \n".to_string())),
        Some("be terse".to_string())
    );
    assert_eq!(prompt_from_contents(Some("  \n\t ".to_string())), None);
    assert_eq!(prompt_from_contents(None), None);
}

fn default_agent_config() -> AgentConfigToml {
    AgentConfigToml {
        name: None,
        role: None,
        model: None,
        model_provider: None,
        profile: None,
        prompt_file: None,
        include_apply_patch_tool: None,
        include_plan_tool: None,
        tags: Vec::new(),
        inherit_mcp_from_project: false,
        mcp_servers: StrMap::new(),
    }
}

#[test]
fn agent_name_defaults_to_directory_name() {
    let project_dir = path(true, &["repo", ".codex"]);
    let def = load_agent(
        &project_dir,
        "dev",
        default_agent_config(),
        None,
        None,
        ConfigToml {
            mcp_servers: StrMap::new(),
        },
    );
    assert_eq!(def.config.name, Some("dev".to_string()));
    assert_eq!(def.dir.parts, vec!["repo", ".codex", "agents", "dev"]);
    assert_eq!(def.prompt, None);
}

#[test]
fn agent_keeps_explicit_name() {
    let project_dir = path(true, &["repo", ".codex"]);
    let mut cfg = default_agent_config();
    cfg.name = Some("given".to_string());
    let def = load_agent(
        &project_dir,
        "dev",
        cfg,
        Some("  prompt  ".to_string()),
        None,
        ConfigToml {
            mcp_servers: StrMap::new(),
        },
    );
    assert_eq!(def.config.name, Some("given".to_string()));
    assert_eq!(def.prompt, Some("prompt".to_string()));
}

#[test]
fn agent_prompt_path_rules() {
    let dir = path(true, &["repo", ".codex", "agents", "dev"]);
    let default = agent_prompt_path(&dir, &None);
    assert_eq!(
        default.parts,
        vec!["repo", ".codex", "agents", "dev", "AGENTS.md"]
    );
    let rel = agent_prompt_path(&dir, &Some(path(false, &["sub", "p.md"])));
    assert_eq!(
        rel.parts,
        vec!["repo", ".codex", "agents", "dev", "sub", "p.md"]
    );
    let abs = agent_prompt_path(&dir, &Some(path(true, &["etc", "p.md"])));
    assert!(abs.absolute);
    assert_eq!(abs.parts, vec!["etc", "p.md"]);
}

#[test]
fn team_prompt_path_rules() {
    let project_dir = path(true, &["repo", ".codex"]);
    let file = team_file_path(&project_dir, "dev-team");
    assert_eq!(file.parts, vec!["repo", ".codex", "teams", "dev-team.toml"]);

    let default = team_prompt_path(&file, &None).unwrap();
    assert_eq!(default.parts, vec!["repo", ".codex", "teams", "TEAM.md"]);

    let rel = team_prompt_path(&file, &Some(path(false, &["P.md"]))).unwrap();
    assert_eq!(rel.parts, vec!["repo", ".codex", "teams", "P.md"]);

    let abs = team_prompt_path(&file, &Some(path(true, &["etc", "P.md"]))).unwrap();
    assert!(abs.absolute);
    assert_eq!(abs.parts, vec!["etc", "P.md"]);

    let rootless = path(false, &[]);
    let err = team_prompt_path(&rootless, &Some(path(false, &["P.md"]))).unwrap_err();
    assert!(matches!(err, LoadError::NoParentDir));
    assert_eq!(
        err.message(),
        "team config path has no parent directory".to_string()
    );
}

#[test]
fn team_assembles_with_trimmed_prompt() {
    let file = path(true, &["repo", ".codex", "teams", "t.toml"]);
    let cfg = TeamConfigToml {
        name: None,
        mode: Some("round_robin".to_string()),
        prompt_file: None,
        members: vec!["a".to_string(), "b".to_string()],
        termination: StrMap::new(),
        selector: StrMap::new(),
    };
    let team = load_team(file, cfg, Some(" T \n".to_string()));
    assert_eq!(team.prompt, Some("T".to_string()));
    assert_eq!(team.config.members, vec!["a", "b"]);
}

#[test]
fn load_agent_applies_the_merge_policy() {
    let project_dir = path(true, &["repo", ".codex"]);
    let mut cfg = default_agent_config();
    cfg.inherit_mcp_from_project = true;
    cfg.mcp_servers = server_map(&[("a", "inline-a"), ("b", "inline-b")]);
    let mcp_file = Some(server_map(&[("a", "file-a")]));
    let project = ConfigToml {
        mcp_servers: server_map(&[("b", "proj-b"), ("c", "proj-c")]),
    };
    let def = load_agent(&project_dir, "dev", cfg, None, mcp_file, project);
    assert_eq!(command_of(&def.mcp_servers, "a"), Some("file-a".to_string()));
    assert_eq!(command_of(&def.mcp_servers, "b"), Some("inline-b".to_string()));
    assert_eq!(command_of(&def.mcp_servers, "c"), Some("proj-c".to_string()));
    // The raw configuration keeps the inline table untouched.
    assert_eq!(
        command_of(&def.config.mcp_servers, "a"),
        Some("inline-a".to_string())
    );
}
