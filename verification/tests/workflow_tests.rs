use codex_orchestration::errors::LoadError;
use codex_orchestration::paths::FsPath;
use codex_orchestration::strmap::StrMap;
use codex_orchestration::workflows::StepKind;
use codex_orchestration::workflows::WorkflowStepToml;
use codex_orchestration::workflows::WorkflowToml;
use codex_orchestration::workflows::load_workflow;
use codex_orchestration::workflows::workflow_file_path;

fn file() -> FsPath {
    FsPath {
        absolute: true,
        parts: vec![
            "repo".to_string(),
            ".codex".to_string(),
            "workflows".to_string(),
            "w.toml".to_string(),
        ],
    }
}

fn step(step_type: &str, id: &str, prompt: Option<&str>) -> WorkflowStepToml {
    WorkflowStepToml {
        step_type: step_type.to_string(),
        id: id.to_string(),
        prompt: prompt.map(|p| p.to_string()),
        max_turns: None,
    }
}

fn table(entries: Vec<(&str, WorkflowStepToml)>) -> StrMap<WorkflowStepToml> {
    let mut m = StrMap::new();
    for (k, v) in entries {
        m.insert(k.to_string(), v);
    }
    m
}

#[test]
fn valid_workflow_materializes_steps_in_order() {
    let wf = WorkflowToml {
        name: None,
        description: Some("d".to_string()),
        steps: vec!["plan".to_string(), "implement".to_string()],
        step: table(vec![
            ("plan", step("team", "dev-team", Some("Draft a short plan."))),
            ("implement", step("agent", "dev", None)),
        ]),
    };
    let def = load_workflow(file(), "w", wf).unwrap();
    assert_eq!(def.name, "w");
    assert_eq!(def.description, Some("d".to_string()));
    assert_eq!(def.steps.len(), 2);
    assert_eq!(def.steps[0].kind, StepKind::Team);
    assert_eq!(def.steps[0].id, "dev-team");
    assert_eq!(def.steps[0].prompt, Some("Draft a short plan.".to_string()));
    assert_eq!(def.steps[1].kind, StepKind::Agent);
    assert_eq!(def.steps[1].id, "dev");
}

#[test]
fn workflow_name_comes_from_file_contents_when_present() {
    let wf = WorkflowToml {
        name: Some("named".to_string()),
        description: None,
        steps: Vec::new(),
        step: StrMap::new(),
    };
    let def = load_workflow(file(), "w", wf).unwrap();
    assert_eq!(def.name, "named");
    assert!(def.steps.is_empty());
}

#[test]
fn undefined_step_key_fails_loading() {
    let wf = WorkflowToml {
        name: None,
        description: None,
        steps: vec!["plan".to_string(), "ghost".to_string()],
        step: table(vec![("plan", step("agent", "dev", None))]),
    };
    let err = load_workflow(file(), "w", wf).unwrap_err();
    match &err {
        LoadError::UndefinedStep(key) => assert_eq!(key, "ghost"),
        other => panic!("unexpected error: {:?}", other),
    }
    assert_eq!(
        err.message(),
        "workflow step 'ghost' not defined in [step.*]".to_string()
    );
}

#[test]
fn unsupported_step_type_fails_loading() {
    let wf = WorkflowToml {
        name: None,
        description: None,
        steps: vec!["plan".to_string()],
        step: table(vec![("plan", step("crew", "dev", None))]),
    };
    let err = load_workflow(file(), "w", wf).unwrap_err();
    match &err {
        LoadError::UnsupportedStepType(kind, key) => {
            assert_eq!(kind, "crew");
            assert_eq!(key, "plan");
        }
        other => panic!("unexpected error: {:?}", other),
    }
    assert_eq!(
        err.message(),
        "unsupported step type 'crew' for step 'plan'".to_string()
    );
}

#[test]
fn workflow_file_path_is_under_workflows() {
    let project_dir = FsPath {
        absolute: true,
        parts: vec!["repo".to_string(), ".codex".to_string()],
    };
    let p = workflow_file_path(&project_dir, "sample");
    assert_eq!(p.parts, vec!["repo", ".codex", "workflows", "sample.toml"]);
}
