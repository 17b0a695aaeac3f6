use codex_orchestration::pump::EventMsg;
use codex_orchestration::pump::Op;
use codex_orchestration::pump::pump_drain;
use codex_orchestration::runner::first_team_member;
use codex_orchestration::runner::json_last_message_line;
use codex_orchestration::runner::no_project_dir_message;
use codex_orchestration::runner::no_steps_message;
use codex_orchestration::runner::step_banner;
use codex_orchestration::workflows::StepKind;

#[test]
fn pump_submits_one_input_and_one_shutdown() {
    let events = vec![
        EventMsg::Other,
        EventMsg::AgentMessage("working".to_string()),
        EventMsg::TaskComplete(Some("ok".to_string())),
        EventMsg::Other,
        EventMsg::ShutdownComplete,
        EventMsg::TaskComplete(Some("late".to_string())),
    ];
    let (last, ops) = pump_drain("go".to_string(), &events);
    assert_eq!(last, Some("ok".to_string()));
    assert_eq!(ops.len(), 2);
    match &ops[0] {
        Op::UserInput(text) => assert_eq!(text, "go"),
        other => panic!("unexpected first op: {:?}", other),
    }
    assert!(matches!(ops[1], Op::Shutdown));
}

#[test]
fn pump_without_task_complete_submits_no_shutdown() {
    let events = vec![EventMsg::Other, EventMsg::ShutdownComplete];
    let (last, ops) = pump_drain("go".to_string(), &events);
    assert_eq!(last, None);
    assert_eq!(ops.len(), 1);
}

#[test]
fn pump_records_absent_last_message() {
    let events = vec![EventMsg::TaskComplete(None), EventMsg::ShutdownComplete];
    let (last, ops) = pump_drain("go".to_string(), &events);
    assert_eq!(last, None);
    assert_eq!(ops.len(), 2);
}

#[test]
fn json_line_quotes_and_escapes_the_message() {
    assert_eq!(
        json_last_message_line("ok"),
        "{\"type\":\"last_message\",\"text\":\"ok\"}"
    );
    let tricky = "a \"quoted\"\nline";
    let expected = format!(
        "{{\"type\":\"last_message\",\"text\":{}}}",
        serde_json::to_string(tricky).unwrap()
    );
    assert_eq!(json_last_message_line(tricky), expected);
}

#[test]
fn runner_messages_match_their_formats() {
    assert_eq!(no_steps_message("x"), "Workflow 'x' has no steps");
    assert_eq!(
        no_project_dir_message(),
        "No project .codex/ directory discovered (use -C to set working dir)"
    );
    assert_eq!(
        step_banner(0, 2, StepKind::Team, "dev-team"),
        "--- Step 1/2: team dev-team"
    );
    assert_eq!(
        step_banner(11, 12, StepKind::Agent, "dev"),
        "--- Step 12/12: agent dev"
    );
}

#[test]
fn team_step_requires_a_member() {
    let members = vec!["a".to_string(), "b".to_string()];
    assert_eq!(first_team_member(&members, "t").unwrap(), "a");
    let err = first_team_member(&Vec::new(), "t").unwrap_err();
    assert_eq!(err.message(), "Team 't' has no members");
}
