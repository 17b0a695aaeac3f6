use codex_orchestration::agents::ConfigValue;
use codex_orchestration::agents::TeamConfigToml;
use codex_orchestration::agents::TeamDefinition;
use codex_orchestration::paths::FsPath;
use codex_orchestration::pump::EventMsg;
use codex_orchestration::router::RouteAction;
use codex_orchestration::router::TeamContext;
use codex_orchestration::router::build_selector_prompt;
use codex_orchestration::router::new_team_context;
use codex_orchestration::router::route_user_input;
use codex_orchestration::router::selector_choice;
use codex_orchestration::strmap::StrMap;

fn round_robin_context(members: &[&str], next_idx: usize) -> TeamContext {
    TeamContext {
        name: "dev-team".to_string(),
        prompt: None,
        members: members.iter().map(|m| m.to_string()).collect(),
        mode: None,
        next_idx,
        turns_taken: 0,
        max_turns: None,
        selector_model: None,
        selector_prompt: None,
        allow_repeated_speaker: false,
    }
}

fn dispatched(action: RouteAction) -> (String, String) {
    match action {
        RouteAction::Dispatch {
            name,
            initial_prompt,
        } => (name, initial_prompt),
        other => panic!("expected a dispatch, got {:?}", other),
    }
}

#[test]
fn round_robin_wraps_and_restores_rotation() {
    let mut tc = round_robin_context(&["a", "b", "c"], 2);
    let (first, p1) = dispatched(route_user_input(&mut tc, &"1".to_string()));
    let (second, p2) = dispatched(route_user_input(&mut tc, &"2".to_string()));
    let (third, p3) = dispatched(route_user_input(&mut tc, &"3".to_string()));
    assert_eq!((first.as_str(), second.as_str(), third.as_str()), ("c", "a", "b"));
    assert_eq!((p1.as_str(), p2.as_str(), p3.as_str()), ("1", "2", "3"));
    assert_eq!(tc.next_idx, 2);
    assert_eq!(tc.turns_taken, 3);
}

#[test]
fn round_robin_is_fair_over_seven_messages() {
    let mut tc = round_robin_context(&["a", "b", "c"], 0);
    let mut counts = [0usize; 3];
    for i in 0..7usize {
        let (name, _) = dispatched(route_user_input(&mut tc, &format!("{}", i)));
        match name.as_str() {
            "a" => counts[0] += 1,
            "b" => counts[1] += 1,
            "c" => counts[2] += 1,
            other => panic!("unknown member {}", other),
        }
    }
    assert_eq!(counts, [3, 2, 2]);
}

#[test]
fn explicit_tag_bypasses_routing() {
    let mut tc = round_robin_context(&["a", "b"], 0);
    let action = route_user_input(&mut tc, &"  @b please take this".to_string());
    assert!(matches!(action, RouteAction::Forward));
    assert_eq!(tc.next_idx, 0);
    assert_eq!(tc.turns_taken, 0);
}

#[test]
fn max_turns_blocks_after_limit() {
    let mut tc = round_robin_context(&["a", "b"], 0);
    tc.max_turns = Some(1);
    let (name, _) = dispatched(route_user_input(&mut tc, &"first".to_string()));
    assert_eq!(name, "a");
    match route_user_input(&mut tc, &"second".to_string()) {
        RouteAction::Blocked(msg) => {
            assert_eq!(msg, "Team 'dev-team' reached max_turns=1");
        }
        other => panic!("expected a block, got {:?}", other),
    }
    assert_eq!(tc.turns_taken, 1);
}

#[test]
fn empty_team_reports_no_members() {
    let mut tc = round_robin_context(&[], 0);
    match route_user_input(&mut tc, &"hello".to_string()) {
        RouteAction::NoMembers(msg) => assert_eq!(msg, "Team has no members"),
        other => panic!("expected no-members, got {:?}", other),
    }
}

#[test]
fn selector_without_model_is_reported() {
    let mut tc = round_robin_context(&["a", "b"], 0);
    tc.mode = Some("Selector".to_string());
    match route_user_input(&mut tc, &"hello".to_string()) {
        RouteAction::SelectorUnconfigured(msg) => {
            assert_eq!(msg, "Selector model not configured for team")
        }
        other => panic!("expected unconfigured, got {:?}", other),
    }
}

#[test]
fn selector_builds_the_exact_prompt() {
    let mut tc = round_robin_context(&["a", "b"], 1);
    tc.mode = Some("selector".to_string());
    tc.selector_model = Some("S".to_string());
    let action = route_user_input(&mut tc, &"do X".to_string());
    let (model, prompt) = match action {
        RouteAction::RunSelector { model, prompt } => (model, prompt),
        other => panic!("expected selector run, got {:?}", other),
    };
    assert_eq!(model, "S");
    let expected = concat_expected_prompt();
    assert_eq!(prompt, expected);
    assert_eq!(tc.next_idx, 1);
    assert_eq!(tc.turns_taken, 0);
}

fn concat_expected_prompt() -> String {
    let mut e = String::new();
    e.push_str(
        "You are a team orchestrator. Given the user message and the list of candidates, choose exactly one candidate to handle the next step.\n\nReturn ONLY the candidate name, exactly as shown in the list. No explanations.",
    );
    e.push_str("\n\nTeam: dev-team");
    e.push_str("\nUser Message:\ndo X");
    e.push_str("\n\nCandidates:\n- a\n- b\n");
    e.push_str("\nPolicy:\n");
    e.push_str("- Do not choose the same speaker twice in a row.\n");
    e.push_str("- The last speaker was: a\n");
    e.push_str("\nAnswer with exactly one candidate name from the list above.\n");
    e
}

#[test]
fn selector_prompt_respects_allowed_repetition_and_custom_base() {
    let candidates = vec!["a".to_string(), "b".to_string()];
    let prompt = build_selector_prompt("t", &candidates, Some("BASE"), "m", true, Some("a"));
    let mut expected = String::new();
    expected.push_str("BASE");
    expected.push_str("\n\nTeam: t");
    expected.push_str("\nUser Message:\nm");
    expected.push_str("\n\nCandidates:\n- a\n- b\n");
    expected.push_str("\nPolicy:\n");
    expected.push_str("\nAnswer with exactly one candidate name from the list above.\n");
    assert_eq!(prompt, expected);
}

#[test]
fn selector_choice_takes_first_agent_message_trimmed() {
    let events = vec![
        EventMsg::Other,
        EventMsg::AgentMessage(" b \n".to_string()),
        EventMsg::AgentMessage("c".to_string()),
    ];
    assert_eq!(selector_choice(&events), Some("b".to_string()));
    assert_eq!(selector_choice(&vec![EventMsg::Other]), None);
}

#[test]
fn team_context_extracts_recognized_settings() {
    let mut termination = StrMap::new();
    termination.insert("max_turns".to_string(), ConfigValue::Int(2));
    termination.insert("note".to_string(), ConfigValue::Str("ignored".to_string()));
    let mut selector = StrMap::new();
    selector.insert("model".to_string(), ConfigValue::Str("s-model".to_string()));
    selector.insert("allow_repeated_speaker".to_string(), ConfigValue::Bool(true));
    let team = TeamDefinition {
        file: FsPath {
            absolute: true,
            parts: vec!["repo".to_string(), "t.toml".to_string()],
        },
        config: TeamConfigToml {
            name: None,
            mode: Some("selector".to_string()),
            prompt_file: None,
            members: vec!["dev".to_string()],
            termination,
            selector,
        },
        prompt: Some("T".to_string()),
    };
    let tc = new_team_context("dev-team", &team, Some("SP".to_string()));
    assert_eq!(tc.name, "dev-team");
    assert_eq!(tc.members, vec!["dev"]);
    assert_eq!(tc.max_turns, Some(2));
    assert_eq!(tc.selector_model, Some("s-model".to_string()));
    assert_eq!(tc.selector_prompt, Some("SP".to_string()));
    assert!(tc.allow_repeated_speaker);
    assert_eq!(tc.next_idx, 0);
    assert_eq!(tc.turns_taken, 0);
}

#[test]
fn negative_max_turns_is_ignored() {
    let mut termination = StrMap::new();
    termination.insert("max_turns".to_string(), ConfigValue::Int(-3));
    let team = TeamDefinition {
        file: FsPath {
            absolute: true,
            parts: vec!["t.toml".to_string()],
        },
        config: TeamConfigToml {
            name: None,
            mode: None,
            prompt_file: None,
            members: vec!["dev".to_string()],
            termination,
            selector: StrMap::new(),
        },
        prompt: None,
    };
    let tc = new_team_context("t", &team, None);
    assert_eq!(tc.max_turns, None);
}
