use codex_orchestration::discovery::discover_project_codex_dir;
use codex_orchestration::listing::sort_names;
use codex_orchestration::dispatch::KeyCodeModel;
use codex_orchestration::dispatch::KeyPhase;
use codex_orchestration::dispatch::KeyPress;
use codex_orchestration::dispatch::KeyRoute;
use codex_orchestration::dispatch::classify_key;
use codex_orchestration::dispatch::normalize_pasted;
use codex_orchestration::paths::FsPath;
use codex_orchestration::scaffold::agent_config_contents;
use codex_orchestration::scaffold::project_config_contents;
use codex_orchestration::scaffold::sample_workflow_contents;
use codex_orchestration::scaffold::team_config_contents;
use codex_orchestration::scheduler::CommitAnimation;
use codex_orchestration::scheduler::FrameScheduler;
use codex_orchestration::scheduler::redraw_deadline;
use codex_orchestration::strutil::usize_to_string;
use codex_orchestration::viewport::Rect;
use codex_orchestration::viewport::fit_viewport;
use codex_orchestration::viewport::shift_viewport;

fn cwd(parts: &[&str]) -> FsPath {
    FsPath {
        absolute: true,
        parts: parts.iter().map(|p| p.to_string()).collect(),
    }
}

#[test]
fn discovery_finds_the_nearest_marked_ancestor() {
    // Candidates: "", "home", "home/user", "home/user/project".
    let marks = vec![false, false, true, true];
    let found = discover_project_codex_dir(&cwd(&["home", "user", "project"]), &marks).unwrap();
    assert_eq!(found.parts, vec!["home", "user", "project", ".codex"]);

    let shallower = discover_project_codex_dir(&cwd(&["home", "user"]), &vec![false, false, true])
        .unwrap();
    assert_eq!(shallower.parts, vec!["home", "user", ".codex"]);
}

#[test]
fn discovery_is_ancestor_stable_for_a_fixed_tree() {
    // The project root is at "home/user"; resolution from the root itself and
    // from a directory beneath it finds the same root.
    let deep_marks = vec![false, false, true, false];
    let deep = discover_project_codex_dir(&cwd(&["home", "user", "nested"]), &deep_marks).unwrap();
    let shallow_marks = vec![false, false, true];
    let shallow = discover_project_codex_dir(&cwd(&["home", "user"]), &shallow_marks).unwrap();
    assert!(deep.path_eq(&shallow));
}

#[test]
fn discovery_reports_nothing_without_a_marked_ancestor() {
    assert!(discover_project_codex_dir(&cwd(&["tmp"]), &vec![false, false]).is_none());
}

#[test]
fn key_classification_table() {
    let ctrl = |c: char, phase: KeyPhase| KeyPress {
        code: KeyCodeModel::Char(c),
        ctrl: true,
        phase,
    };
    assert_eq!(classify_key(&ctrl('c', KeyPhase::Press)), KeyRoute::Interrupt);
    assert_eq!(classify_key(&ctrl('z', KeyPhase::Press)), KeyRoute::Suspend);
    assert_eq!(classify_key(&ctrl('d', KeyPhase::Press)), KeyRoute::EndOfInput);
    assert_eq!(classify_key(&ctrl('c', KeyPhase::Repeat)), KeyRoute::Forward);
    let plain = KeyPress {
        code: KeyCodeModel::Char('x'),
        ctrl: false,
        phase: KeyPhase::Release,
    };
    assert_eq!(classify_key(&plain), KeyRoute::Ignore);
}

#[test]
fn pasted_carriage_returns_become_line_feeds() {
    assert_eq!(normalize_pasted("line one\rline two\r"), "line one\nline two\n");
    assert_eq!(normalize_pasted("untouched"), "untouched");
}

#[test]
fn scheduler_adopts_the_earliest_deadline() {
    let mut s = FrameScheduler::new();
    assert_eq!(s.wait_duration(5), None);
    s.schedule(redraw_deadline(10));
    assert_eq!(s.next_deadline, Some(11));
    s.schedule(9);
    assert_eq!(s.next_deadline, Some(9));
    s.schedule(50);
    assert_eq!(s.next_deadline, Some(9));
    assert_eq!(s.wait_duration(4), Some(5));
    assert_eq!(s.wait_duration(30), Some(0));
    s.fire();
    assert_eq!(s.next_deadline, None);
}

#[test]
fn commit_animation_gates_a_single_ticker() {
    let mut anim = CommitAnimation::new();
    assert!(anim.start());
    assert!(!anim.start());
    anim.stop();
    assert!(!anim.running);
    assert!(anim.start());
}

#[test]
fn scaffold_contents_embed_the_model() {
    assert_eq!(
        project_config_contents("m"),
        "# Project-scoped Codex config\nmodel = \"m\"\n"
    );
    assert!(agent_config_contents("m").contains("model = \"m\"\n"));
    assert!(team_config_contents("m").contains("mode = \"selector\""));
    let wf = sample_workflow_contents();
    assert!(wf.contains("steps = [\"plan\", \"implement\"]"));
    assert!(wf.contains("[step.plan]\ntype = \"team\"\nid = \"dev-team\""));
}

#[test]
fn decimal_rendering_matches_std() {
    for n in [0usize, 1, 9, 10, 99, 100, 120, 65535] {
        assert_eq!(usize_to_string(n), format!("{}", n));
    }
}

#[test]
fn names_sort_lexicographically() {
    let names = vec![
        "dev".to_string(),
        "a-team".to_string(),
        "Dev".to_string(),
        "alpha".to_string(),
    ];
    assert_eq!(sort_names(names), vec!["Dev", "a-team", "alpha", "dev"]);
    assert_eq!(sort_names(Vec::new()), Vec::<String>::new());
}

#[test]
fn viewport_shifts_with_the_cursor_and_clamps() {
    let area = Rect {
        x: 0,
        y: 10,
        width: 80,
        height: 5,
    };
    assert_eq!(shift_viewport(area, 12, 10).y, 12);
    assert_eq!(shift_viewport(area, 3, 10).y, 3);
    assert_eq!(shift_viewport(area, 0, 30).y, 0);
}

#[test]
fn viewport_fits_the_screen_and_scrolls_past_the_bottom() {
    let viewport = Rect {
        x: 0,
        y: 20,
        width: 70,
        height: 4,
    };
    let (fitted, scroll) = fit_viewport(viewport, 80, 24, 6);
    assert_eq!(fitted.width, 80);
    assert_eq!(fitted.height, 6);
    assert_eq!(scroll, 2);
    assert_eq!(fitted.y, 18);

    let (kept, none) = fit_viewport(viewport, 80, 24, 3);
    assert_eq!(kept.height, 3);
    assert_eq!(none, 0);
    assert_eq!(kept.y, 20);
}
