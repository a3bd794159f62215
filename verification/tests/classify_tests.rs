use openclaw_daily_digest::classify::{
    classify_action_type, classify_project, contains_word, keyword_action, match_project_folder,
    project_hint, ActionObservations, ActionStep, ProjectListing, ProjectObservations, ProjectStep,
};
use openclaw_daily_digest::types::ProjectInfo;

fn no_project_obs() -> ProjectObservations {
    ProjectObservations { named_dir_exists: None, listing: None, llm_available: None, llm_answer: None }
}

fn listing(dirs: &[&str]) -> Option<ProjectListing> {
    Some(ProjectListing {
        dirs: dirs.iter().map(|d| d.to_string()).collect(),
        entries: dirs.iter().map(|d| d.to_string()).collect(),
    })
}

#[test]
fn explicit_project_line_asks_for_its_directory_then_decides() {
    let task = "Project: some-project\n\nFix the envelope writer.";
    match classify_project(task, &no_project_obs()) {
        ProjectStep::CheckDir(name) => assert_eq!(name, "some-project"),
        _ => panic!("expected a directory check"),
    }
    let mut obs = no_project_obs();
    obs.named_dir_exists = Some(false);
    match classify_project(task, &obs) {
        ProjectStep::Done(r) => {
            assert_eq!(r.kind, "new");
            assert_eq!(r.name.as_deref(), Some("some-project"));
            assert_eq!(r.method, "explicit-line");
        }
        _ => panic!("expected a decision"),
    }
    obs.named_dir_exists = Some(true);
    match classify_project(task, &obs) {
        ProjectStep::Done(r) => assert_eq!(r.kind, "existing"),
        _ => panic!("expected a decision"),
    }
}

#[test]
fn lower_case_project_line_and_blank_name() {
    let h = project_hint("  project:   blog  \n").unwrap();
    assert_eq!(h.name, "blog");
    assert_eq!(h.method, "explicit-line");
    // A blank name does not count; the next line can still name one.
    let h = project_hint("Project:   \nProject: site").unwrap();
    assert_eq!(h.name, "site");
}

#[test]
fn project_tag_stops_at_other_characters() {
    let h = project_hint("Work on #project/my-app_v2! today").unwrap();
    assert_eq!(h.name, "my-app_v2");
    assert_eq!(h.method, "tag");
    // An empty tag on one line, a real one on the next.
    let h = project_hint("see #project/\nand #project/other").unwrap();
    assert_eq!(h.name, "other");
    // Alphanumeric includes non-ASCII letters.
    let h = project_hint("#project/caf\u{e9}-2").unwrap();
    assert_eq!(h.name, "caf\u{e9}-2");
}

#[test]
fn explicit_line_wins_over_tag() {
    let h = project_hint("#project/tagged\nProject: explicit").unwrap();
    assert_eq!(h.name, "explicit");
    assert_eq!(h.method, "explicit-line");
}

#[test]
fn no_hint_in_plain_text() {
    assert!(project_hint("Buy groceries.").is_none());
    assert!(project_hint("").is_none());
}

#[test]
fn folder_match_ignores_case_and_takes_first_name() {
    let dirs = vec!["zeta".to_string(), "Alpha".to_string(), "beta".to_string()];
    assert_eq!(match_project_folder("work on ALPHA and zeta", &dirs).as_deref(), Some("Alpha"));
    assert_eq!(match_project_folder("only Zeta here", &dirs).as_deref(), Some("zeta"));
    assert_eq!(match_project_folder("nothing", &dirs), None);
}

#[test]
fn folder_match_routes_existing_project() {
    let mut obs = no_project_obs();
    match classify_project("Update the Blog theme", &obs) {
        ProjectStep::ListProjects => {}
        _ => panic!("expected a listing request"),
    }
    obs.listing = listing(&["blog", "shop"]);
    match classify_project("Update the Blog theme", &obs) {
        ProjectStep::Done(r) => {
            assert_eq!(r.kind, "existing");
            assert_eq!(r.name.as_deref(), Some("blog"));
            assert_eq!(r.method, "folder-match");
        }
        _ => panic!("expected a decision"),
    }
}

#[test]
fn model_is_asked_last_and_its_answer_used() {
    let task = "Plan the garden";
    let mut obs = no_project_obs();
    obs.listing = listing(&["blog", "shop"]);
    assert!(matches!(classify_project(task, &obs), ProjectStep::CheckLlm));
    obs.llm_available = Some(true);
    match classify_project(task, &obs) {
        ProjectStep::AskLlm(args) => {
            assert_eq!(&args[..6], &["agent", "--agent", "main", "--timeout", "120", "--message"]);
            assert!(args[6].starts_with("You are a strict JSON API. Classify the following task into a project."));
            assert!(args[6].contains("Existing projects: blog, shop\n\nRules:"));
            assert!(args[6].ends_with("Task:\nPlan the garden"));
        }
        _ => panic!("expected a model call"),
    }
    obs.llm_answer = Some(Some(ProjectInfo { kind: "new".to_string(), name: Some("garden".to_string()) }));
    match classify_project(task, &obs) {
        ProjectStep::Done(r) => {
            assert_eq!(r.kind, "new");
            assert_eq!(r.name.as_deref(), Some("garden"));
            assert_eq!(r.method, "ai");
        }
        _ => panic!("expected a decision"),
    }
    obs.llm_answer = Some(None);
    match classify_project(task, &obs) {
        ProjectStep::Done(r) => {
            assert_eq!(r.kind, "none");
            assert_eq!(r.name, None);
            assert_eq!(r.method, "default");
        }
        _ => panic!("expected a decision"),
    }
}

#[test]
fn no_model_means_default_routing() {
    let mut obs = no_project_obs();
    obs.listing = listing(&[]);
    obs.llm_available = Some(false);
    match classify_project("Buy groceries.", &obs) {
        ProjectStep::Done(r) => {
            assert_eq!(r.kind, "none");
            assert_eq!(r.method, "default");
        }
        _ => panic!("expected a decision"),
    }
}

#[test]
fn keywords_decide_action_type() {
    assert_eq!(keyword_action("Fix the envelope writer.").as_deref(), Some("repo-change"));
    assert_eq!(keyword_action("Research Rust async patterns.").as_deref(), Some("research"));
    assert_eq!(keyword_action("brew install ripgrep").as_deref(), Some("ops"));
    assert_eq!(keyword_action("Set up Tailscale").as_deref(), Some("ops"));
    assert_eq!(keyword_action("Where is my key?  \nthanks").as_deref(), Some("question"));
    assert_eq!(keyword_action("Pick up milk, eggs, bread, coffee beans."), None);
    // Substring matching: "pr" occurs in "improve".
    assert_eq!(keyword_action("Improve the garden").as_deref(), Some("repo-change"));
    assert!(contains_word("compare two things", "compare"));
    assert!(!contains_word("Compare", "compare"));
}

#[test]
fn action_type_falls_back_to_model_then_note() {
    let task = "Pick up milk, eggs, bread, coffee beans.";
    let mut obs = ActionObservations { llm_available: None, llm_answer: None };
    assert!(matches!(classify_action_type(task, &obs), ActionStep::CheckLlm));
    obs.llm_available = Some(false);
    match classify_action_type(task, &obs) {
        ActionStep::Done(t) => {
            assert_eq!(t.action_type, "note");
            assert_eq!(t.method, "default");
        }
        _ => panic!("expected a decision"),
    }
    obs.llm_available = Some(true);
    match classify_action_type(task, &obs) {
        ActionStep::AskLlm(args) => {
            assert!(args[6].starts_with("You are a strict JSON API. Classify the action type"));
            assert!(args[6].ends_with(task));
        }
        _ => panic!("expected a model call"),
    }
    obs.llm_answer = Some(Some("ops".to_string()));
    match classify_action_type(task, &obs) {
        ActionStep::Done(t) => {
            assert_eq!(t.action_type, "ops");
            assert_eq!(t.method, "ai");
        }
        _ => panic!("expected a decision"),
    }
    obs.llm_answer = Some(Some("shopping".to_string()));
    match classify_action_type(task, &obs) {
        ActionStep::Done(t) => {
            assert_eq!(t.action_type, "note");
            assert_eq!(t.method, "default");
        }
        _ => panic!("expected a decision"),
    }
}

#[test]
fn keyword_rule_ignores_model_answer() {
    let obs = ActionObservations { llm_available: Some(true), llm_answer: Some(Some("note".to_string())) };
    match classify_action_type("Refactor the parser", &obs) {
        ActionStep::Done(t) => {
            assert_eq!(t.action_type, "repo-change");
            assert_eq!(t.method, "keyword");
        }
        _ => panic!("expected a decision"),
    }
}
