use openclaw_daily_digest::api::{
    create_project_answer, create_project_error, find_project, project_description, push_task_error,
    request_error, ApiConfig, CreateProjectAnswer, ProjectResponse,
};
use openclaw_daily_digest::policy::{
    default_deep_tag, default_expensive, select_model, ModelConfig, PolicyConfig, PolicyOverrides,
};
use openclaw_daily_digest::run::{
    api_step, run_start, ApiObservations, ApiStep, RunStart, finish_item, item_limit, posts_summary, read_failure, report_file_name, run_exit_code,
    source_stem, summary_line, task_title, wants_more, Destination,
};
use openclaw_daily_digest::types::ItemResult;
use openclaw_daily_digest::util::{
    file_stem_and_extension, first_inbox_item, first_n_lines, log_file_name, log_line,
    logs_to_rotate, rotation_cutoff, should_rotate_log, temp_file_name,
};

#[test]
fn item_limit_zero_means_unlimited() {
    assert_eq!(item_limit(0), usize::MAX);
    assert_eq!(item_limit(2), 2);
    assert!(wants_more(1, 2));
    assert!(!wants_more(2, 2));
}

#[test]
fn read_failure_moves_to_failed_unless_dry_run() {
    let o = read_failure("io-task.md".to_string(), true);
    assert_eq!(o.destination, Destination::Stay);
    assert!(o.result.failed);
    let o = read_failure("io-task.md".to_string(), false);
    assert_eq!(o.destination, Destination::Failed);
    assert!(o.result.failed);
    assert!(!o.result.enriched);
    assert_eq!(o.result.action_type, "unknown");
    assert_eq!(o.result.exec_status, "failed");
}

#[test]
fn finishing_an_item() {
    let o = finish_item("dry-task.md".to_string(), None, "note".to_string(), true, false, true, true);
    assert_eq!(o.destination, Destination::Stay);
    assert_eq!(o.result.exec_status, "filed");
    assert!(o.result.enriched);
    let o = finish_item("t.md".to_string(), Some("p".to_string()), "ops".to_string(), true, true, true, false);
    assert_eq!(o.destination, Destination::Processed);
    assert_eq!(o.result.exec_status, "pushed");
    let o = finish_item("io-task.md".to_string(), None, "note".to_string(), true, false, false, false);
    assert_eq!(o.destination, Destination::Failed);
    assert!(o.result.failed);
    assert!(!o.result.enriched);
    assert_eq!(o.result.exec_status, "failed");
    let o = finish_item("io-task.md".to_string(), None, "note".to_string(), false, false, false, true);
    assert_eq!(o.destination, Destination::Stay);
}

fn result(enriched: bool, failed: bool) -> ItemResult {
    ItemResult {
        source_file: "x.md".to_string(),
        project_name: None,
        action_type: "note".to_string(),
        exec_status: "filed".to_string(),
        enriched,
        failed,
        pr_url: None,
    }
}

#[test]
fn run_summary_and_exit_code() {
    let all_failed = vec![result(false, true), result(false, true)];
    assert_eq!(run_exit_code(&all_failed), 1);
    let mixed = vec![result(true, false), result(false, false), result(false, true)];
    assert_eq!(run_exit_code(&mixed), 1);
    let one_bad = vec![result(true, false), result(false, true)];
    assert_eq!(run_exit_code(&one_bad), 1);
    let none_failed = vec![result(true, false), result(false, false)];
    assert_eq!(run_exit_code(&none_failed), 0);
    assert_eq!(run_exit_code(&vec![]), 0);
    assert_eq!(summary_line(&mixed), "Processed 3 items (1 enriched, 1 unenriched, 1 failed).");
    assert!(posts_summary(false, &mixed));
    assert!(!posts_summary(true, &mixed));
    assert!(!posts_summary(false, &vec![]));
}

#[test]
fn item_names_and_title() {
    assert_eq!(source_stem("test-task.md"), "test-task");
    assert_eq!(source_stem("notes.txt"), "notes.txt");
    assert_eq!(report_file_name("2024-03-15_1230", "test-task"), "2024-03-15_1230-test-task-digest.md");
    assert_eq!(task_title("\n  \n  Fix the thing  \nmore", "stem"), "Fix the thing");
    assert_eq!(task_title(" \n", " stem "), "stem");
}

#[test]
fn first_lines_of_item() {
    assert_eq!(first_n_lines("a\nb\nc", 2), "a\nb");
    assert_eq!(first_n_lines("a\r\nb\n", 5), "a\nb");
    assert_eq!(first_n_lines("", 3), "");
    assert_eq!(first_n_lines("x\n\ny", 200), "x\n\ny");
}

#[test]
fn next_inbox_item_is_first_markdown_by_name() {
    let names: Vec<String> = ["c-task.md", "b.txt", ".md", "a-task.md", "B-task.md"].iter().map(|s| s.to_string()).collect();
    assert_eq!(first_inbox_item(&names).as_deref(), Some("B-task.md"));
    assert_eq!(first_inbox_item(&vec!["x.txt".to_string()]), None);
}

#[test]
fn file_stems_and_extensions() {
    assert_eq!(file_stem_and_extension("a.b.md"), ("a.b".to_string(), Some("md".to_string())));
    assert_eq!(file_stem_and_extension(".md"), (".md".to_string(), None));
    assert_eq!(file_stem_and_extension(".."), ("..".to_string(), None));
    assert_eq!(file_stem_and_extension("..md"), (".".to_string(), Some("md".to_string())));
    assert_eq!(file_stem_and_extension("noext"), ("noext".to_string(), None));
}

#[test]
fn log_rotation_decisions() {
    let cutoff = (2024, 2, 10);
    assert!(should_rotate_log("2023-12-31.md", cutoff));
    assert!(should_rotate_log("2024-02-09.md", cutoff));
    assert!(!should_rotate_log("2024-02-10.md", cutoff));
    assert!(!should_rotate_log("2024-03-01.md", cutoff));
    assert!(!should_rotate_log("digest-stderr.log", cutoff));
    assert!(!should_rotate_log("2020-01-01.log", cutoff));
    assert!(!should_rotate_log("notes.md", cutoff));
    assert!(!should_rotate_log("2020-13-01.md", cutoff));
    assert_eq!(log_file_name("2024-02-10"), "2024-02-10.md");
    assert_eq!(log_line("12:00", "a.md", "r.md", "Processed", "ok"), "[12:00] a.md -> r.md -> Processed [ok]\n");
    assert_eq!(temp_file_name(4321), ".tmp-4321");
}

fn take_items(mut inbox: Vec<String>, max_items: usize) -> Vec<String> {
    let limit = item_limit(max_items);
    let mut taken = Vec::new();
    while wants_more(taken.len(), limit) {
        match first_inbox_item(&inbox) {
            Some(n) => {
                inbox.retain(|m| *m != n);
                taken.push(n);
            }
            None => break,
        }
    }
    taken
}

#[test]
fn empty_inbox_run_does_nothing() {
    assert_eq!(run_start(&vec![]), RunStart::Empty);
    assert_eq!(run_start(&vec!["notes.txt".to_string(), "draft.MD".to_string()]), RunStart::Empty);
    assert_eq!(run_start(&vec!["notes.txt".to_string(), "task.md".to_string()]), RunStart::Prepare);
    assert_eq!(run_exit_code(&vec![]), 0);
}

#[test]
fn run_takes_items_in_name_order() {
    let inbox: Vec<String> = ["c-task.md", "notes.txt", "a-task.md", "b-task.md"].iter().map(|s| s.to_string()).collect();
    assert_eq!(take_items(inbox.clone(), 10), vec!["a-task.md", "b-task.md", "c-task.md"]);
    assert_eq!(take_items(inbox.clone(), 0), vec!["a-task.md", "b-task.md", "c-task.md"]);
    assert_eq!(take_items(inbox, 2), vec!["a-task.md", "b-task.md"]);
}

#[test]
fn api_push_steps() {
    let task = "\n  Research Rust async patterns.  \nmore";
    let mut obs = ApiObservations { project_id: None, pushed: None };
    assert!(matches!(api_step(false, task, "api-test", Some("p"), "research", &obs), ApiStep::Done(false)));
    match api_step(true, task, "api-test", Some("my-project"), "research", &obs) {
        ApiStep::EnsureProject(n) => assert_eq!(n, "my-project"),
        _ => panic!("expected the project first"),
    }
    obs.project_id = Some(Some("42".to_string()));
    match api_step(true, task, "api-test", Some("my-project"), "research", &obs) {
        ApiStep::PushTask(title, desc, kind, pid) => {
            assert_eq!(title, "Research Rust async patterns.");
            assert_eq!(desc, task);
            assert_eq!(kind, "research");
            assert_eq!(pid.as_deref(), Some("42"));
        }
        _ => panic!("expected a push"),
    }
    obs.project_id = Some(None);
    match api_step(true, "", " stem ", Some("my-project"), "ops", &obs) {
        ApiStep::PushTask(title, _, kind, pid) => {
            assert_eq!(title, "stem");
            assert_eq!(kind, "dev");
            assert_eq!(pid, None);
        }
        _ => panic!("expected a push"),
    }
    let none_obs = ApiObservations { project_id: None, pushed: None };
    match api_step(true, task, "s", None, "note", &none_obs) {
        ApiStep::PushTask(_, _, _, pid) => assert_eq!(pid, None),
        _ => panic!("expected a push without a project"),
    }
    obs.pushed = Some(true);
    assert!(matches!(api_step(true, task, "s", Some("my-project"), "note", &obs), ApiStep::Done(true)));
    obs.pushed = Some(false);
    assert!(matches!(api_step(true, task, "s", Some("my-project"), "note", &obs), ApiStep::Done(false)));
}

#[test]
fn log_rotation_cutoff_and_files() {
    assert_eq!(rotation_cutoff((2024, 3, 1), 30), Some((2024, 1, 31)));
    assert_eq!(rotation_cutoff((2024, 3, 1), 0), Some((2024, 3, 1)));
    assert_eq!(rotation_cutoff((2023, 1, 5), 5), Some((2022, 12, 31)));
    assert_eq!(rotation_cutoff((2024, 2, 30), 1), None);
    assert_eq!(rotation_cutoff((2024, 3, 1), 1 << 40), None);
    assert_eq!(rotation_cutoff((2024, 3, 1), u64::MAX), Some((2024, 3, 2)));
    let names: Vec<String> = ["2024-01-30.md", "notes.md", "2024-02-01.md", "2023-05-05.md", "2020-01-01.log"]
        .iter()
        .map(|s| s.to_string())
        .collect();
    assert_eq!(logs_to_rotate(&names, (2024, 2, 1)), vec!["2024-01-30.md".to_string(), "2023-05-05.md".to_string()]);
    assert!(logs_to_rotate(&Vec::new(), (2024, 2, 1)).is_empty());
}

#[test]
fn api_configuration_and_answers() {
    assert!(ApiConfig::from_values(None, Some("k".to_string())).is_none());
    assert!(ApiConfig::from_values(Some(String::new()), None).is_none());
    let c = ApiConfig::from_values(Some("https://api.example".to_string()), None).unwrap();
    assert_eq!(c.api_key, "");
    assert_eq!(c.projects_url(), "https://api.example/api/projects");
    assert_eq!(c.tasks_url(), "https://api.example/api/tasks");
    assert_eq!(project_description("blog"), "Auto-created by daily-digest for project: blog");
    assert_eq!(create_project_answer(201), CreateProjectAnswer::Created);
    assert_eq!(create_project_answer(409), CreateProjectAnswer::Exists);
    assert_eq!(create_project_answer(500), CreateProjectAnswer::Failed);
    assert_eq!(create_project_error("blog", "500 Internal Server Error", "oops"), "Failed to create project 'blog': 500 Internal Server Error oops");
    assert_eq!(push_task_error("400 Bad Request", "x"), "Failed to push task: 400 Bad Request x");
    assert_eq!(request_error("timeout"), "HTTP request failed: timeout");
}

#[test]
fn project_lookup_by_name() {
    let list = || vec![
        ProjectResponse { id: "1".to_string(), name: "shop".to_string() },
        ProjectResponse { id: "2".to_string(), name: "blog".to_string() },
        ProjectResponse { id: "3".to_string(), name: "blog".to_string() },
    ];
    let p = find_project(list(), "blog").unwrap();
    assert_eq!(p.id, "2");
    assert_eq!(find_project(list(), "none").unwrap_err(), "Project 'none' not found after 409");
}

fn policy() -> Option<PolicyConfig> {
    PolicyConfig::new(
        vec![
            ("mid".to_string(), ModelConfig { name: "model-mid".to_string(), max_tokens: 1000 }),
            ("expensive".to_string(), ModelConfig { name: "model-big".to_string(), max_tokens: 8000 }),
            ("cheap".to_string(), ModelConfig { name: "model-small".to_string(), max_tokens: 500 }),
        ],
        vec![("research".to_string(), "cheap".to_string()), ("question".to_string(), "nowhere".to_string())],
        PolicyOverrides { deep_tag: default_deep_tag(), deep_tag_model: default_expensive() },
    )
}

#[test]
fn policy_names_must_be_distinct() {
    assert!(policy().is_some());
    let twice = PolicyConfig::new(
        vec![
            ("mid".to_string(), ModelConfig { name: "a".to_string(), max_tokens: 1 }),
            ("mid".to_string(), ModelConfig { name: "b".to_string(), max_tokens: 1 }),
        ],
        vec![],
        PolicyOverrides { deep_tag: default_deep_tag(), deep_tag_model: default_expensive() },
    );
    assert!(twice.is_none());
    let routed_twice = PolicyConfig::new(
        vec![],
        vec![("research".to_string(), "a".to_string()), ("research".to_string(), "b".to_string())],
        PolicyOverrides { deep_tag: default_deep_tag(), deep_tag_model: default_expensive() },
    );
    assert!(routed_twice.is_none());
}

#[test]
fn model_selection() {
    assert_eq!(select_model(&None, "research", "x"), None);
    assert_eq!(select_model(&policy(), "research", "x").as_deref(), Some("model-small"));
    assert_eq!(select_model(&policy(), "execution", "x").as_deref(), Some("model-mid"));
    assert_eq!(select_model(&policy(), "research", "go #deep please").as_deref(), Some("model-big"));
    assert_eq!(select_model(&policy(), "question", "x"), None);
}
