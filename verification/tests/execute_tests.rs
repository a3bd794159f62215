use openclaw_daily_digest::execute::{
    branch_name, commit_message, dangerous_pattern, execute_handler, execute_inputs_valid, pr_title,
    timestamp_cut_possible, title_cut_ok, ExecObservations, ExecStep,
};
use openclaw_daily_digest::git::{default_branch, pull_request_url, repo_lookup_name, untracked_files};

fn obs() -> ExecObservations {
    ExecObservations {
        llm_available: None,
        llm_output: None,
        repo_dir: None,
        default_branch: None,
        fetched: false,
        checked_out_default: None,
        pulled: false,
        created_branch: None,
        worktree_clean: None,
        index_clean: None,
        has_untracked: None,
        staged: false,
        committed: None,
        pushed: None,
        pr_url: None,
    }
}

fn run(action: &str, task: &str, o: &ExecObservations) -> ExecStep {
    assert!(execute_inputs_valid(action, task, "2024-03-15_1230", Some("proj"), "existing", o));
    execute_handler(action, task, "2024-03-15_1230", "my-task", &None, Some("proj"), "existing", "PLAN", o)
}

fn git_args(step: ExecStep) -> Vec<String> {
    match step {
        ExecStep::Git(_, a) => a,
        _ => panic!("expected a git command"),
    }
}

#[test]
fn notes_need_no_execution() {
    match run("note", "Buy milk", &obs()) {
        ExecStep::Done(o) => {
            assert_eq!(o.status, "none");
            assert_eq!(o.record.handler, "note");
            assert_eq!(o.record.reason.as_deref(), Some("No execution required for notes"));
        }
        _ => panic!("expected an outcome"),
    }
}

#[test]
fn research_report_flow() {
    let mut o = obs();
    assert!(matches!(run("research", "Compare tools", &o), ExecStep::CheckLlm));
    o.llm_available = Some(false);
    match run("research", "Compare tools", &o) {
        ExecStep::Done(out) => {
            assert_eq!(out.status, "skipped");
            assert_eq!(out.record.reason.as_deref(), Some("OpenClaw not available"));
        }
        _ => panic!("expected an outcome"),
    }
    o.llm_available = Some(true);
    match run("question", "Why?", &o) {
        ExecStep::AskLlm(args) => {
            assert_eq!(&args[..5], &["agent", "--agent", "main", "--timeout", "120"]);
            assert!(args[6].starts_with("You are an expert assistant."));
            assert!(args[6].ends_with("Question:\nWhy?"));
        }
        _ => panic!("expected a model call"),
    }
    o.llm_output = Some(Some("## Summary\nok".to_string()));
    match run("research", "Compare tools", &o) {
        ExecStep::Done(out) => {
            assert_eq!(out.status, "completed");
            assert_eq!(out.output_file.as_deref(), Some("2024-03-15_1230-my-task.research.md"));
            assert_eq!(out.write, Some(("2024-03-15_1230-my-task.research.md".to_string(), "## Summary\nok".to_string())));
        }
        _ => panic!("expected an outcome"),
    }
    o.llm_output = Some(None);
    match run("research", "Compare tools", &o) {
        ExecStep::Done(out) => {
            assert_eq!(out.status, "failed");
            assert!(out.write.is_none());
        }
        _ => panic!("expected an outcome"),
    }
}

#[test]
fn ops_tasks_are_screened() {
    assert_eq!(dangerous_pattern("Please RM -RF the cache").as_deref(), Some("rm -rf"));
    assert_eq!(dangerous_pattern("rotate the Credentials and sudoers"), Some("credential".to_string()));
    assert_eq!(dangerous_pattern("brew install jq"), None);
    let mut o = obs();
    o.llm_available = Some(true);
    match run("ops", "edit sudoers file", &o) {
        ExecStep::Done(out) => {
            assert_eq!(out.status, "skipped");
            assert_eq!(out.record.reason.as_deref(), Some("Skipped: potentially unsafe (matched: sudoers)"));
        }
        _ => panic!("expected an outcome"),
    }
    match run("ops", "brew install jq", &o) {
        ExecStep::AskLlm(args) => {
            assert_eq!(&args[..5], &["agent", "--agent", "default", "--timeout", "120"]);
            assert!(args[6].starts_with("Execute the following ops task."));
        }
        _ => panic!("expected a model call"),
    }
    o.llm_output = Some(None);
    match run("ops", "brew install jq", &o) {
        ExecStep::Done(out) => {
            assert_eq!(out.status, "failed");
            let (file, log) = out.write.unwrap();
            assert_eq!(file, "2024-03-15_1230-my-task.ops-log.md");
            assert!(log.contains("```\n(no output)\n```"));
            assert!(log.ends_with("## Status\n\nfailed\n"));
        }
        _ => panic!("expected an outcome"),
    }
}

#[test]
fn branch_names_and_messages() {
    assert_eq!(branch_name("My Task!_v2", "2024-03-15_1230"), "agent/mytaskv2-0315");
    assert_eq!(branch_name("x", "12-3"), "agent/x-123");
    assert!(timestamp_cut_possible("2024-03-15_1230"));
    assert!(!timestamp_cut_possible("202\u{e9}0315"));
    let task = "\nProject:Project: Fix The Writer \nmore";
    assert_eq!(commit_message(task, "stem"), "feat: fix the writer\n\nAutonomously executed by openclaw-daily-digest.\nSource: stem");
    assert!(title_cut_ok(task));
    assert_eq!(pr_title(task), "Fix The Writer");
    let long = "a".repeat(100);
    assert_eq!(pr_title(&long), "a".repeat(70));
    let mut bad = "a".repeat(69);
    bad.push('\u{e9}');
    bad.push_str("zzzz");
    assert!(!title_cut_ok(&bad));
    assert_eq!(commit_message("   ", "s"), "feat: agent task\n\nAutonomously executed by openclaw-daily-digest.\nSource: s");
}

#[test]
fn repo_change_happy_path() {
    let task = "Fix the parser";
    let mut o = obs();
    match run("repo-change", task, &o) {
        ExecStep::FindRepo(name) => assert_eq!(name, "proj"),
        _ => panic!("expected a repository lookup"),
    }
    o.repo_dir = Some(Some("/work/proj".to_string()));
    assert!(matches!(run("repo-change", task, &o), ExecStep::CheckLlm));
    o.llm_available = Some(true);
    assert!(matches!(run("repo-change", task, &o), ExecStep::DefaultBranch));
    o.default_branch = Some("main".to_string());
    assert_eq!(git_args(run("repo-change", task, &o)), vec!["fetch", "origin"]);
    o.fetched = true;
    assert_eq!(git_args(run("repo-change", task, &o)), vec!["checkout", "main"]);
    o.checked_out_default = Some(true);
    assert_eq!(git_args(run("repo-change", task, &o)), vec!["pull", "--ff-only"]);
    o.pulled = true;
    assert_eq!(git_args(run("repo-change", task, &o)), vec!["checkout", "-b", "agent/my-task-0315"]);
    o.created_branch = Some(true);
    match run("repo-change", task, &o) {
        ExecStep::AskLlmInRepo(args) => {
            assert_eq!(&args[..5], &["agent", "--agent", "default", "--timeout", "300"]);
            assert_eq!(args[6], "You are working in the repository at /work/proj. Execute the following task.\n\nTask:\nFix the parser\n\nPlanned actions:\nPLAN");
        }
        _ => panic!("expected a model call"),
    }
    o.llm_output = Some(Some("did it".to_string()));
    assert_eq!(git_args(run("repo-change", task, &o)), vec!["diff", "--quiet"]);
    o.worktree_clean = Some(true);
    assert_eq!(git_args(run("repo-change", task, &o)), vec!["diff", "--cached", "--quiet"]);
    o.index_clean = Some(true);
    assert!(matches!(run("repo-change", task, &o), ExecStep::ListUntracked));
    o.has_untracked = Some(true);
    assert_eq!(git_args(run("repo-change", task, &o)), vec!["add", "-A"]);
    o.staged = true;
    let commit = git_args(run("repo-change", task, &o));
    assert_eq!(commit[0], "commit");
    assert!(commit[2].starts_with("feat: fix the parser"));
    o.committed = Some(true);
    assert_eq!(git_args(run("repo-change", task, &o)), vec!["push", "-u", "origin", "agent/my-task-0315"]);
    o.pushed = Some(true);
    match run("repo-change", task, &o) {
        ExecStep::CreatePr(title, body, base) => {
            assert_eq!(title, "Fix the parser");
            assert!(body.starts_with("## Task\n\nFix the parser\n\n## Planned Actions\n\nPLAN"));
            assert_eq!(base, "main");
        }
        _ => panic!("expected a pull request"),
    }
    o.pr_url = Some(Some("https://github.com/o/r/pull/1".to_string()));
    match run("repo-change", task, &o) {
        ExecStep::Done(out) => {
            assert_eq!(out.status, "completed");
            assert_eq!(out.pr_url.as_deref(), Some("https://github.com/o/r/pull/1"));
            assert_eq!(out.record.branch.as_deref(), Some("agent/my-task-0315"));
            assert_eq!(out.git_after, vec![vec!["checkout".to_string(), "main".to_string()]]);
            let (file, log) = out.write.unwrap();
            assert_eq!(file, "2024-03-15_1230-my-task.repo-change.md");
            assert!(log.contains("- **PR:** https://github.com/o/r/pull/1\n- **Status:** completed"));
        }
        _ => panic!("expected an outcome"),
    }
    o.pr_url = Some(None);
    match run("repo-change", task, &o) {
        ExecStep::Done(out) => {
            assert_eq!(out.status, "pushed");
            assert_eq!(out.record.pr_url, Some(None));
        }
        _ => panic!("expected an outcome"),
    }
}

#[test]
fn repo_change_cleans_up_without_changes() {
    let mut o = obs();
    o.repo_dir = Some(Some("/r".to_string()));
    o.llm_available = Some(true);
    o.default_branch = Some("master".to_string());
    o.fetched = true;
    o.checked_out_default = Some(true);
    o.pulled = true;
    o.created_branch = Some(true);
    o.llm_output = Some(Some("nothing".to_string()));
    o.worktree_clean = Some(true);
    o.index_clean = Some(true);
    o.has_untracked = Some(false);
    match run("repo-change", "Fix x", &o) {
        ExecStep::Done(out) => {
            assert_eq!(out.status, "no-op");
            assert_eq!(
                out.git_after,
                vec![
                    vec!["checkout".to_string(), "master".to_string()],
                    vec!["branch".to_string(), "-D".to_string(), "agent/my-task-0315".to_string()],
                ]
            );
        }
        _ => panic!("expected an outcome"),
    }
}

#[test]
fn repo_change_without_project_is_skipped() {
    let o = obs();
    let step = execute_handler("repo-change", "Fix", "2024-03-15_1230", "s", &None, None, "none", "", &o);
    match step {
        ExecStep::Done(out) => {
            assert_eq!(out.status, "skipped");
            assert_eq!(out.record.reason.as_deref(), Some("Cannot determine target repo"));
        }
        _ => panic!("expected an outcome"),
    }
    assert_eq!(repo_lookup_name(Some("p"), "none"), None);
    assert_eq!(repo_lookup_name(Some("p"), "new").as_deref(), Some("p"));
}

#[test]
fn git_answers() {
    assert_eq!(default_branch(Some("origin/develop\n".to_string()), false), "develop");
    assert_eq!(default_branch(Some("trunk".to_string()), false), "trunk");
    assert_eq!(default_branch(None, true), "main");
    assert_eq!(default_branch(None, false), "master");
    assert_eq!(untracked_files("a.txt\n\nb/c.rs\n"), vec!["a.txt".to_string(), "b/c.rs".to_string()]);
    assert_eq!(pull_request_url(" https://x/pull/2\n"), ("https://x/pull/2".to_string(), true));
    assert_eq!(pull_request_url("created"), ("created".to_string(), false));
}
