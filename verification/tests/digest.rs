use openclaw_daily_digest::api::map_task_type;
use openclaw_daily_digest::discord::format_discord_message;
use openclaw_daily_digest::types::ItemResult;

#[test]
fn test_map_task_type() {
    assert_eq!(map_task_type("research"), "research");
    assert_eq!(map_task_type("question"), "research");
    assert_eq!(map_task_type("repo-change"), "dev");
    assert_eq!(map_task_type("ops"), "dev");
    assert_eq!(map_task_type("note"), "dev");
}

#[test]
fn test_discord_message_formatting() {
    let results = vec![
        ItemResult {
            source_file: "fix-bug.md".to_string(),
            project_name: Some("my-project".to_string()),
            action_type: "repo-change".to_string(),
            exec_status: "completed".to_string(),
            enriched: true,
            failed: false,
            pr_url: Some("https://github.com/org/repo/pull/42".to_string()),
        },
        ItemResult {
            source_file: "research-ai.md".to_string(),
            project_name: None,
            action_type: "research".to_string(),
            exec_status: "completed".to_string(),
            enriched: true,
            failed: false,
            pr_url: None,
        },
        ItemResult {
            source_file: "grocery-list.md".to_string(),
            project_name: None,
            action_type: "note".to_string(),
            exec_status: "none".to_string(),
            enriched: false,
            failed: false,
            pr_url: None,
        },
    ];

    let msg = format_discord_message(&results).unwrap();

    // Header
    assert!(msg.contains("**Daily Digest** \u{2014}"));
    assert!(msg.contains("Processed 3 items:"));
    // Per-item lines use markdown dash, not bullet
    assert!(msg.contains("- `fix-bug.md` \u{2192} **my-project** (repo-change) \u{2014} PR opened: <https://github.com/org/repo/pull/42>"));
    assert!(msg.contains("- `research-ai.md` \u{2192} **none** (research) \u{2014} completed"));
    assert!(msg.contains("- `grocery-list.md` \u{2192} **none** (note) \u{2014} filed"));
    // Summary
    assert!(msg.contains("Enriched: 2 | Unenriched: 1 | Failed: 0"));
}
