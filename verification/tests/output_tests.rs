use openclaw_daily_digest::discord::{
    bot_authorization, discord_body_at, discord_channel, discord_messages_url, discord_token,
    exec_status_detail, format_discord_message_at, limit_to_discord, token_file_path,
    token_read_error,
};
use openclaw_daily_digest::enrich::{enrich, render_enrichment, EnrichObservations, EnrichStep, ENRICH_FALLBACK};
use openclaw_daily_digest::llm::{accept_output, extract_json};
use openclaw_daily_digest::report::build_report;
use openclaw_daily_digest::types::{Enrichment, ItemResult};

fn mock_enrichment() -> Enrichment {
    Enrichment {
        planned_actions: vec!["Mock action 1".to_string(), "Mock action 2".to_string()],
        clarifying_questions: vec![],
        next_step: "Start".to_string(),
    }
}

#[test]
fn render_enrichment_sections() {
    let r = render_enrichment(&mock_enrichment());
    assert_eq!(
        r,
        "## Planned Actions\n- Mock action 1\n- Mock action 2\n\n## Clarifying Questions\n- None\n\n## Suggested Next Step\n- Start\n"
    );
    let mut e = mock_enrichment();
    e.clarifying_questions = vec!["Which branch?".to_string()];
    let r = render_enrichment(&e);
    assert!(r.contains("## Clarifying Questions\n- Which branch?\n"));
}

#[test]
fn enrichment_degrades_to_fallback() {
    let obs = EnrichObservations { llm_available: Some(false), llm_answer: None };
    match enrich("Some task.", &obs) {
        EnrichStep::Done(enriched, text) => {
            assert!(!enriched);
            assert!(text.contains("manual review required"));
            assert_eq!(text, ENRICH_FALLBACK);
        }
        _ => panic!("expected a decision"),
    }
    let obs = EnrichObservations { llm_available: Some(true), llm_answer: Some(None) };
    match enrich("Some task.", &obs) {
        EnrichStep::Done(enriched, text) => {
            assert!(!enriched);
            assert!(text.contains("manual review required"));
        }
        _ => panic!("expected a decision"),
    }
}

#[test]
fn enrichment_asks_model_and_renders_answer() {
    let obs = EnrichObservations { llm_available: None, llm_answer: None };
    assert!(matches!(enrich("Some task.", &obs), EnrichStep::CheckLlm));
    let obs = EnrichObservations { llm_available: Some(true), llm_answer: None };
    match enrich("Some task.", &obs) {
        EnrichStep::AskLlm(args) => {
            assert_eq!(args[0], "agent");
            assert!(args[6].starts_with("You are a strict JSON API. Given the task below"));
            assert!(args[6].ends_with("Task:\nSome task."));
        }
        _ => panic!("expected a model call"),
    }
    let obs = EnrichObservations { llm_available: Some(true), llm_answer: Some(Some(mock_enrichment())) };
    match enrich("Some task.", &obs) {
        EnrichStep::Done(enriched, text) => {
            assert!(enriched);
            assert!(text.contains("## Planned Actions"));
            assert!(text.contains("Mock action 1"));
        }
        _ => panic!("expected a decision"),
    }
}

#[test]
fn json_is_found_in_model_output() {
    assert_eq!(extract_json("  {\"a\": 1}\n").as_deref(), Some("{\"a\": 1}"));
    let fenced = "Here you go:\n```json\n{\n  \"a\": [1, 2]\n}\n```\nBye";
    assert_eq!(extract_json(fenced).as_deref(), Some("{\n  \"a\": [1, 2]\n}"));
    assert_eq!(extract_json("no json here"), None);
    assert_eq!(extract_json("{ not json }"), None);
    assert_eq!(extract_json(""), None);
}

#[test]
fn model_output_must_be_successful_and_not_blank() {
    assert_eq!(accept_output(true, "answer".to_string()).as_deref(), Some("answer"));
    assert_eq!(accept_output(true, " \n\t".to_string()), None);
    assert_eq!(accept_output(false, "answer".to_string()), None);
}

#[test]
fn report_layout() {
    let json = Some("{\n  \"next_step\": \"x\"\n}".to_string());
    let r = build_report(
        "Pick up milk.",
        "groceries",
        "none",
        None,
        "default",
        "note",
        "default",
        "## Planned Actions\n- A\n",
        true,
        &json,
        false,
    );
    assert!(r.starts_with("---\ntags:\n  - digest\nsource: \"[[groceries]]\"\n---\n\nSource: [[groceries]]\n\nPick up milk.\n\n---\n\n"));
    assert!(r.contains("**Type:** note"));
    assert!(r.contains("- Skipped (no API configured)\n\n## Planned Actions"));
    assert!(r.ends_with("\n## Enrichment (raw JSON)\n\n```json\n{\n  \"next_step\": \"x\"\n}\n```\n"));
    let r = build_report("T", "s", "new", Some("proj"), "tag", "ops", "keyword", "E", false, &json, true);
    assert!(r.contains("tags:\n  - digest\n  - proj\n"));
    assert!(r.contains("- **Kind:** new\n- **Project:** proj\n- **Method:** tag\n\n"));
    assert!(r.contains("- Task pushed to task-orchestrator API\n\n"));
    assert!(!r.contains("raw JSON"));
}

fn item(name: &str, status: &str, enriched: bool, failed: bool) -> ItemResult {
    ItemResult {
        source_file: name.to_string(),
        project_name: None,
        action_type: "note".to_string(),
        exec_status: status.to_string(),
        enriched,
        failed,
        pr_url: None,
    }
}

#[test]
fn discord_body_exact() {
    let results = vec![item("a.md", "no-op", false, true), item("b.md", "weird", true, false)];
    let body = discord_body_at("2024-01-02 03:04", &results);
    assert_eq!(
        body,
        "**Daily Digest** \u{2014} 2024-01-02 03:04\n\nProcessed 2 items:\n- `a.md` \u{2192} **none** (note) \u{2014} no changes\n- `b.md` \u{2192} **none** (note) \u{2014} weird\n\nEnriched: 1 | Unenriched: 0 | Failed: 1"
    );
    assert_eq!(exec_status_detail("pushed"), "pushed (PR failed)");
    assert_eq!(exec_status_detail("skipped"), "skipped");
    assert_eq!(exec_status_detail("failed"), "failed");
}

#[test]
fn discord_message_is_cut_to_limit() {
    let results: Vec<ItemResult> = (0..60).map(|i| item(&format!("item-{:03}.md", i), "none", false, false)).collect();
    let msg = format_discord_message_at("2024-01-02 03:04", &results);
    assert_eq!(msg.len(), 2005);
    assert!(msg.ends_with("\n...(truncated)"));
    let body = discord_body_at("2024-01-02 03:04", &results);
    assert!(body.len() > 2000);
    assert_eq!(&msg[..1990], &body[..1990]);
    let short = format_discord_message_at("now", &vec![item("one.md", "none", false, false)]);
    assert!(!short.contains("truncated"));
}

#[test]
fn discord_cut_inside_a_character_is_refused() {
    // 1989 ASCII bytes, then a 2-byte character across byte 1990.
    let mut body = "a".repeat(1989);
    body.push('\u{e9}');
    body.push_str(&"b".repeat(20));
    assert_eq!(limit_to_discord(body), None);
    let mut ok = "a".repeat(1990);
    ok.push('\u{e9}');
    ok.push_str(&"b".repeat(20));
    assert_eq!(limit_to_discord(ok.clone()).unwrap(), format!("{}\n...(truncated)", "a".repeat(1990)));
    assert_eq!(limit_to_discord("short".to_string()).as_deref(), Some("short"));
}

#[test]
fn discord_posting_pieces() {
    assert_eq!(discord_token("  abc \n").unwrap(), "abc");
    assert_eq!(discord_token(" \n").unwrap_err(), "Bot token is empty");
    assert_eq!(token_file_path(Some("/x/t".to_string()), Some("/h".to_string())), "/x/t");
    assert_eq!(token_file_path(None, Some("/home/k".to_string())), "/home/k/.digest-bot-token");
    assert_eq!(token_file_path(None, None), "/root/.digest-bot-token");
    assert_eq!(discord_channel(None), "1477340656350396668");
    assert_eq!(discord_channel(Some("42".to_string())), "42");
    assert_eq!(discord_messages_url("42"), "https://discord.com/api/v10/channels/42/messages");
    assert_eq!(bot_authorization("tok"), "Bot tok");
    assert!(token_read_error("/nonexistent/token", "No such file").contains("Cannot read token file"));
}
