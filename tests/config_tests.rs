use dnd_agent_game::codex::{AgentStreamEvent, CodexRunner, RunnerError, collect_turn_result};
use dnd_agent_game::config::{AppConfig, ConfigError, join_path, migrate_config, parent_dir, validate_config};
use dnd_agent_game::repair::TurnKind;
use dnd_agent_game::types::RunMode;

fn event(kind: Option<&str>) -> AgentStreamEvent {
    AgentStreamEvent {
        kind: kind.map(|s| s.to_string()),
        thread_id: None,
        message: None,
        error_message: None,
        item_type: None,
        item_text: None,
        item_message: None,
    }
}

#[test]
fn default_config_values() {
    let c = AppConfig::default();
    assert_eq!(c.runtime.default_mode, RunMode::Local);
    assert!(c.runtime.no_turn_timeout);
    assert_eq!(c.secrets.local_openai_api_key, "sx-xxx");
    assert_eq!(c.paths.campaign_root, "data/campaigns");
}

#[test]
fn paths_resolve_against_config_directory() {
    let c = AppConfig::default();
    let p = c.resolve_paths("app/config.toml").unwrap();
    assert_eq!(p.app_root, "app");
    assert_eq!(p.campaign_root, "app/data/campaigns");
    assert_eq!(p.schema_dir, "app/schemas");
    let bare = c.resolve_paths("config.toml").unwrap();
    assert_eq!(bare.campaign_root, "data/campaigns");
    assert_eq!(parent_dir("/config.toml"), "/");
    assert_eq!(parent_dir(""), ".");
    assert_eq!(join_path("base", "/abs"), "/abs");
    assert_eq!(join_path("base/", "x"), "base/x");
}

#[test]
fn legacy_key_is_migrated_and_timeout_is_refused() {
    let mut c = AppConfig::default();
    c.secrets.local_openai_api_key = " replace-me-local-key ".to_string();
    assert!(migrate_config(&mut c));
    assert_eq!(c.secrets.local_openai_api_key, "sx-xxx");
    assert!(!migrate_config(&mut c));
    assert_eq!(validate_config(&c), Ok(()));
    c.runtime.no_turn_timeout = false;
    assert_eq!(validate_config(&c), Err(ConfigError::TurnTimeoutNotAllowed));
}

#[test]
fn runner_profiles_and_invocation() {
    let c = AppConfig::default();
    let paths = c.resolve_paths("cfg/config.toml").unwrap();
    let runner = CodexRunner::new(RunMode::Local, AppConfig::default(), paths, "/work".to_string());
    assert_eq!(runner.mode(), RunMode::Local);
    assert_eq!(runner.select_profile("dm_agent"), Some("dm_local"));
    assert_eq!(runner.select_profile("player_ai_3"), Some("player_local"));
    assert_eq!(runner.select_profile("human_player"), None);
    assert_eq!(runner.output_dir, "cfg/.runtime/codex-output");
    let inv = runner
        .plan_invocation("dm_agent", TurnKind::DirectorTurn, "go", Some("t-1"), "out.txt")
        .unwrap();
    assert_eq!(
        inv.args,
        vec!["exec", "--skip-git-repo-check", "--json", "-o", "out.txt", "--output-schema",
             "cfg/schemas/dm_turn.schema.json", "-p", "dm_local", "resume", "t-1", "go"]
    );
    assert_eq!(inv.env[0].name, "OPENAI_API_KEY");
    assert_eq!(inv.env[0].value, "sx-xxx");
    assert_eq!(inv.env[1].value, "cfg/.runtime/codex-local-home");

    let mut blank = AppConfig::default();
    blank.secrets.local_openai_api_key = "  ".to_string();
    let paths = c.resolve_paths("cfg/config.toml").unwrap();
    let local = CodexRunner::new(RunMode::Local, blank, paths, "/work".to_string());
    assert_eq!(local.plan_invocation("dm_agent", TurnKind::WhisperApproval, "go", None, "o").err(), Some(RunnerError::MissingLocalKey));

    let paths = c.resolve_paths("cfg/config.toml").unwrap();
    let remote = CodexRunner::new(RunMode::Remote, AppConfig::default(), paths, "/w".to_string());
    assert_eq!(remote.select_profile("dm_agent"), None);
    let inv = remote.plan_invocation("player_ai_1", TurnKind::PlayerTurn, "hi", None, "o").unwrap();
    assert_eq!(inv.args.last().map(|s| s.as_str()), Some("hi"));
    assert!(inv.env.is_empty());
}

#[test]
fn stream_is_folded_into_a_result() {
    let mut started = event(Some("thread.started"));
    started.thread_id = Some("th-1".to_string());
    let mut reasoning = event(Some("item.completed"));
    reasoning.item_type = Some("reasoning".to_string());
    reasoning.item_text = Some("thinking".to_string());
    let mut msg = event(Some("item.completed"));
    msg.item_type = Some("agent_message".to_string());
    msg.item_text = Some("{\"a\":1}".to_string());
    let events = vec![started, reasoning, msg];
    let r = collect_turn_result(&events, Vec::new(), None, true, String::new()).unwrap();
    assert_eq!(r.thread_id.as_deref(), Some("th-1"));
    assert_eq!(r.last_message, "{\"a\":1}");
    assert_eq!(r.reasoning_text, vec!["thinking".to_string()]);
    assert!(r.errors.is_empty());

    let from_file = collect_turn_result(&events, Vec::new(), Some("  final  \n".to_string()), true, String::new()).unwrap();
    assert_eq!(from_file.last_message, "final");
}

#[test]
fn failed_call_without_message_is_an_error() {
    let mut err = event(Some("error"));
    err.message = Some("boom".to_string());
    let mut failed = event(Some("turn.failed"));
    failed.error_message = Some("bust".to_string());
    let r = collect_turn_result(&vec![err, failed], Vec::new(), None, false, "exit 1".to_string());
    assert_eq!(r.err(), Some("boom | bust".to_string()));
    let r = collect_turn_result(&Vec::new(), Vec::new(), Some("   ".to_string()), false, "exit 2".to_string());
    assert_eq!(r.err(), Some("exit 2".to_string()));
    let ok = collect_turn_result(&Vec::new(), Vec::new(), None, true, String::new()).unwrap();
    assert_eq!(ok.last_message, "");
}
