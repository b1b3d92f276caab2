use dnd_agent_game::campaign::CampaignRuntime;
use dnd_agent_game::commands::{
    CampaignSelection, CommandError, parse_campaign_selection, HumanCommand, ModeChoice, ThemeChoice, classify_human_input,
    parse_human_whisper_command, parse_mode_choice, theme_kept_indices,
};
use dnd_agent_game::driver::{ActorTurnDriver, GateStep, TurnStep, WhisperGateDriver};
use dnd_agent_game::registry::HumanIdentity;
use dnd_agent_game::types::{AgentTurnResponse, RunMode, WhisperDecision};

#[test]
fn human_lines_are_classified() {
    assert_eq!(classify_human_input("   "), HumanCommand::Empty);
    assert_eq!(classify_human_input(" /PASS "), HumanCommand::Pass);
    assert_eq!(classify_human_input("/exit"), HumanCommand::Quit);
    assert_eq!(classify_human_input("/Quit"), HumanCommand::Quit);
    assert_eq!(classify_human_input("/help"), HumanCommand::Help);
    assert_eq!(classify_human_input("/history"), HumanCommand::History);
    assert_eq!(classify_human_input("/w p1 hi"), HumanCommand::Whisper);
    assert_eq!(classify_human_input("/whisper p1 hi"), HumanCommand::Whisper);
    assert_eq!(classify_human_input("/wave"), HumanCommand::Say);
    assert_eq!(classify_human_input("Hello there"), HumanCommand::Say);
}

#[test]
fn whisper_command_is_split() {
    let (target, message) = parse_human_whisper_command("/w p2   meet me later ").unwrap();
    assert_eq!(target, "p2");
    assert_eq!(message, "meet me later");
    let (target, message) = parse_human_whisper_command("/WHISPER dm a secret").unwrap();
    assert_eq!(target, "dm");
    assert_eq!(message, "a secret");
    assert_eq!(parse_human_whisper_command("/w p2").err(), Some(CommandError::Usage));
    assert_eq!(parse_human_whisper_command("/say p2 hi").err(), Some(CommandError::NotWhisper));
}

#[test]
fn mode_choices() {
    assert!(matches!(parse_mode_choice("  "), ModeChoice::Default));
    assert!(matches!(parse_mode_choice(" L "), ModeChoice::Chosen(RunMode::Local)));
    assert!(matches!(parse_mode_choice("Remote"), ModeChoice::Chosen(RunMode::Remote)));
    assert!(matches!(parse_mode_choice("cloud"), ModeChoice::Unknown));
}

#[test]
fn theme_removal_lists() {
    match theme_kept_indices("", 4) {
        ThemeChoice::Kept(v) => assert_eq!(v, vec![0, 1, 2, 3]),
        _ => panic!("expected all themes"),
    }
    match theme_kept_indices(" 2, 4,,+1 ", 5) {
        ThemeChoice::Kept(v) => assert_eq!(v, vec![2, 4]),
        _ => panic!("expected kept themes"),
    }
    assert!(matches!(theme_kept_indices("2,x", 5), ThemeChoice::InvalidList));
    assert!(matches!(theme_kept_indices("0", 5), ThemeChoice::InvalidList));
    assert!(matches!(theme_kept_indices("6", 5), ThemeChoice::InvalidList));
    assert!(matches!(theme_kept_indices("99999999999999999999999", 5), ThemeChoice::InvalidList));
    assert!(matches!(theme_kept_indices("1,2", 2), ThemeChoice::NoneLeft));
}

fn turn(next: Option<&str>) -> AgentTurnResponse {
    AgentTurnResponse {
        public_message: "The bridge sways.".to_string(),
        actions: Vec::new(),
        next_actor_id: next.map(|s| s.to_string()),
        note: None,
    }
}

#[test]
fn driver_repairs_twice_then_accepts_on_same_handle() {
    let mut rt = CampaignRuntime::create_new("data", RunMode::Remote);
    rt.set_thread_id("dm_agent", "th-dm".to_string()).unwrap();
    let h = HumanIdentity::new("Luna".to_string(), "she/her".to_string());
    let mut driver = ActorTurnDriver::start(&rt, "dm_agent");
    let mut handles = vec![driver.thread_for_call()];
    let first = driver.on_reply(&mut rt, &h, Some("th-dm".to_string()), "oops", None).unwrap();
    assert!(matches!(first, TurnStep::Retry { .. }));
    handles.push(driver.thread_for_call());
    let second = driver.on_reply(&mut rt, &h, None, "{nope", None).unwrap();
    assert!(matches!(second, TurnStep::Retry { .. }));
    handles.push(driver.thread_for_call());
    let third = driver
        .on_reply(&mut rt, &h, Some("th-dm".to_string()), "{...}", Some(turn(Some("player_ai_1"))))
        .unwrap();
    match third {
        TurnStep::Accepted { next_actor, .. } => assert_eq!(next_actor, Some("player_ai_1")),
        _ => panic!("expected an accepted turn"),
    }
    assert!(handles.iter().all(|t| t.as_deref() == Some("th-dm")));
    assert_eq!(rt.events.len(), 1);
    assert_eq!(rt.sessions.sessions[0].last_message.as_deref(), Some("{...}"));
}

#[test]
fn director_exhaustion_fails_and_player_exhaustion_is_a_noop() {
    let mut rt = CampaignRuntime::create_new("data", RunMode::Remote);
    let h = HumanIdentity::new("Luna".to_string(), "she/her".to_string());
    let mut dm = ActorTurnDriver::start(&rt, "dm_agent");
    assert!(matches!(dm.on_reply(&mut rt, &h, None, "a", None).unwrap(), TurnStep::Retry { .. }));
    assert!(matches!(dm.on_reply(&mut rt, &h, None, "b", Some(turn(None))).unwrap(), TurnStep::Retry { .. }));
    assert!(matches!(dm.on_reply(&mut rt, &h, None, "c", Some(turn(Some("nobody")))).unwrap(), TurnStep::Failed));
    assert!(rt.events.is_empty());

    let mut p = ActorTurnDriver::start(&rt, "player_ai_2");
    for _ in 0..2 {
        assert!(matches!(p.on_reply(&mut rt, &h, None, "x", None).unwrap(), TurnStep::Retry { .. }));
    }
    assert!(matches!(p.on_reply(&mut rt, &h, None, "x", None).unwrap(), TurnStep::NoOp));
    assert!(rt.events.is_empty());
    assert_eq!(rt.recent_notes("dm_agent", 12).len(), 1);
    assert_eq!(rt.state.round_index, 0);
}

#[test]
fn campaign_menu_answers() {
    let ids = vec!["aaa".to_string(), "bbb".to_string()];
    assert!(matches!(parse_campaign_selection(" N ", &ids), CampaignSelection::New));
    assert!(matches!(parse_campaign_selection("new", &ids), CampaignSelection::New));
    assert!(matches!(parse_campaign_selection("2", &ids), CampaignSelection::Existing(1)));
    assert!(matches!(parse_campaign_selection("bbb", &ids), CampaignSelection::Existing(1)));
    assert!(matches!(parse_campaign_selection("3", &ids), CampaignSelection::Unknown));
    assert!(matches!(parse_campaign_selection("0", &ids), CampaignSelection::Unknown));
    assert!(matches!(parse_campaign_selection("ccc", &ids), CampaignSelection::Unknown));
}

#[test]
fn whisper_gate_repairs_then_denies_unreadable_decisions() {
    let mut rt = CampaignRuntime::create_new("data", RunMode::Remote);
    rt.set_thread_id("dm_agent", "th-dm".to_string()).unwrap();
    let mut gate = WhisperGateDriver::start(&rt);
    assert_eq!(gate.thread_for_call().as_deref(), Some("th-dm"));
    for bad in ["nope", "still nope"] {
        match gate.on_reply(&mut rt, None, bad, None) {
            GateStep::Retry { prompt } => assert!(prompt.ends_with(bad)),
            GateStep::Decided(_) => panic!("expected a retry"),
        }
    }
    match gate.on_reply(&mut rt, None, "never", None) {
        GateStep::Decided(o) => {
            assert!(!o.approved);
            assert_eq!(o.reason.as_deref(), Some("DM whisper decision could not be parsed as JSON."));
        }
        GateStep::Retry { .. } => panic!("expected a decision"),
    }
    assert!(rt.events.is_empty());
    assert_eq!(rt.sessions.sessions[0].last_message.as_deref(), Some("never"));
    assert_eq!(rt.get_thread_id("dm_agent").as_deref(), Some("th-dm"));
}

#[test]
fn whisper_gate_accepts_a_decision() {
    let mut rt = CampaignRuntime::create_new("data", RunMode::Remote);
    let mut gate = WhisperGateDriver::start(&rt);
    let d = WhisperDecision { approve: true, reason: Some("fine".to_string()) };
    match gate.on_reply(&mut rt, Some("th-new".to_string()), "{\"approve\":true}", Some(d)) {
        GateStep::Decided(o) => {
            assert!(o.approved);
            assert_eq!(o.reason.as_deref(), Some("fine"));
        }
        GateStep::Retry { .. } => panic!("expected a decision"),
    }
    assert_eq!(rt.get_thread_id("dm_agent").as_deref(), Some("th-new"));
}

#[test]
fn accepted_turn_posts_message_and_noop_leaves_a_director_note() {
    let mut rt = CampaignRuntime::create_new("data", RunMode::Remote);
    let h = HumanIdentity::new("Luna".to_string(), "she/her".to_string());
    let mut dm = ActorTurnDriver::start(&rt, "dm_agent");
    let mut reply = turn(Some("player_ai_1"));
    reply.public_message = "  Welcome  ".to_string();
    match dm.on_reply(&mut rt, &h, Some("t1".to_string()), "{..}", Some(reply)).unwrap() {
        TurnStep::Accepted { next_actor, .. } => assert_eq!(next_actor, Some("player_ai_1")),
        _ => panic!("expected an accepted turn"),
    }
    assert_eq!(rt.events.len(), 1);
    assert_eq!(rt.events[0].speaker, "dm_agent");
    assert_eq!(rt.events[0].message, "Welcome");
    assert_eq!(rt.get_thread_id("dm_agent").as_deref(), Some("t1"));
    assert_eq!(rt.state.mode, RunMode::Remote);

    let mut dm2 = ActorTurnDriver::start(&rt, "dm_agent");
    for _ in 0..3 {
        dm2.on_reply(&mut rt, &h, None, "junk", None).unwrap();
    }
    assert_eq!(rt.events.len(), 1);
    assert!(rt.recent_notes("dm_agent", 12).is_empty());

    let mut p = ActorTurnDriver::start(&rt, "player_ai_3");
    for _ in 0..3 {
        p.on_reply(&mut rt, &h, None, "junk", None).unwrap();
    }
    let notes = rt.recent_notes("dm_agent", 12);
    assert_eq!(notes.len(), 1);
    assert_eq!(notes[0].text, "Player 3 produced invalid turn output after 2 retries; output suppressed.");
    assert!(rt.recent_notes("player_ai_3", 12).is_empty());
}
