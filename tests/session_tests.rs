use dnd_agent_game::actors::{all_actor_ids, public_actor_token};
use dnd_agent_game::campaign::{CampaignError, CampaignRuntime, default_sheet_for_actor};
use dnd_agent_game::registry::{HumanIdentity, actor_label, resolve_actor_id, valid_targets_csv};
use dnd_agent_game::types::{ActorIdentity, ActorSession, RunMode};

fn human() -> HumanIdentity {
    HumanIdentity::new("Luna".to_string(), "she/her".to_string())
}

#[test]
fn roster_order_and_tokens() {
    assert_eq!(
        all_actor_ids(),
        vec!["dm_agent", "player_ai_1", "player_ai_2", "player_ai_3", "player_ai_4", "human_player"]
    );
    assert_eq!(public_actor_token("player_ai_3"), "player3");
    assert_eq!(public_actor_token("human_player"), "player5");
    assert_eq!(public_actor_token("system"), "player");
}

#[test]
fn new_campaign_defaults() {
    let rt = CampaignRuntime::create_new("data/campaigns", RunMode::Local);
    assert_eq!(rt.campaign_id.len(), 36);
    assert_eq!(rt.root, format!("data/campaigns/{}", rt.campaign_id));
    assert_eq!(rt.state.round_index, 0);
    assert_eq!(rt.state.mode, RunMode::Local);
    assert_eq!(rt.actor_display_name("dm_agent"), "DM");
    assert_eq!(rt.actor_display_name("player_ai_2"), "Player 2");
    assert_eq!(rt.actor_display_name("human_player"), "Luna");
    assert_eq!(rt.actor_display_name("stranger"), "stranger");
    assert_eq!(rt.actor_pronouns("human_player"), "she/her");
    assert_eq!(rt.actor_pronouns("stranger"), "they/them");
    assert!(!rt.identity_is_approved("player_ai_1"));
    assert!(rt.identity_is_approved("dm_agent"));
    assert_eq!(rt.get_thread_id("player_ai_1"), None);
    let other = CampaignRuntime::create_new("data/campaigns", RunMode::Local);
    assert_ne!(rt.campaign_id, other.campaign_id);
}

#[test]
fn default_sheets_by_role() {
    assert_eq!(default_sheet_for_actor("dm_agent").class_name, "npc_director");
    assert_eq!(default_sheet_for_actor("dm_agent").level, 20);
    assert_eq!(default_sheet_for_actor("human_player").class_name, "fighter");
    assert_eq!(default_sheet_for_actor("player_ai_4").class_name, "adventurer");
    assert_eq!(default_sheet_for_actor("npc").class_name, "commoner");
    assert_eq!(default_sheet_for_actor("npc").armor_class, 12);
}

#[test]
fn sessions_and_identities_update() {
    let mut rt = CampaignRuntime::create_new("data", RunMode::Remote);
    assert_eq!(rt.set_thread_id("player_ai_1", "t-9".to_string()), Ok(()));
    assert_eq!(rt.set_last_message("player_ai_1", "hi".to_string()), Ok(()));
    assert_eq!(rt.get_thread_id("player_ai_1"), Some("t-9".to_string()));
    assert_eq!(rt.sessions.sessions[1].last_message, Some("hi".to_string()));
    assert_eq!(rt.set_thread_id("nobody", "t".to_string()), Err(CampaignError::UnknownActor));
    assert_eq!(
        rt.set_actor_identity("player_ai_2", "Kira Vale".to_string(), "she/her".to_string(), true),
        Ok(())
    );
    assert_eq!(rt.actor_display_name("player_ai_2"), "Kira Vale");
    assert!(rt.identity_is_approved("player_ai_2"));
    assert_eq!(rt.append_note("player_ai_2", "remember"), Ok(()));
    assert_eq!(rt.append_note("ghost", "x"), Err(CampaignError::UnknownActor));
    let notes = rt.recent_notes("player_ai_2", 12);
    assert_eq!(notes.len(), 1);
    assert_eq!(notes[0].text, "remember");
    assert_eq!(rt.read_character_sheet("player_ai_2").map(|s| s.level), Ok(1));
    assert!(rt.read_character_sheet("ghost").is_err());
}

#[test]
fn recent_notes_window() {
    let mut rt = CampaignRuntime::create_new("data", RunMode::Remote);
    for i in 0..15 {
        rt.append_note("dm_agent", &format!("n{}", i)).unwrap();
    }
    let notes = rt.recent_notes("dm_agent", 12);
    assert_eq!(notes.len(), 12);
    assert_eq!(notes[0].text, "n3");
    assert_eq!(notes[11].text, "n14");
}

#[test]
fn bump_round_counts_and_saturates() {
    let mut rt = CampaignRuntime::create_new("data", RunMode::Remote);
    rt.bump_round();
    assert_eq!(rt.state.round_index, 1);
    rt.state.round_index = u64::MAX;
    rt.bump_round();
    assert_eq!(rt.state.round_index, u64::MAX);
}

#[test]
fn from_records_fills_missing_actors() {
    let base = CampaignRuntime::create_new("data", RunMode::Remote);
    let stored = vec![ActorIdentity {
        actor_id: "player_ai_3".to_string(),
        display_name: "Brann".to_string(),
        pronouns: "he/him".to_string(),
        approved_by_dm: true,
        updated_at: 5,
    }];
    let sessions = vec![ActorSession {
        actor_id: "dm_agent".to_string(),
        thread_id: Some("th-dm".to_string()),
        last_message: None,
        updated_at: 1,
    }];
    let rt = CampaignRuntime::from_records(
        base.campaign_id.clone(),
        base.root.clone(),
        base.state.clone(),
        sessions,
        stored,
        Vec::new(),
        Vec::new(),
        Vec::new(),
    );
    assert_eq!(rt.actor_display_name("player_ai_3"), "Brann");
    assert_eq!(rt.actor_display_name("player_ai_1"), "Player 1");
    assert_eq!(rt.get_thread_id("dm_agent"), Some("th-dm".to_string()));
    assert_eq!(rt.get_thread_id("human_player"), None);
    assert_eq!(rt.identities.identities.len(), 6);
    assert_eq!(rt.recent_notes("human_player", 12).len(), 0);
}

#[test]
fn resolves_aliases() {
    let mut rt = CampaignRuntime::create_new("data", RunMode::Remote);
    rt.set_actor_identity("player_ai_1", "Kira Vale".to_string(), "she/her".to_string(), true)
        .unwrap();
    rt.set_actor_identity("human_player", "Luna Star".to_string(), "she/her".to_string(), true)
        .unwrap();
    let h = HumanIdentity::new("Luna Star".to_string(), "she/her".to_string());
    assert_eq!(resolve_actor_id(" DM ", &rt, &h), Some("dm_agent"));
    assert_eq!(resolve_actor_id("dungeonmaster", &rt, &h), Some("dm_agent"));
    assert_eq!(resolve_actor_id("P3", &rt, &h), Some("player_ai_3"));
    assert_eq!(resolve_actor_id("ai4", &rt, &h), Some("player_ai_4"));
    assert_eq!(resolve_actor_id("player5", &rt, &h), Some("human_player"));
    assert_eq!(resolve_actor_id("lunastar", &rt, &h), Some("human_player"));
    assert_eq!(resolve_actor_id("Luna", &rt, &h), Some("human_player"));
    assert_eq!(resolve_actor_id("kira vale", &rt, &h), Some("player_ai_1"));
    assert_eq!(resolve_actor_id("KIRAVALE", &rt, &h), Some("player_ai_1"));
    assert_eq!(resolve_actor_id("kira", &rt, &h), Some("player_ai_1"));
    assert_eq!(resolve_actor_id("player 2", &rt, &h), Some("player_ai_2"));
    assert_eq!(resolve_actor_id("nobody", &rt, &h), None);
}

#[test]
fn labels_and_target_list() {
    let rt = CampaignRuntime::create_new("data", RunMode::Remote);
    let h = human();
    assert_eq!(actor_label(&rt, "dm_agent", &h), "DM");
    assert_eq!(actor_label(&rt, "system", &h), "System");
    assert_eq!(actor_label(&rt, "player_ai_4", &h), "Player 4");
    assert_eq!(
        valid_targets_csv(&rt, "player_ai_2", &h),
        "dm (DM), player1 (Player 1), player3 (Player 3), player4 (Player 4), player5 (Luna)"
    );
}

#[test]
fn read_notes_returns_the_whole_record() {
    let mut rt = CampaignRuntime::create_new("data", RunMode::Remote);
    rt.append_note("human_player", "one").unwrap();
    rt.append_note("human_player", "two").unwrap();
    let notes = rt.read_notes("human_player").unwrap();
    assert_eq!(notes.actor_id, "human_player");
    let texts: Vec<String> = notes.entries.iter().map(|e| e.text.clone()).collect();
    assert_eq!(texts, vec!["one".to_string(), "two".to_string()]);
    assert_eq!(rt.read_notes("ghost").err(), Some(CampaignError::UnknownActor));
}

#[test]
fn new_campaign_opening_notes() {
    let mut rt = CampaignRuntime::create_new("data", RunMode::Remote);
    let h = human();
    let kept = vec!["Feywild Whimsy".to_string(), "Steampunk Frontier".to_string()];
    dnd_agent_game::setup::initialize_new_campaign(&mut rt, &h, &kept);
    let dm: Vec<String> = rt.recent_notes("dm_agent", 12).into_iter().map(|n| n.text).collect();
    assert_eq!(
        dm,
        vec![
            "Theme shortlist from Luna: Feywild Whimsy, Steampunk Frontier. Ask all players what they want to play before opening scene 1, then set final tone.".to_string(),
            "Player 5 identity for this session: Luna (she/her)".to_string(),
        ]
    );
    assert_eq!(rt.events.len(), 1);
    assert_eq!(rt.events[0].speaker, "system");
    assert_eq!(rt.recent_notes("human_player", 12)[0].text, "Player commands: `/w target message`, `/pass`, `/history`, `/quit`.");
}

#[test]
fn identity_decisions_are_applied() {
    let mut rt = CampaignRuntime::create_new("data", RunMode::Remote);
    assert_eq!(dnd_agent_game::setup::pending_identities(&rt), vec!["player_ai_1", "player_ai_2", "player_ai_3", "player_ai_4"]);
    dnd_agent_game::setup::apply_identity_decision(&mut rt, "player_ai_2", "Kira", "  ", " ", &Some(" fits the party ".to_string())).unwrap();
    assert_eq!(rt.actor_display_name("player_ai_2"), "Kira");
    assert_eq!(rt.actor_pronouns("player_ai_2"), "they/them");
    assert!(rt.identity_is_approved("player_ai_2"));
    let dm: Vec<String> = rt.recent_notes("dm_agent", 12).into_iter().map(|n| n.text).collect();
    assert_eq!(dm, vec![
        "Finalized identity for player_ai_2: Kira (they/them)".to_string(),
        "Identity choice reason for player_ai_2: fits the party".to_string(),
    ]);
    assert_eq!(dnd_agent_game::setup::pending_identities(&rt), vec!["player_ai_1", "player_ai_3", "player_ai_4"]);
}
