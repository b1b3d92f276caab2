use dnd_agent_game::campaign::CampaignRuntime;
use dnd_agent_game::registry::HumanIdentity;
use dnd_agent_game::types::{RunMode, Visibility, WhisperDecision};
use dnd_agent_game::whisper::{
    WhisperOutcome, finalize_whisper_outcome_batch, prepare_whisper_request, requested_targets,
    sort_whisper_targets, whisper_outcome,
};

fn human() -> HumanIdentity {
    HumanIdentity::new("Luna".to_string(), "she/her".to_string())
}

fn note_texts(rt: &CampaignRuntime, actor: &str) -> Vec<String> {
    rt.recent_notes(actor, 100).into_iter().map(|n| n.text).collect()
}

#[test]
fn requested_targets_are_trimmed_and_blanks_dropped() {
    let t = requested_targets(&Some(" p1 ".to_string()), &vec!["".to_string(), " p2".to_string(), "  ".to_string()]);
    assert_eq!(t, vec!["p1".to_string(), "p2".to_string()]);
}

#[test]
fn targets_dedup_drop_self_and_invalid() {
    let rt = CampaignRuntime::create_new("data", RunMode::Remote);
    let h = human();
    let req = vec!["p3".to_string(), "player_ai_3".to_string(), "p2".to_string(), "zork".to_string(), "dm".to_string()];
    let sorted = sort_whisper_targets("player_ai_2", &req, &rt, &h);
    assert_eq!(sorted.resolved, vec!["player_ai_3".to_string(), "dm_agent".to_string()]);
    assert_eq!(sorted.invalid, vec!["zork".to_string()]);
    assert_eq!(sorted.skipped_self, 1);
}

#[test]
fn whisper_to_self_and_other_delivers_one_event() {
    let mut rt = CampaignRuntime::create_new("data", RunMode::Remote);
    let h = human();
    let targets = prepare_whisper_request(
        &mut rt,
        "player_ai_2",
        &None,
        &vec!["player_ai_3".to_string(), "player_ai_2".to_string()],
        &h,
    )
    .unwrap();
    assert_eq!(targets, vec!["player_ai_3".to_string()]);
    assert_eq!(
        note_texts(&rt, "player_ai_2"),
        vec!["Whisper target cannot include sender; self targets were skipped.".to_string()]
    );
    assert!(rt.events.is_empty());
    let outcome = whisper_outcome(Some(WhisperDecision { approve: true, reason: None }));
    finalize_whisper_outcome_batch(&mut rt, "player_ai_2", &targets, "meet me at dusk", &h, outcome).unwrap();
    assert_eq!(rt.events.len(), 1);
    for viewer in ["player_ai_2", "player_ai_3", "dm_agent"] {
        assert_eq!(rt.visible_events_for_actor(viewer, 40).len(), 1, "{}", viewer);
    }
    for viewer in ["player_ai_1", "player_ai_4", "human_player"] {
        assert_eq!(rt.visible_events_for_actor(viewer, 40).len(), 0, "{}", viewer);
    }
}

#[test]
fn approved_batch_reaches_every_target() {
    let mut rt = CampaignRuntime::create_new("data", RunMode::Remote);
    let h = human();
    let targets = vec!["player_ai_1".to_string(), "human_player".to_string()];
    let outcome = WhisperOutcome { approved: true, reason: None };
    finalize_whisper_outcome_batch(&mut rt, "dm_agent", &targets, "secret", &h, outcome).unwrap();
    assert_eq!(rt.events.len(), 2);
    for (e, t) in rt.events.iter().zip(targets.iter()) {
        match &e.visibility {
            Visibility::Whisper { sender, target } => {
                assert_eq!(sender, "dm_agent");
                assert_eq!(target, t);
            }
            Visibility::Public => panic!("expected whisper"),
        }
    }
    assert_eq!(rt.visible_events_for_actor("player_ai_1", 40).len(), 1);
    assert_eq!(rt.visible_events_for_actor("human_player", 40).len(), 1);
    assert_eq!(note_texts(&rt, "dm_agent").len(), 0);
}

#[test]
fn denied_batch_reaches_no_target() {
    let mut rt = CampaignRuntime::create_new("data", RunMode::Remote);
    let h = human();
    let targets = vec!["player_ai_1".to_string(), "player_ai_4".to_string()];
    let outcome = WhisperOutcome { approved: false, reason: Some("spoils the twist".to_string()) };
    finalize_whisper_outcome_batch(&mut rt, "player_ai_2", &targets, "secret", &h, outcome).unwrap();
    assert!(rt.events.is_empty());
    assert_eq!(
        note_texts(&rt, "player_ai_2"),
        vec!["DM denied whisper to [Player 1, Player 4]. Reason: spoils the twist".to_string()]
    );
    let unreadable = whisper_outcome(None);
    assert!(!unreadable.approved);
    finalize_whisper_outcome_batch(&mut rt, "player_ai_2", &targets, "again", &h, WhisperOutcome { approved: false, reason: None }).unwrap();
    assert_eq!(
        note_texts(&rt, "player_ai_2")[1],
        "DM denied whisper to [Player 1, Player 4]. Reason: No reason supplied."
    );
    assert_eq!(unreadable.reason.as_deref(), Some("DM whisper decision could not be parsed as JSON."));
}

#[test]
fn request_without_targets_is_skipped_with_notes() {
    let mut rt = CampaignRuntime::create_new("data", RunMode::Remote);
    let h = human();
    let none = prepare_whisper_request(&mut rt, "player_ai_1", &Some("  ".to_string()), &Vec::new(), &h).unwrap();
    assert!(none.is_empty());
    let bad = prepare_whisper_request(&mut rt, "player_ai_1", &None, &vec!["zork".to_string()], &h).unwrap();
    assert!(bad.is_empty());
    let notes = note_texts(&rt, "player_ai_1");
    assert_eq!(notes[0], "Whisper request missing `target` or `targets`; request skipped.");
    assert_eq!(
        notes[1],
        "Invalid whisper targets skipped: zork. Valid targets: dm (DM), player2 (Player 2), player3 (Player 3), player4 (Player 4), player5 (Luna)"
    );
    assert_eq!(notes[2], "Whisper request had no valid targets after filtering; request skipped.");
    assert!(rt.events.is_empty());
}
