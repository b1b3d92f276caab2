use dnd_agent_game::campaign::CampaignRuntime;
use dnd_agent_game::transcript::{recent_events, visible_events};
use dnd_agent_game::types::{RunMode, TranscriptEvent, Visibility};

fn public(speaker: &str, msg: &str) -> TranscriptEvent {
    TranscriptEvent {
        timestamp: 0,
        speaker: speaker.to_string(),
        message: msg.to_string(),
        visibility: Visibility::Public,
    }
}

fn whisper(sender: &str, target: &str, msg: &str) -> TranscriptEvent {
    TranscriptEvent {
        timestamp: 0,
        speaker: sender.to_string(),
        message: msg.to_string(),
        visibility: Visibility::Whisper { sender: sender.to_string(), target: target.to_string() },
    }
}

fn messages(events: &[TranscriptEvent]) -> Vec<String> {
    events.iter().map(|e| e.message.clone()).collect()
}

#[test]
fn whispers_are_visible_only_to_parties_and_director() {
    let log = vec![
        public("dm_agent", "p1"),
        whisper("player_ai_2", "player_ai_3", "w1"),
        public("human_player", "p2"),
        whisper("human_player", "player_ai_1", "w2"),
    ];
    assert_eq!(messages(&visible_events(&log, "dm_agent", 10)), vec!["p1", "w1", "p2", "w2"]);
    assert_eq!(messages(&visible_events(&log, "player_ai_2", 10)), vec!["p1", "w1", "p2"]);
    assert_eq!(messages(&visible_events(&log, "player_ai_3", 10)), vec!["p1", "w1", "p2"]);
    assert_eq!(messages(&visible_events(&log, "player_ai_1", 10)), vec!["p1", "p2", "w2"]);
    assert_eq!(messages(&visible_events(&log, "player_ai_4", 10)), vec!["p1", "p2"]);
    assert_eq!(messages(&visible_events(&log, "human_player", 10)), vec!["p1", "p2", "w2"]);
}

#[test]
fn visibility_filters_the_recent_window() {
    let log = vec![
        whisper("player_ai_1", "player_ai_2", "old"),
        public("dm_agent", "a"),
        whisper("player_ai_1", "player_ai_4", "b"),
    ];
    assert_eq!(messages(&visible_events(&log, "player_ai_2", 2)), vec!["a"]);
    assert_eq!(messages(&visible_events(&log, "player_ai_4", 2)), vec!["a", "b"]);
}

#[test]
fn recent_returns_last_events_in_append_order() {
    let mut rt = CampaignRuntime::create_new("data", RunMode::Remote);
    for i in 0..5 {
        rt.add_public_message("dm_agent", &format!("m{}", i));
    }
    assert_eq!(messages(&rt.read_recent_events(3)), vec!["m2", "m3", "m4"]);
    assert_eq!(messages(&rt.read_recent_events(10)), vec!["m0", "m1", "m2", "m3", "m4"]);
    assert!(rt.read_recent_events(0).is_empty());
    assert!(recent_events(&Vec::new(), 4).is_empty());
}

#[test]
fn whisper_event_speaker_is_sender() {
    let mut rt = CampaignRuntime::create_new("data", RunMode::Remote);
    rt.add_whisper("player_ai_1", "human_player", "psst");
    let e = &rt.events[0];
    assert_eq!(e.speaker, "player_ai_1");
    match &e.visibility {
        Visibility::Whisper { sender, target } => {
            assert_eq!(sender, "player_ai_1");
            assert_eq!(target, "human_player");
        }
        Visibility::Public => panic!("expected a whisper"),
    }
    assert_eq!(rt.visible_events_for_actor("player_ai_2", 10).len(), 0);
    assert_eq!(rt.visible_events_for_actor("dm_agent", 10).len(), 1);
}
