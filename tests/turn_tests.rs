use dnd_agent_game::campaign::CampaignRuntime;
use dnd_agent_game::registry::HumanIdentity;
use dnd_agent_game::repair::{
    Exhaustion, RepairLoop, RepairStep, TurnKind, build_repair_prompt, exhaustion_policy,
    TURN_OUTPUT_REPAIR_RETRIES,
};
use dnd_agent_game::scheduler::{Scheduler, SchedulerStats, TurnEvent, TurnState, build_dm_scheduler_hint};
use dnd_agent_game::turn::{TurnError, apply_turn_messages, handle_note_write, record_suppressed_output, validate_turn_output};
use dnd_agent_game::types::{AgentTurnResponse, RunMode};

fn human() -> HumanIdentity {
    HumanIdentity::new("Luna".to_string(), "she/her".to_string())
}

fn response(msg: &str, next: Option<&str>) -> AgentTurnResponse {
    AgentTurnResponse {
        public_message: msg.to_string(),
        actions: Vec::new(),
        next_actor_id: next.map(|s| s.to_string()),
        note: None,
    }
}

#[test]
fn invalid_outputs_exhaust_after_two_repairs() {
    let mut lp = RepairLoop::new(TURN_OUTPUT_REPAIR_RETRIES, None);
    assert_eq!(lp.record_reply(None, false), RepairStep::Repair);
    assert_eq!(lp.record_reply(None, false), RepairStep::Repair);
    assert_eq!(lp.record_reply(None, false), RepairStep::Exhausted);
    assert!(lp.finished);
    assert_eq!(lp.attempt, 2);
    assert_eq!(exhaustion_policy(TurnKind::DirectorTurn), Exhaustion::FailTurn);
    assert_eq!(exhaustion_policy(TurnKind::PlayerTurn), Exhaustion::NoOpTurn);
    assert_eq!(exhaustion_policy(TurnKind::WhisperApproval), Exhaustion::Deny);
    assert_eq!(exhaustion_policy(TurnKind::IdentityProposal), Exhaustion::FailTurn);
}

#[test]
fn director_succeeds_on_third_attempt_with_same_handle() {
    let mut lp = RepairLoop::new(TURN_OUTPUT_REPAIR_RETRIES, Some("thread-7".to_string()));
    let mut handles = Vec::new();
    let mut repair_prompts = Vec::new();
    let replies = ["not json", "still {broken", "{\"public_message\":\"ok\"}"];
    let mut last = RepairStep::Repair;
    for (i, reply) in replies.iter().enumerate() {
        handles.push(lp.thread_for_call());
        let valid = i == 2;
        last = lp.record_reply(Some("thread-7".to_string()), valid);
        if last == RepairStep::Repair {
            repair_prompts.push(build_repair_prompt("dm_agent", true, reply));
        }
    }
    assert_eq!(last, RepairStep::Accept);
    assert_eq!(repair_prompts.len(), 2);
    assert!(handles.iter().all(|h| h.as_deref() == Some("thread-7")));
    assert!(repair_prompts[0].starts_with("Your previous turn output for actor `dm_agent`"));
    assert!(repair_prompts[0].contains("\"next_actor_id\""));
    assert!(repair_prompts[0].ends_with("Previous invalid output was:\nnot json"));
}

#[test]
fn first_handle_is_captured_and_kept() {
    let mut lp = RepairLoop::new(2, None);
    assert_eq!(lp.thread_for_call(), None);
    lp.record_reply(Some("new-thread".to_string()), false);
    assert_eq!(lp.thread_for_call(), Some("new-thread".to_string()));
    lp.record_reply(None, false);
    assert_eq!(lp.thread_for_call(), Some("new-thread".to_string()));
}

#[test]
fn repair_prompt_quotes_at_most_1200_chars() {
    let bad = "x".repeat(1500);
    let p = build_repair_prompt("player_ai_1", false, &bad);
    assert!(p.ends_with(&format!("{}...", "x".repeat(1200))));
    assert!(!p.contains("next_actor_id"));
}

#[test]
fn director_turn_requires_a_resolvable_next_actor() {
    let rt = CampaignRuntime::create_new("data", RunMode::Remote);
    let h = human();
    assert_eq!(validate_turn_output("dm_agent", &response("x", Some("player_ai_1")), &rt, &h), Ok(Some("player_ai_1")));
    assert_eq!(validate_turn_output("dm_agent", &response("x", Some("p5")), &rt, &h), Ok(Some("human_player")));
    assert_eq!(validate_turn_output("dm_agent", &response("x", None), &rt, &h), Err(TurnError::MissingNextActor));
    assert_eq!(validate_turn_output("dm_agent", &response("x", Some("zed")), &rt, &h), Err(TurnError::InvalidNextActor));
    assert_eq!(validate_turn_output("player_ai_1", &response("x", Some("zed")), &rt, &h), Ok(None));
}

#[test]
fn turn_messages_are_trimmed_and_blank_ones_skipped() {
    let mut rt = CampaignRuntime::create_new("data", RunMode::Remote);
    let mut r = response("  I open the door.  ", None);
    r.note = Some("  keep the key ".to_string());
    apply_turn_messages(&mut rt, "player_ai_1", &r).unwrap();
    assert_eq!(rt.events.len(), 1);
    assert_eq!(rt.events[0].message, "I open the door.");
    assert_eq!(rt.recent_notes("player_ai_1", 12)[0].text, "keep the key");
    apply_turn_messages(&mut rt, "player_ai_1", &response("   ", None)).unwrap();
    assert_eq!(rt.events.len(), 1);
    handle_note_write(&mut rt, "player_ai_1", "   ").unwrap();
    handle_note_write(&mut rt, "player_ai_1", " map ").unwrap();
    assert_eq!(rt.recent_notes("player_ai_1", 12).len(), 2);
}

#[test]
fn suppressed_output_note_goes_to_director() {
    let mut rt = CampaignRuntime::create_new("data", RunMode::Remote);
    record_suppressed_output(&mut rt, "player_ai_3", &human()).unwrap();
    let notes = rt.recent_notes("dm_agent", 12);
    assert_eq!(notes[0].text, "Player 3 produced invalid turn output after 2 retries; output suppressed.");
}

#[test]
fn director_turn_selects_first_player() {
    let mut rt = CampaignRuntime::create_new("data", RunMode::Remote);
    let h = human();
    let mut sched = Scheduler::new();
    assert_eq!(sched.state, TurnState::Director);
    assert_eq!(sched.current_actor(), Some("dm_agent"));
    let reply = response("The tavern door creaks.", Some("player_ai_1"));
    let next = validate_turn_output("dm_agent", &reply, &rt, &h).unwrap().unwrap();
    apply_turn_messages(&mut rt, "dm_agent", &reply).unwrap();
    assert!(sched.advance(&mut rt, TurnEvent::DirectorDone { next_actor: next.to_string() }));
    assert_eq!(sched.state, TurnState::PlayerAi(1));
    assert_eq!(sched.current_actor(), Some("player_ai_1"));
    assert_eq!(rt.state.round_index, 1);
    assert_eq!(sched.stats.dm_pick_count("player_ai_1"), 1);
}

#[test]
fn only_completed_director_turns_advance_the_round() {
    let mut rt = CampaignRuntime::create_new("data", RunMode::Remote);
    let mut sched = Scheduler::new();
    assert!(sched.advance(&mut rt, TurnEvent::DirectorFailed { retry: true }));
    assert_eq!(rt.state.round_index, 0);
    assert!(sched.advance(&mut rt, TurnEvent::DirectorDone { next_actor: "human_player".to_string() }));
    assert_eq!(rt.state.round_index, 1);
    assert_eq!(sched.state, TurnState::Human);
    assert!(!sched.advance(&mut rt, TurnEvent::PlayerDone));
    assert!(sched.advance(&mut rt, TurnEvent::HumanDone { quit: false }));
    assert_eq!(sched.state, TurnState::Director);
    assert_eq!(rt.state.round_index, 1);
    assert!(sched.advance(&mut rt, TurnEvent::DirectorDone { next_actor: "player_ai_4".to_string() }));
    assert!(sched.advance(&mut rt, TurnEvent::PlayerDone));
    assert_eq!(rt.state.round_index, 2);
    assert!(sched.advance(&mut rt, TurnEvent::DirectorFailed { retry: false }));
    assert_eq!(sched.state, TurnState::Halted);
    assert_eq!(sched.current_actor(), None);
    assert_eq!(rt.state.round_index, 2);
}

#[test]
fn human_quit_halts() {
    let mut rt = CampaignRuntime::create_new("data", RunMode::Remote);
    let mut sched = Scheduler::new();
    sched.advance(&mut rt, TurnEvent::DirectorDone { next_actor: "human_player".to_string() });
    sched.advance(&mut rt, TurnEvent::HumanDone { quit: true });
    assert_eq!(sched.state, TurnState::Halted);
}

#[test]
fn scheduler_hint_flags_gap_and_streak() {
    let rt = CampaignRuntime::create_new("data", RunMode::Remote);
    let h = human();
    let mut stats = SchedulerStats::new();
    for _ in 0..3 {
        stats.note_dm_pick("player_ai_2");
    }
    for _ in 0..3 {
        stats.note_dm_pick("dm_agent");
    }
    assert_eq!(stats.consecutive_dm_self_picks, 3);
    let hint = build_dm_scheduler_hint(&rt, &h, &stats);
    let lines: Vec<&str> = hint.lines().collect();
    assert_eq!(lines[0], "- Turn selection is your call; this guidance is advisory only.");
    assert_eq!(lines[2], "- Spotlight gap detected: Player 2 has 3 picks, Player 1 has 0 picks.");
    assert_eq!(lines[3], "- DM self-pick streak is 3. Consider handing the spotlight to another actor if possible.");
    assert_eq!(lines[4], "- Current DM pick counts this run: player5=0, p1=0, p2=3, p3=0, p4=0, dm_self=3.");
    stats.note_dm_pick("player_ai_1");
    assert_eq!(stats.consecutive_dm_self_picks, 0);
    let quiet = build_dm_scheduler_hint(&rt, &h, &SchedulerStats::new());
    assert_eq!(quiet.lines().count(), 3);
}
