//! The prompts that put a turn or a decision to the agent. The JSON renderings
//! of sheets, notes and events are supplied by the caller.
use vstd::prelude::*;
use crate::actors::{ACTOR_COUNT, DM_ACTOR, actor_at, roster, str_eq};
use crate::campaign::CampaignRuntime;
use crate::registry::{HumanIdentity, target_entries, valid_targets_csv};
use crate::text::{decimal, decimal_spec, join_strings, join_with};

verus! {

pub const DIRECTOR_GUIDANCE: &'static str = "Role guidance (DM):\n- You are the Dungeon Master. Keep pacing tight and ask clarifying questions in-character.\n- Ask each player what they want to play when uncertain about party direction.\n- Adjudicate outcomes; do not reveal hidden info publicly unless earned.\n- For private communication use `request_message_player` actions.\n- After your turn, you MUST choose who acts next by setting `next_actor_id`.\n- You may choose yourself (`dm_agent`) if narration needs it.\n";

pub const PLAYER_GUIDANCE: &'static str = "Role guidance (Player):\n- Stay in character and propose concrete actions.\n- Do not control other characters or retroactively rewrite scene outcomes.\n- Use `request_message_player` when you want a private whisper.\n- Use `note_write` for personal memory updates.\n";

pub const OUTPUT_RULES: &'static str = "Output rules:\n- Return only one JSON object. No markdown.\n- Required keys: `public_message` (string), `actions` (array).\n";

pub const DIRECTOR_NEXT_RULE: &'static str = "- DM additionally requires `next_actor_id` (string actor_id).\n";

pub const PLAYER_NEXT_RULE: &'static str = "- `next_actor_id` is optional and ignored for non-DM actors.\n";

pub const ACTION_RULES: &'static str = "- Optional key: `note` (string).\n- Allowed action types: `request_message_player`, `note_write`.\n- Do not invent action types. Invalid action types will be rejected and retried.\n- `request_message_player` can set `target` (single) or `targets` (array) for the same message.\n- Every whisper target must be one of: ";

pub const TARGETS_RULE: &'static str = ".\n- Use `targets` when sending identical whisper text to multiple recipients.\n";

pub const DIRECTOR_CHOICE_RULE: &'static str = "- `next_actor_id` must be one of: dm_agent, player_ai_1, player_ai_2, player_ai_3, player_ai_4, human_player.\n";

pub const CLOSING_RULE: &'static str = "- Keep `public_message` concise and in-character.\n\nCharacter sheet JSON:\n";

/// The roster line of the actor at position `i`: identifier, name and pronouns.
pub open spec fn roster_line(c: CampaignRuntime, i: int) -> Seq<char> {
    "- "@ + roster()[i] + " => "@ + c.identities.identities@[i].display_name@ + " ("@
        + c.identities.identities@[i].pronouns@ + ")\n"@
}

pub open spec fn roster_lines(c: CampaignRuntime, n: int) -> Seq<Seq<char>>
    decreases n,
{
    if n <= 0 {
        seq![]
    } else {
        roster_lines(c, n - 1).push(roster_line(c, n - 1))
    }
}

/// The pieces of an actor's turn prompt, in order.
pub open spec fn turn_prompt_parts(
    c: CampaignRuntime,
    actor: Seq<char>,
    hint: Option<Seq<char>>,
    sheet_json: Seq<char>,
    notes_json: Seq<char>,
    events_json: Seq<char>,
) -> Seq<Seq<char>> {
    let is_dm = actor == DM_ACTOR@;
    seq![
        "You are participating in an ongoing 6-player DnD game.\n"@,
        "Your actor_id is `"@ + actor + "`.\n"@,
        "Turn cycle index: "@ + decimal_spec((c.state.round_index + 1) as nat) + ".\n"@,
        "Campaign id: "@ + c.campaign_id@ + ".\n"@,
        (if is_dm {
            DIRECTOR_GUIDANCE@
        } else {
            PLAYER_GUIDANCE@
        }) + "\n"@,
        "Actor roster:\n"@,
    ] + roster_lines(c, ACTOR_COUNT as int) + seq![
        match hint {
            Some(h) => if is_dm {
                "\nScheduler guidance:\n"@ + h + "\n"@
            } else {
                Seq::empty()
            },
            None => Seq::empty(),
        },
        OUTPUT_RULES@,
        if is_dm {
            DIRECTOR_NEXT_RULE@
        } else {
            PLAYER_NEXT_RULE@
        },
        ACTION_RULES@ + join_with(target_entries(c, actor, ACTOR_COUNT as int), ", "@)
            + TARGETS_RULE@,
        if is_dm {
            DIRECTOR_CHOICE_RULE@
        } else {
            Seq::empty()
        },
        CLOSING_RULE@ + sheet_json + "\n\nRecent private notes JSON:\n"@ + notes_json
            + "\n\nRecent visible transcript events JSON:\n"@ + events_json
            + "\n\nNow produce the JSON response."@,
    ]
}

/// The prompt for an actor's turn: its identity, the round, its role, the
/// roster, the director's advisory hint, the output rules with the legal whisper
/// targets, its sheet, its recent notes and its visible transcript window.
pub fn build_actor_turn_prompt(
    campaign: &CampaignRuntime,
    actor_id: &str,
    human: &HumanIdentity,
    dm_scheduler_hint: Option<&str>,
    sheet_json: &str,
    notes_json: &str,
    events_json: &str,
) -> (r: String)
    requires
        campaign.wf(),
        campaign.state.round_index < u64::MAX,
    ensures
        r@ == join_with(
            turn_prompt_parts(
                *campaign,
                actor_id@,
                match dm_scheduler_hint {
                    Some(h) => Some(h@),
                    None => None,
                },
                sheet_json@,
                notes_json@,
                events_json@,
            ),
            ""@,
        ),
{
    let is_dm = str_eq(actor_id, DM_ACTOR);
    let mut parts: Vec<String> = Vec::new();
    parts.push(String::from_str("You are participating in an ongoing 6-player DnD game.\n"));
    let mut p = String::from_str("Your actor_id is `");
    p.append(actor_id);
    p.append("`.\n");
    parts.push(p);
    let mut p = String::from_str("Turn cycle index: ");
    p.append(decimal(campaign.state.round_index + 1).as_str());
    p.append(".\n");
    parts.push(p);
    let mut p = String::from_str("Campaign id: ");
    p.append(campaign.campaign_id.as_str());
    p.append(".\n");
    parts.push(p);
    let mut p = if is_dm {
        String::from_str(DIRECTOR_GUIDANCE)
    } else {
        String::from_str(PLAYER_GUIDANCE)
    };
    p.append("\n");
    parts.push(p);
    parts.push(String::from_str("Actor roster:\n"));
    let ghost head = parts@.map_values(|s: String| s@);
    let mut i: usize = 0;
    while i < ACTOR_COUNT
        invariant
            campaign.wf(),
            i <= ACTOR_COUNT,
            parts@.map_values(|s: String| s@) == head + roster_lines(*campaign, i as int),
        decreases ACTOR_COUNT - i,
    {
        let id = actor_at(i);
        let mut line = String::from_str("- ");
        line.append(id);
        line.append(" => ");
        line.append(campaign.identities.identities[i].display_name.as_str());
        line.append(" (");
        line.append(campaign.identities.identities[i].pronouns.as_str());
        line.append(")\n");
        let ghost before = parts@;
        parts.push(line);
        assert(parts@.map_values(|s: String| s@) =~= before.map_values(|s: String| s@).push(line@));
        assert(head + roster_lines(*campaign, i + 1) =~= (head + roster_lines(*campaign, i as int)).push(
            roster_line(*campaign, i as int),
        ));
        i = i + 1;
    }
    let ghost mid = parts@.map_values(|s: String| s@);
    let ghost hv = match dm_scheduler_hint {
        Some(x) => Some(x@),
        None => None::<Seq<char>>,
    };
    let mut h = String::new();
    match dm_scheduler_hint {
        Some(hint) => {
            if is_dm {
                h.append("\nScheduler guidance:\n");
                h.append(hint);
                h.append("\n");
            }
        },
        None => {},
    }
    let rules = String::from_str(OUTPUT_RULES);
    let next_rule = if is_dm {
        String::from_str(DIRECTOR_NEXT_RULE)
    } else {
        String::from_str(PLAYER_NEXT_RULE)
    };
    let mut p = String::from_str(ACTION_RULES);
    p.append(valid_targets_csv(campaign, actor_id, human).as_str());
    p.append(TARGETS_RULE);
    let choice = if is_dm {
        String::from_str(DIRECTOR_CHOICE_RULE)
    } else {
        String::new()
    };
    let mut last = String::from_str(CLOSING_RULE);
    last.append(sheet_json);
    last.append("\n\nRecent private notes JSON:\n");
    last.append(notes_json);
    last.append("\n\nRecent visible transcript events JSON:\n");
    last.append(events_json);
    last.append("\n\nNow produce the JSON response.");
    let ghost tail = seq![h@, rules@, next_rule@, p@, choice@, last@];
    let ghost spec = turn_prompt_parts(*campaign, actor_id@, hv, sheet_json@, notes_json@, events_json@);
    proof {
        let k = mid.len() as int;
        assert(spec.len() == k + 6);
        assert(spec.subrange(0, k) =~= mid);
        assert(spec[k] == h@);
        assert(spec[k + 1] == rules@);
        assert(spec[k + 2] == next_rule@);
        assert(spec[k + 3] == p@);
        assert(spec[k + 4] == choice@);
        assert(spec[k + 5] == last@);
        assert(spec =~= mid + tail);
    }
    parts.push(h);
    parts.push(rules);
    parts.push(next_rule);
    parts.push(p);
    parts.push(choice);
    parts.push(last);
    assert(parts@.map_values(|s: String| s@) =~= mid + tail);
    join_strings(&parts, "")
}

/// How many transcript events the whisper gate shows the director at most.
pub const WHISPER_CONTEXT_EVENTS: usize = 24;

pub const WHISPER_GATE_OPENING: &'static str = "You are DM whisper gatekeeper for a DnD game.\nDecide if a private message should be approved.\nReturn only JSON with keys: `approve` (bool) and optional `reason`.\nDefault to approve unless request is abusive, breaks fairness, or spoils hidden adjudication.\n\nsender: ";

/// The pieces of the whisper gate prompt, in order.
pub open spec fn whisper_prompt_parts(
    sender: Seq<char>,
    targets_json: Seq<char>,
    message: Seq<char>,
    reason: Option<Seq<char>>,
    events_json: Seq<char>,
) -> Seq<Seq<char>> {
    seq![
        WHISPER_GATE_OPENING@ + sender + "\ntargets: "@ + targets_json
            + "\nThis decision applies to the full target list.\nmessage: "@ + message + "\n"@,
        match reason {
            Some(r) => if crate::text::trim_spec(r).len() > 0 {
                "sender_reason: "@ + crate::text::trim_spec(r) + "\n"@
            } else {
                Seq::empty()
            },
            None => Seq::empty(),
        },
        "\nRecent DM-visible events JSON:\n"@ + events_json + "\n\nNow return the JSON decision."@,
    ]
}

/// The prompt that asks the director to approve or deny a whole batch of targets.
pub fn build_dm_whisper_prompt(
    sender: &str,
    targets_json: &str,
    message: &str,
    reason: Option<&str>,
    events_json: &str,
) -> (r: String)
    ensures
        r@ == join_with(
            whisper_prompt_parts(
                sender@,
                targets_json@,
                message@,
                match reason {
                    Some(x) => Some(x@),
                    None => None,
                },
                events_json@,
            ),
            ""@,
        ),
{
    let mut parts: Vec<String> = Vec::new();
    let mut p = String::from_str(WHISPER_GATE_OPENING);
    p.append(sender);
    p.append("\ntargets: ");
    p.append(targets_json);
    p.append("\nThis decision applies to the full target list.\nmessage: ");
    p.append(message);
    p.append("\n");
    parts.push(p);
    let mut q = String::new();
    match reason {
        Some(x) => {
            let t = crate::text::trim(x);
            if t.unicode_len() > 0 {
                q.append("sender_reason: ");
                q.append(t.as_str());
                q.append("\n");
            }
        },
        None => {},
    }
    parts.push(q);
    let mut e = String::from_str("\nRecent DM-visible events JSON:\n");
    e.append(events_json);
    e.append("\n\nNow return the JSON decision.");
    parts.push(e);
    assert(parts@.map_values(|s: String| s@) =~= whisper_prompt_parts(
        sender@,
        targets_json@,
        message@,
        match reason {
            Some(x) => Some(x@),
            None => None,
        },
        events_json@,
    ));
    join_strings(&parts, "")
}

/// The prompt that asks an AI player to propose its identity.
pub fn build_identity_proposal_prompt(
    campaign: &CampaignRuntime,
    actor_id: &str,
    human: &HumanIdentity,
) -> (r: String)
    requires
        campaign.wf(),
    ensures
        r@ == "You are actor `"@ + actor_id@ + "` in DnD setup. Your temporary label is `"@
            + campaign.display_name_spec(actor_id@)
            + "`.\nPropose your player identity.\nReturn ONLY JSON:\n{\"name\":\"string\",\"pronouns\":\"string\"}\nRules:\n- Keep the name concise (1-3 words).\n- Do not include markdown.\n- Keep pronouns concise.\n- Player 5 is "@
            + human.name@ + " ("@ + human.pronouns@ + ").\n"@,
{
    let current = campaign.actor_display_name(actor_id);
    let mut out = String::from_str("You are actor `");
    out.append(actor_id);
    out.append("` in DnD setup. Your temporary label is `");
    out.append(current.as_str());
    out.append(
        "`.\nPropose your player identity.\nReturn ONLY JSON:\n{\"name\":\"string\",\"pronouns\":\"string\"}\nRules:\n- Keep the name concise (1-3 words).\n- Do not include markdown.\n- Keep pronouns concise.\n- Player 5 is ",
    );
    out.append(human.name.as_str());
    out.append(" (");
    out.append(human.pronouns.as_str());
    out.append(").\n");
    out
}

/// The prompt that asks the director to settle a proposed identity.
pub fn build_identity_decision_prompt(
    campaign: &CampaignRuntime,
    actor_id: &str,
    proposed_name: &str,
    proposed_pronouns: &str,
    human: &HumanIdentity,
) -> (r: String)
    requires
        campaign.wf(),
    ensures
        r@ == "You are DM finalizing player identities for this campaign.\nActor: "@ + actor_id@
            + " (current label `"@ + campaign.display_name_spec(actor_id@) + "`)\nProposed name: "@
            + proposed_name@ + "\nProposed pronouns: "@ + proposed_pronouns@ + "\nPlayer 5: "@
            + human.name@ + " ("@ + human.pronouns@
            + ")\nReturn ONLY JSON:\n{\"final_name\":\"string\",\"final_pronouns\":\"string\",\"reason\":\"optional string\"}\nKeep it concise and ready for gameplay."@,
{
    let current = campaign.actor_display_name(actor_id);
    let mut out = String::from_str("You are DM finalizing player identities for this campaign.\nActor: ");
    out.append(actor_id);
    out.append(" (current label `");
    out.append(current.as_str());
    out.append("`)\nProposed name: ");
    out.append(proposed_name);
    out.append("\nProposed pronouns: ");
    out.append(proposed_pronouns);
    out.append("\nPlayer 5: ");
    out.append(human.name.as_str());
    out.append(" (");
    out.append(human.pronouns.as_str());
    out.append(
        ")\nReturn ONLY JSON:\n{\"final_name\":\"string\",\"final_pronouns\":\"string\",\"reason\":\"optional string\"}\nKeep it concise and ready for gameplay.",
    );
    out
}

} // verus!
