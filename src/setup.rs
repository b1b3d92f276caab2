//! Setting a campaign up: the opening notes and message of a new campaign, and
//! the identities that the director settles for the AI players.
use vstd::prelude::*;
use crate::actors::{
    ACTOR_COUNT, DM_ACTOR, HUMAN_ACTOR, actor_at, is_player_ai, roster, roster_index,
};
use crate::campaign::{CampaignError, CampaignRuntime};
use crate::registry::HumanIdentity;
use crate::text::{
    join_strings, join_with, name_with_fallback_spec, normalize_name_with_fallback,
    normalize_pronouns, pronouns_spec, trim, trim_spec,
};
use crate::whisper::note_texts;

verus! {

/// The AI players whose identity the director has not approved yet, in roster order.
pub open spec fn pending_spec(c: CampaignRuntime, n: int) -> Seq<Seq<char>>
    decreases n,
{
    if n <= 0 {
        seq![]
    } else if is_player_ai(roster()[n - 1]) && !c.identities.identities@[n - 1].approved_by_dm {
        pending_spec(c, n - 1).push(roster()[n - 1])
    } else {
        pending_spec(c, n - 1)
    }
}

pub fn pending_identities(campaign: &CampaignRuntime) -> (r: Vec<&'static str>)
    requires
        campaign.wf(),
    ensures
        r@.map_values(|a: &'static str| a@) == pending_spec(*campaign, ACTOR_COUNT as int),
{
    let mut r: Vec<&'static str> = Vec::new();
    let mut i: usize = 0;
    while i < ACTOR_COUNT
        invariant
            campaign.wf(),
            i <= ACTOR_COUNT,
            r@.map_values(|a: &'static str| a@) == pending_spec(*campaign, i as int),
        decreases ACTOR_COUNT - i,
    {
        let actor = actor_at(i);
        proof {
            crate::actors::lemma_roster_distinct();
            reveal_strlit("dm_agent");
            reveal_strlit("human_player");
        }
        let ai = crate::actors::is_player_ai_id(actor);
        assert(campaign.identities.identities@[i as int].actor_id@ == roster()[i as int]);
        if ai && !campaign.identities.identities[i].approved_by_dm {
            let ghost before = r@;
            r.push(actor);
            assert(r@.map_values(|a: &'static str| a@) =~= before.map_values(
                |a: &'static str| a@,
            ).push(actor@));
        }
        i = i + 1;
    }
    r
}

pub const SHORTLIST_OPENING: &'static str = "Theme shortlist from ";

pub const SHORTLIST_CLOSING: &'static str = ". Ask all players what they want to play before opening scene 1, then set final tone.";

pub const OPENING_MESSAGE: &'static str = "A new campaign starts now. DM should ask each player what they want to play.";

pub const COMMAND_HELP_NOTE: &'static str = "Player commands: `/w target message`, `/pass`, `/history`, `/quit`.";

pub const HUMAN_IDENTITY_NOTE: &'static str = "Player 5 identity for this session: ";

/// Opens a new campaign: the director is told the theme shortlist and who the
/// human is, the human is told the commands, and the system announces the start.
pub fn initialize_new_campaign(
    campaign: &mut CampaignRuntime,
    human: &HumanIdentity,
    kept_themes: &Vec<String>,
)
    requires
        old(campaign).wf(),
    ensures
        final(campaign).wf(),
        final(campaign).events@.len() == old(campaign).events@.len() + 1,
        final(campaign).events@.drop_last() == old(campaign).events@,
        final(campaign).events@.last().speaker@ == "system"@,
        final(campaign).events@.last().message@ == OPENING_MESSAGE@,
        final(campaign).events@.last().visibility is Public,
        note_texts(*final(campaign), DM_ACTOR@) == note_texts(*old(campaign), DM_ACTOR@) + seq![
            SHORTLIST_OPENING@ + human.name@ + ": "@ + join_with(
                kept_themes@.map_values(|t: String| t@),
                ", "@,
            ) + SHORTLIST_CLOSING@,
            HUMAN_IDENTITY_NOTE@ + human.name@ + " ("@ + human.pronouns@ + ")"@,
        ],
        note_texts(*final(campaign), HUMAN_ACTOR@) == note_texts(*old(campaign), HUMAN_ACTOR@).push(
            COMMAND_HELP_NOTE@,
        ),
        final(campaign).state.round_index == old(campaign).state.round_index,
        final(campaign).identities == old(campaign).identities,
        final(campaign).sessions == old(campaign).sessions,
{
    proof {
        reveal_strlit("dm_agent");
        reveal_strlit("human_player");
        crate::actors::lemma_roster_distinct();
    }
    let ghost c0 = *campaign;
    let mut shortlist = String::from_str(SHORTLIST_OPENING);
    shortlist.append(human.name.as_str());
    shortlist.append(": ");
    shortlist.append(join_strings(kept_themes, ", ").as_str());
    shortlist.append(SHORTLIST_CLOSING);
    let _ = campaign.append_note(DM_ACTOR, shortlist.as_str());
    let ghost c1 = *campaign;
    campaign.add_public_message("system", OPENING_MESSAGE);
    let ghost c2 = *campaign;
    let _ = campaign.append_note(HUMAN_ACTOR, COMMAND_HELP_NOTE);
    let ghost c3 = *campaign;
    let mut identity = String::from_str(HUMAN_IDENTITY_NOTE);
    identity.append(human.name.as_str());
    identity.append(" (");
    identity.append(human.pronouns.as_str());
    identity.append(")");
    let _ = campaign.append_note(DM_ACTOR, identity.as_str());
    proof {
        assert(roster_index(DM_ACTOR@) == 0);
        assert(roster_index(HUMAN_ACTOR@) == 5);
        assert(note_texts(c1, DM_ACTOR@) =~= note_texts(c0, DM_ACTOR@).push(shortlist@));
        assert(note_texts(c1, HUMAN_ACTOR@) == note_texts(c0, HUMAN_ACTOR@));
        assert(note_texts(c2, DM_ACTOR@) == note_texts(c1, DM_ACTOR@));
        assert(note_texts(c2, HUMAN_ACTOR@) == note_texts(c1, HUMAN_ACTOR@));
        assert(note_texts(c3, HUMAN_ACTOR@) =~= note_texts(c2, HUMAN_ACTOR@).push(COMMAND_HELP_NOTE@));
        assert(note_texts(c3, DM_ACTOR@) == note_texts(c2, DM_ACTOR@));
        assert(note_texts(*campaign, DM_ACTOR@) =~= note_texts(c3, DM_ACTOR@).push(identity@));
        assert(note_texts(*campaign, HUMAN_ACTOR@) == note_texts(c3, HUMAN_ACTOR@));
        assert(campaign.events@ == c2.events@);
    }
}

pub const FINALIZED_OPENING: &'static str = "Finalized identity for ";

pub const REASON_OPENING: &'static str = "Identity choice reason for ";

/// Records the director's decision on an AI player's identity: the name (the
/// proposed one when the decision leaves it blank) and pronouns are approved,
/// and the director is told of them and of a reason, when one is given.
pub fn apply_identity_decision(
    campaign: &mut CampaignRuntime,
    actor_id: &str,
    proposed_name: &str,
    final_name: &str,
    final_pronouns: &str,
    reason: &Option<String>,
) -> (r: Result<(), CampaignError>)
    requires
        old(campaign).wf(),
    ensures
        final(campaign).wf(),
        r is Err <==> roster_index(actor_id@) < 0,
        r is Err ==> *final(campaign) == *old(campaign),
        r is Ok ==> ({
            let name = name_with_fallback_spec(final_name@, proposed_name@);
            let pronouns = pronouns_spec(final_pronouns@);
            let id = final(campaign).identity_spec(actor_id@).unwrap();
            &&& id.display_name@ == name
            &&& id.pronouns@ == pronouns
            &&& id.approved_by_dm
            &&& note_texts(*final(campaign), DM_ACTOR@) == note_texts(*old(campaign), DM_ACTOR@)
                + seq![FINALIZED_OPENING@ + actor_id@ + ": "@ + name + " ("@ + pronouns + ")"@]
                + match reason {
                Some(x) => if trim_spec(x@).len() > 0 {
                    seq![REASON_OPENING@ + actor_id@ + ": "@ + trim_spec(x@)]
                } else {
                    Seq::<Seq<char>>::empty()
                },
                None => Seq::<Seq<char>>::empty(),
            }
        }),
        final(campaign).events == old(campaign).events,
        final(campaign).state == old(campaign).state,
        final(campaign).sessions == old(campaign).sessions,
        forall|i: int|
            0 <= i < ACTOR_COUNT && i != roster_index(actor_id@) ==> #[trigger] final(campaign).identities.identities@[i] == old(campaign).identities.identities@[i],
        forall|i: int|
            1 <= i < ACTOR_COUNT ==> #[trigger] final(campaign).notes@[i] == old(campaign).notes@[i],
{
    if crate::actors::actor_index(actor_id).is_none() {
        return Err(CampaignError::UnknownActor);
    }
    proof {
        reveal_strlit("dm_agent");
        crate::actors::lemma_roster_distinct();
        assert(roster_index(DM_ACTOR@) == 0);
    }
    let ghost c0 = *campaign;
    let name = normalize_name_with_fallback(final_name, proposed_name);
    let pronouns = normalize_pronouns(final_pronouns);
    let mut note = String::from_str(FINALIZED_OPENING);
    note.append(actor_id);
    note.append(": ");
    note.append(name.as_str());
    note.append(" (");
    note.append(pronouns.as_str());
    note.append(")");
    let _ = campaign.set_actor_identity(actor_id, name, pronouns, true);
    let ghost c1 = *campaign;
    assert(note_texts(c1, DM_ACTOR@) == note_texts(c0, DM_ACTOR@));
    let _ = campaign.append_note(DM_ACTOR, note.as_str());
    let ghost c2 = *campaign;
    assert(note_texts(c2, DM_ACTOR@) =~= note_texts(c0, DM_ACTOR@).push(note@));
    match reason {
        Some(x) => {
            let t = trim(x.as_str());
            if t.unicode_len() > 0 {
                let mut why = String::from_str(REASON_OPENING);
                why.append(actor_id);
                why.append(": ");
                why.append(t.as_str());
                let _ = campaign.append_note(DM_ACTOR, why.as_str());
                assert(note_texts(*campaign, DM_ACTOR@) =~= note_texts(c2, DM_ACTOR@).push(why@));
            } else {
                assert(note_texts(c2, DM_ACTOR@) + Seq::<Seq<char>>::empty() =~= note_texts(
                    c2,
                    DM_ACTOR@,
                ));
            }
        },
        None => {
            assert(note_texts(c2, DM_ACTOR@) + Seq::<Seq<char>>::empty() =~= note_texts(
                c2,
                DM_ACTOR@,
            ));
        },
    }
    assert(note_texts(c0, DM_ACTOR@).push(note@) =~= note_texts(c0, DM_ACTOR@) + seq![note@]);
    Ok(())
}

} // verus!
