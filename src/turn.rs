//! Checking a structured turn against the actor's role and applying its
//! public message, its note and its note actions.
use vstd::prelude::*;
use crate::actors::{ACTOR_COUNT, DM_ACTOR, roster, roster_index, str_eq};
use crate::campaign::{CampaignError, CampaignRuntime, same_state_but_time};
use crate::registry::{HumanIdentity, actor_label, label_spec, resolve_actor_id, resolve_spec};
use crate::repair::TURN_OUTPUT_REPAIR_RETRIES;
use crate::text::{decimal, decimal_spec, trim, trim_spec};
use crate::types::{AgentTurnResponse, TranscriptEvent};
use crate::whisper::note_texts;

verus! {

/// Why a parsed turn does not meet the contract of its role.
#[derive(Debug, PartialEq, Eq, Structural)]
pub enum TurnError {
    /// The director's turn does not name the next actor.
    MissingNextActor,
    /// The director's turn names something that resolves to no actor.
    InvalidNextActor,
}

/// The next actor that a valid turn selects: a roster position for the
/// director, nothing for anyone else.
pub open spec fn turn_check_spec(
    actor: Seq<char>,
    response: AgentTurnResponse,
    c: CampaignRuntime,
    h: HumanIdentity,
) -> Result<Option<Seq<char>>, TurnError> {
    if actor != DM_ACTOR@ {
        Ok(None)
    } else {
        match response.next_actor_id {
            None => Err(TurnError::MissingNextActor),
            Some(raw) => if resolve_spec(raw@, c, h) < 0 {
                Err(TurnError::InvalidNextActor)
            } else {
                Ok(Some(roster()[resolve_spec(raw@, c, h)]))
            },
        }
    }
}

/// Checks a parsed turn: the director must name a next actor that resolves.
pub fn validate_turn_output(
    actor_id: &str,
    response: &AgentTurnResponse,
    campaign: &CampaignRuntime,
    human: &HumanIdentity,
) -> (r: Result<Option<&'static str>, TurnError>)
    requires
        campaign.wf(),
    ensures
        r is Ok <==> turn_check_spec(actor_id@, *response, *campaign, *human) is Ok,
        r is Err ==> turn_check_spec(actor_id@, *response, *campaign, *human) == Err::<
            Option<Seq<char>>,
            TurnError,
        >(r->Err_0),
        r is Ok ==> turn_check_spec(actor_id@, *response, *campaign, *human) == Ok::<
            Option<Seq<char>>,
            TurnError,
        >(
            match r->Ok_0 {
                Some(a) => Some(a@),
                None => None,
            },
        ),
{
    if !str_eq(actor_id, DM_ACTOR) {
        return Ok(None);
    }
    match &response.next_actor_id {
        None => Err(TurnError::MissingNextActor),
        Some(raw) => match resolve_actor_id(raw.as_str(), campaign, human) {
            None => Err(TurnError::InvalidNextActor),
            Some(id) => Ok(Some(id)),
        },
    }
}

/// The transcript after a turn's public message: one more public event from
/// `actor` with the trimmed message, or the same transcript when it is blank.
pub open spec fn public_posted(
    before: Seq<TranscriptEvent>,
    after: Seq<TranscriptEvent>,
    actor: Seq<char>,
    message: Seq<char>,
) -> bool {
    if trim_spec(message).len() > 0 {
        &&& after.len() == before.len() + 1
        &&& after.drop_last() == before
        &&& after.last().speaker@ == actor
        &&& after.last().message@ == trim_spec(message)
        &&& after.last().visibility is Public
    } else {
        after == before
    }
}

/// The note that a turn records: its trimmed note, unless blank or absent.
pub open spec fn turn_note(note: Option<String>) -> Seq<Seq<char>> {
    match note {
        Some(n) => if trim_spec(n@).len() > 0 {
            seq![trim_spec(n@)]
        } else {
            Seq::<Seq<char>>::empty()
        },
        None => Seq::<Seq<char>>::empty(),
    }
}

/// What posting a turn's messages does: the public message reaches the
/// transcript, the note joins the actor's notes, and no other actor's notes change.
pub open spec fn messages_applied(
    before: CampaignRuntime,
    after: CampaignRuntime,
    actor: Seq<char>,
    response: AgentTurnResponse,
) -> bool {
    &&& public_posted(before.events@, after.events@, actor, response.public_message@)
    &&& note_texts(after, actor) == note_texts(before, actor) + turn_note(response.note)
    &&& forall|i: int|
        0 <= i < ACTOR_COUNT && i != roster_index(actor) ==> #[trigger] after.notes@[i]
            == before.notes@[i]
}

/// Posts a turn's public message and records its note, each trimmed and only
/// when not blank. The message goes to the transcript before anything else of
/// the turn is processed.
pub fn apply_turn_messages(
    campaign: &mut CampaignRuntime,
    actor_id: &str,
    response: &AgentTurnResponse,
) -> (r: Result<(), CampaignError>)
    requires
        old(campaign).wf(),
    ensures
        final(campaign).wf(),
        r is Err <==> roster_index(actor_id@) < 0,
        r is Err ==> *final(campaign) == *old(campaign),
        r is Ok ==> messages_applied(*old(campaign), *final(campaign), actor_id@, *response),
        same_state_but_time(final(campaign).state, old(campaign).state),
        final(campaign).sessions == old(campaign).sessions,
        final(campaign).identities == old(campaign).identities,
{
    if crate::actors::actor_index(actor_id).is_none() {
        return Err(CampaignError::UnknownActor);
    }
    let ghost c0 = *campaign;
    let message = trim(response.public_message.as_str());
    if message.unicode_len() > 0 {
        campaign.add_public_message(actor_id, message.as_str());
    }
    let ghost c1 = *campaign;
    assert(note_texts(c1, actor_id@) == note_texts(c0, actor_id@));
    match &response.note {
        Some(n) => {
            let t = trim(n.as_str());
            if t.unicode_len() > 0 {
                let _ = campaign.append_note(actor_id, t.as_str());
                assert(note_texts(*campaign, actor_id@) =~= note_texts(c1, actor_id@).push(t@));
                assert(turn_note(response.note) == seq![t@]);
                assert(note_texts(c0, actor_id@).push(t@) =~= note_texts(c0, actor_id@) + seq![t@]);
            } else {
                assert(note_texts(c0, actor_id@) + Seq::<Seq<char>>::empty() =~= note_texts(
                    c0,
                    actor_id@,
                ));
            }
        },
        None => {
            assert(note_texts(c0, actor_id@) + Seq::<Seq<char>>::empty() =~= note_texts(
                c0,
                actor_id@,
            ));
        },
    }
    Ok(())
}

/// A `note_write` action: the trimmed text joins the actor's notes unless blank.
pub fn handle_note_write(campaign: &mut CampaignRuntime, actor_id: &str, text: &str) -> (r: Result<
    (),
    CampaignError,
>)
    requires
        old(campaign).wf(),
    ensures
        final(campaign).wf(),
        r is Err <==> roster_index(actor_id@) < 0 && trim_spec(text@).len() > 0,
        r is Err ==> *final(campaign) == *old(campaign),
        final(campaign).events == old(campaign).events,
        final(campaign).state == old(campaign).state,
        trim_spec(text@).len() == 0 ==> *final(campaign) == *old(campaign),
        r is Ok && trim_spec(text@).len() > 0 ==> note_texts(*final(campaign), actor_id@)
            == note_texts(*old(campaign), actor_id@).push(trim_spec(text@)),
{
    let t = trim(text);
    if t.unicode_len() == 0 {
        return Ok(());
    }
    let ghost c0 = *campaign;
    let r = campaign.append_note(actor_id, t.as_str());
    proof {
        if r is Ok {
            assert(note_texts(*campaign, actor_id@) =~= note_texts(c0, actor_id@).push(t@));
        }
    }
    r
}

/// The note that tells the director an actor's output was suppressed.
pub open spec fn suppression_note(c: CampaignRuntime, actor: Seq<char>) -> Seq<char> {
    label_spec(c, actor) + SUPPRESSED_OPENING@ + decimal_spec(TURN_OUTPUT_REPAIR_RETRIES as nat)
        + SUPPRESSED_CLOSING@
}

/// The director's notes gain the suppression note; no other actor's notes change.
pub open spec fn suppression_noted(before: CampaignRuntime, after: CampaignRuntime, actor: Seq<
    char,
>) -> bool {
    &&& note_texts(after, DM_ACTOR@) == note_texts(before, DM_ACTOR@).push(
        suppression_note(before, actor),
    )
    &&& forall|i: int| 1 <= i < ACTOR_COUNT ==> #[trigger] after.notes@[i] == before.notes@[i]
}

pub const SUPPRESSED_OPENING: &'static str = " produced invalid turn output after ";

pub const SUPPRESSED_CLOSING: &'static str = " retries; output suppressed.";

/// Tells the director that an actor's output was suppressed after every repair
/// attempt failed.
pub fn record_suppressed_output(
    campaign: &mut CampaignRuntime,
    actor_id: &str,
    human: &HumanIdentity,
) -> (r: Result<(), CampaignError>)
    requires
        old(campaign).wf(),
    ensures
        final(campaign).wf(),
        r is Ok,
        final(campaign).events == old(campaign).events,
        final(campaign).state == old(campaign).state,
        final(campaign).sessions == old(campaign).sessions,
        final(campaign).identities == old(campaign).identities,
        suppression_noted(*old(campaign), *final(campaign), actor_id@),
{
    let ghost c0 = *campaign;
    let mut text = actor_label(campaign, actor_id, human);
    text.append(SUPPRESSED_OPENING);
    let n = decimal(TURN_OUTPUT_REPAIR_RETRIES as u64);
    text.append(n.as_str());
    text.append(SUPPRESSED_CLOSING);
    let r = campaign.append_note(DM_ACTOR, text.as_str());
    proof {
        reveal_strlit("dm_agent");
        assert(roster_index(DM_ACTOR@) == 0);
        assert(note_texts(*campaign, DM_ACTOR@) =~= note_texts(c0, DM_ACTOR@).push(text@));
    }
    r
}

} // verus!
