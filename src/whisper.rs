//! The whisper gate: a private message request is reduced to its valid
//! targets, put to the director as one batch, and then either delivered to
//! every target or to none.
use vstd::prelude::*;
use crate::actors::{ACTOR_COUNT, DM_ACTOR, roster, str_eq};
use crate::campaign::{CampaignError, CampaignRuntime};
use crate::registry::{
    HumanIdentity, format_target_plain, label_spec, resolve_actor_id, resolve_spec,
    target_entries, valid_targets_csv,
};
use crate::text::{join_strings, join_with, trim, trim_spec};
use crate::transcript::{can_see, whisper_sender, whisper_target};
use crate::types::{TranscriptEvent, WhisperDecision};

verus! {

/// The trimmed, non-blank tokens of a list, in order.
pub open spec fn nonblank_trimmed(ts: Seq<String>) -> Seq<Seq<char>>
    decreases ts.len(),
{
    if ts.len() == 0 {
        seq![]
    } else if trim_spec(ts.last()@).len() == 0 {
        nonblank_trimmed(ts.drop_last())
    } else {
        nonblank_trimmed(ts.drop_last()).push(trim_spec(ts.last()@))
    }
}

/// The target tokens of a request: the single `target`, then each of `targets`,
/// trimmed, blanks left out.
pub open spec fn requested_spec(target: Option<String>, targets: Seq<String>) -> Seq<Seq<char>> {
    let head: Seq<Seq<char>> = match target {
        Some(t) => if trim_spec(t@).len() > 0 {
            seq![trim_spec(t@)]
        } else {
            seq![]
        },
        None => seq![],
    };
    head + nonblank_trimmed(targets)
}

pub fn requested_targets(target: &Option<String>, targets: &Vec<String>) -> (r: Vec<String>)
    ensures
        r@.map_values(|s: String| s@) == requested_spec(*target, targets@),
{
    let mut r: Vec<String> = Vec::new();
    match target {
        Some(t) => {
            let tt = trim(t.as_str());
            if tt.unicode_len() > 0 {
                r.push(tt);
            }
        },
        None => {},
    }
    let ghost head = r@.map_values(|s: String| s@);
    let mut i: usize = 0;
    while i < targets.len()
        invariant
            i <= targets@.len(),
            r@.map_values(|s: String| s@) == head + nonblank_trimmed(targets@.take(i as int)),
        decreases targets@.len() - i,
    {
        assert(targets@.take(i + 1).drop_last() == targets@.take(i as int));
        assert(targets@.take(i + 1).last() == targets@[i as int]);
        let tt = trim(targets[i].as_str());
        if tt.unicode_len() > 0 {
            let ghost before = r@;
            r.push(tt);
            assert(r@.map_values(|s: String| s@) =~= before.map_values(|s: String| s@).push(tt@));
            assert(head + nonblank_trimmed(targets@.take(i as int)).push(tt@) =~= (head
                + nonblank_trimmed(targets@.take(i as int))).push(tt@));
        }
        i = i + 1;
    }
    assert(targets@.take(targets@.len() as int) == targets@);
    assert(requested_spec(*target, targets@) == head + nonblank_trimmed(targets@));
    r
}

/// The distinct actors that the first `n` tokens name, in first-named order,
/// leaving out the sender.
pub open spec fn resolved_upto(
    tokens: Seq<Seq<char>>,
    sender: Seq<char>,
    c: CampaignRuntime,
    h: HumanIdentity,
    n: int,
) -> Seq<Seq<char>>
    decreases n,
{
    if n <= 0 {
        seq![]
    } else {
        let prev = resolved_upto(tokens, sender, c, h, n - 1);
        let k = resolve_spec(tokens[n - 1], c, h);
        if k < 0 || roster()[k] == sender || prev.contains(roster()[k]) {
            prev
        } else {
            prev.push(roster()[k])
        }
    }
}

/// The tokens among the first `n` that name no actor.
pub open spec fn invalid_upto(
    tokens: Seq<Seq<char>>,
    c: CampaignRuntime,
    h: HumanIdentity,
    n: int,
) -> Seq<Seq<char>>
    decreases n,
{
    if n <= 0 {
        seq![]
    } else if resolve_spec(tokens[n - 1], c, h) < 0 {
        invalid_upto(tokens, c, h, n - 1).push(tokens[n - 1])
    } else {
        invalid_upto(tokens, c, h, n - 1)
    }
}

/// How many of the first `n` tokens name the sender.
pub open spec fn self_count_upto(
    tokens: Seq<Seq<char>>,
    sender: Seq<char>,
    c: CampaignRuntime,
    h: HumanIdentity,
    n: int,
) -> nat
    decreases n,
{
    if n <= 0 {
        0
    } else {
        let k = resolve_spec(tokens[n - 1], c, h);
        self_count_upto(tokens, sender, c, h, n - 1) + if k >= 0 && roster()[k] == sender {
            1nat
        } else {
            0nat
        }
    }
}

/// The sorted targets of one request.
pub struct WhisperTargets {
    /// Distinct actors other than the sender, in the order first named.
    pub resolved: Vec<String>,
    /// Tokens that name no actor.
    pub invalid: Vec<String>,
    /// How many tokens named the sender.
    pub skipped_self: usize,
}

fn contains_id(list: &Vec<String>, id: &str) -> (r: bool)
    ensures
        r == list@.map_values(|s: String| s@).contains(id@),
{
    let ghost ls = list@.map_values(|s: String| s@);
    let mut i: usize = 0;
    while i < list.len()
        invariant
            i <= list@.len(),
            ls == list@.map_values(|s: String| s@),
            forall|k: int| 0 <= k < i ==> ls[k] != id@,
        decreases list@.len() - i,
    {
        if str_eq(list[i].as_str(), id) {
            assert(ls[i as int] == id@);
            return true;
        }
        i = i + 1;
    }
    false
}

/// Resolves each requested token: unknown ones are set aside, the sender is
/// dropped, and each actor is kept once.
pub fn sort_whisper_targets(
    sender: &str,
    requested: &Vec<String>,
    campaign: &CampaignRuntime,
    human: &HumanIdentity,
) -> (r: WhisperTargets)
    requires
        campaign.wf(),
    ensures
        ({
            let toks = requested@.map_values(|s: String| s@);
            let n = requested@.len() as int;
            &&& r.resolved@.map_values(|s: String| s@) == resolved_upto(
                toks,
                sender@,
                *campaign,
                *human,
                n,
            )
            &&& r.invalid@.map_values(|s: String| s@) == invalid_upto(toks, *campaign, *human, n)
            &&& r.skipped_self as nat == self_count_upto(toks, sender@, *campaign, *human, n)
        }),
{
    let ghost toks = requested@.map_values(|s: String| s@);
    let mut resolved: Vec<String> = Vec::new();
    let mut invalid: Vec<String> = Vec::new();
    let mut skipped_self: usize = 0;
    let mut i: usize = 0;
    while i < requested.len()
        invariant
            campaign.wf(),
            i <= requested@.len(),
            toks == requested@.map_values(|s: String| s@),
            resolved@.map_values(|s: String| s@) == resolved_upto(
                toks,
                sender@,
                *campaign,
                *human,
                i as int,
            ),
            invalid@.map_values(|s: String| s@) == invalid_upto(toks, *campaign, *human, i as int),
            skipped_self as nat == self_count_upto(toks, sender@, *campaign, *human, i as int),
            skipped_self <= i,
        decreases requested@.len() - i,
    {
        assert(toks[i as int] == requested@[i as int]@);
        match resolve_actor_id(requested[i].as_str(), campaign, human) {
            None => {
                let ghost before = invalid@;
                invalid.push(requested[i].clone());
                assert(invalid@.map_values(|s: String| s@) =~= before.map_values(|s: String| s@).push(
                    toks[i as int],
                ));
            },
            Some(id) => {
                if str_eq(id, sender) {
                    skipped_self = skipped_self + 1;
                } else if !contains_id(&resolved, id) {
                    let ghost before = resolved@;
                    resolved.push(String::from_str(id));
                    assert(resolved@.map_values(|s: String| s@) =~= before.map_values(
                        |s: String| s@,
                    ).push(id@));
                }
            },
        }
        i = i + 1;
    }
    WhisperTargets { resolved, invalid, skipped_self }
}

pub const NOTE_MISSING_TARGETS: &'static str = "Whisper request missing `target` or `targets`; request skipped.";

pub const NOTE_INVALID_TARGETS: &'static str = "Invalid whisper targets skipped: ";

pub const NOTE_VALID_TARGETS: &'static str = ". Valid targets: ";

pub const NOTE_SELF_TARGET: &'static str = "Whisper target cannot include sender; self targets were skipped.";

pub const NOTE_NO_VALID_TARGETS: &'static str = "Whisper request had no valid targets after filtering; request skipped.";

/// The notes that a request leaves for its sender before any decision.
pub open spec fn request_notes_spec(
    c: CampaignRuntime,
    h: HumanIdentity,
    sender: Seq<char>,
    toks: Seq<Seq<char>>,
) -> Seq<Seq<char>> {
    let n = toks.len() as int;
    let invalid = invalid_upto(toks, c, h, n);
    let resolved = resolved_upto(toks, sender, c, h, n);
    if n == 0 {
        seq![NOTE_MISSING_TARGETS@]
    } else {
        (if invalid.len() > 0 {
            seq![
                NOTE_INVALID_TARGETS@ + join_with(invalid, ", "@) + NOTE_VALID_TARGETS@ + join_with(
                    target_entries(c, sender, ACTOR_COUNT as int),
                    ", "@,
                ),
            ]
        } else {
            seq![]
        }) + (if self_count_upto(toks, sender, c, h, n) > 0 {
            seq![NOTE_SELF_TARGET@]
        } else {
            seq![]
        }) + (if resolved.len() == 0 {
            seq![NOTE_NO_VALID_TARGETS@]
        } else {
            seq![]
        })
    }
}

pub open spec fn note_texts(c: CampaignRuntime, actor: Seq<char>) -> Seq<Seq<char>> {
    c.notes_spec(actor).map_values(|e: crate::types::NoteEntry| e.text@)
}

/// Reduces a whisper request to the actors that the director is asked about,
/// leaving the sender a note for each problem found. An empty result means that
/// the request is dropped without asking the director; the transcript is never
/// touched here.
pub fn prepare_whisper_request(
    campaign: &mut CampaignRuntime,
    sender: &str,
    target: &Option<String>,
    targets: &Vec<String>,
    human: &HumanIdentity,
) -> (r: Result<Vec<String>, CampaignError>)
    requires
        old(campaign).wf(),
    ensures
        final(campaign).wf(),
        r is Err <==> crate::actors::roster_index(sender@) < 0,
        r is Err ==> *final(campaign) == *old(campaign),
        final(campaign).events == old(campaign).events,
        final(campaign).state == old(campaign).state,
        final(campaign).sessions == old(campaign).sessions,
        final(campaign).identities == old(campaign).identities,
        forall|i: int|
            0 <= i < ACTOR_COUNT && i != crate::actors::roster_index(sender@) ==> #[trigger] final(campaign).notes@[i]
                == old(campaign).notes@[i],
        r is Ok ==> ({
            let toks = requested_spec(*target, targets@);
            &&& r->Ok_0@.map_values(|s: String| s@) == resolved_upto(
                toks,
                sender@,
                *old(campaign),
                *human,
                toks.len() as int,
            )
            &&& note_texts(*final(campaign), sender@) == note_texts(*old(campaign), sender@)
                + request_notes_spec(*old(campaign), *human, sender@, toks)
        }),
{
    if crate::actors::actor_index(sender).is_none() {
        return Err(CampaignError::UnknownActor);
    }
    let ghost c0 = *campaign;
    let requested = requested_targets(target, targets);
    let ghost toks = requested@.map_values(|s: String| s@);
    if requested.len() == 0 {
        let _ = campaign.append_note(sender, NOTE_MISSING_TARGETS);
        proof {
            assert(note_texts(*campaign, sender@) =~= note_texts(c0, sender@).push(
                NOTE_MISSING_TARGETS@,
            ));
        }
        return Ok(Vec::new());
    }
    let sorted = sort_whisper_targets(sender, &requested, campaign, human);
    let ghost inv_part = if sorted.invalid@.len() > 0 {
        seq![
            NOTE_INVALID_TARGETS@ + join_with(sorted.invalid@.map_values(|s: String| s@), ", "@)
                + NOTE_VALID_TARGETS@ + join_with(target_entries(c0, sender@, ACTOR_COUNT as int), ", "@),
        ]
    } else {
        Seq::<Seq<char>>::empty()
    };
    if sorted.invalid.len() > 0 {
        let mut text = String::from_str(NOTE_INVALID_TARGETS);
        let joined = join_strings(&sorted.invalid, ", ");
        text.append(joined.as_str());
        text.append(NOTE_VALID_TARGETS);
        let csv = valid_targets_csv(campaign, sender, human);
        text.append(csv.as_str());
        let _ = campaign.append_note(sender, text.as_str());
    }
    let ghost c1 = *campaign;
    assert(note_texts(c1, sender@) =~= note_texts(c0, sender@) + inv_part);
    let ghost self_part = if sorted.skipped_self > 0 {
        seq![NOTE_SELF_TARGET@]
    } else {
        Seq::<Seq<char>>::empty()
    };
    if sorted.skipped_self > 0 {
        let _ = campaign.append_note(sender, NOTE_SELF_TARGET);
    }
    let ghost c2 = *campaign;
    assert(note_texts(c2, sender@) =~= note_texts(c0, sender@) + inv_part + self_part);
    let ghost none_part = if sorted.resolved@.len() == 0 {
        seq![NOTE_NO_VALID_TARGETS@]
    } else {
        Seq::<Seq<char>>::empty()
    };
    if sorted.resolved.len() == 0 {
        let _ = campaign.append_note(sender, NOTE_NO_VALID_TARGETS);
    }
    assert(note_texts(*campaign, sender@) =~= note_texts(c0, sender@) + inv_part + self_part
        + none_part);
    assert(request_notes_spec(c0, *human, sender@, toks) =~= inv_part + self_part + none_part);
    Ok(sorted.resolved)
}

/// The director's verdict on a batch.
pub struct WhisperOutcome {
    pub approved: bool,
    pub reason: Option<String>,
}

pub const UNPARSED_DECISION_REASON: &'static str = "DM whisper decision could not be parsed as JSON.";

/// The outcome of a decision; a decision that could not be read denies.
pub fn whisper_outcome(decision: Option<WhisperDecision>) -> (r: WhisperOutcome)
    ensures
        decision is Some ==> r.approved == decision->0.approve && r.reason == decision->0.reason,
        decision is None ==> !r.approved && r.reason is Some && r.reason->0@
            == UNPARSED_DECISION_REASON@,
{
    match decision {
        Some(d) => WhisperOutcome { approved: d.approve, reason: d.reason },
        None => WhisperOutcome {
            approved: false,
            reason: Some(String::from_str(UNPARSED_DECISION_REASON)),
        },
    }
}

pub const DENIAL_OPENING: &'static str = "DM denied whisper to ";

pub const DENIAL_REASON: &'static str = ". Reason: ";

pub const DEFAULT_DENIAL_REASON: &'static str = "No reason supplied.";

/// The events that an approved batch appends: one whisper per target, in order.
pub open spec fn is_batch_delivery(
    new_events: Seq<TranscriptEvent>,
    old_events: Seq<TranscriptEvent>,
    sender: Seq<char>,
    targets: Seq<Seq<char>>,
    message: Seq<char>,
) -> bool {
    &&& new_events.len() == old_events.len() + targets.len()
    &&& new_events.take(old_events.len() as int) == old_events
    &&& forall|i: int|
        0 <= i < targets.len() ==> {
            let e = #[trigger] new_events[old_events.len() + i];
            &&& e.speaker@ == sender
            &&& e.message@ == message
            &&& e.visibility is Whisper
            &&& whisper_sender(e.visibility) == sender
            &&& whisper_target(e.visibility) == targets[i]
        }
}

pub open spec fn denial_note_spec(
    c: CampaignRuntime,
    targets: Seq<String>,
    reason: Option<String>,
) -> Seq<char> {
    DENIAL_OPENING@ + "["@ + join_with(targets.map_values(|t: String| label_spec(c, t@)), ", "@)
        + "]"@ + DENIAL_REASON@ + match reason {
        Some(r) => r@,
        None => DEFAULT_DENIAL_REASON@,
    }
}

/// Applies the director's verdict to the whole batch: on approval every target
/// receives the whisper; on denial the transcript is untouched and the sender
/// gets one note with the reason.
pub fn finalize_whisper_outcome_batch(
    campaign: &mut CampaignRuntime,
    sender: &str,
    targets: &Vec<String>,
    message: &str,
    human: &HumanIdentity,
    outcome: WhisperOutcome,
) -> (r: Result<(), CampaignError>)
    requires
        old(campaign).wf(),
    ensures
        final(campaign).wf(),
        r is Err <==> !outcome.approved && crate::actors::roster_index(sender@) < 0,
        final(campaign).state.round_index == old(campaign).state.round_index,
        final(campaign).sessions == old(campaign).sessions,
        final(campaign).identities == old(campaign).identities,
        outcome.approved ==> is_batch_delivery(
            final(campaign).events@,
            old(campaign).events@,
            sender@,
            targets@.map_values(|t: String| t@),
            message@,
        ),
        outcome.approved ==> final(campaign).notes == old(campaign).notes,
        !outcome.approved ==> final(campaign).events == old(campaign).events,
        forall|i: int|
            0 <= i < ACTOR_COUNT && i != crate::actors::roster_index(sender@) ==> #[trigger] final(campaign).notes@[i]
                == old(campaign).notes@[i],
        !outcome.approved && r is Ok ==> note_texts(*final(campaign), sender@) == note_texts(
            *old(campaign),
            sender@,
        ).push(denial_note_spec(*old(campaign), targets@, outcome.reason)),
{
    if outcome.approved {
        let ghost old_events = campaign.events@;
        let ghost ts = targets@.map_values(|t: String| t@);
        let mut i: usize = 0;
        assert(old_events.take(old_events.len() as int) =~= old_events);
        assert(ts.take(0).len() == 0);
        while i < targets.len()
            invariant
                campaign.wf(),
                i <= targets@.len(),
                ts == targets@.map_values(|t: String| t@),
                is_batch_delivery(campaign.events@, old_events, sender@, ts.take(i as int), message@),
                campaign.state.round_index == old(campaign).state.round_index,
                campaign.sessions == old(campaign).sessions,
                campaign.identities == old(campaign).identities,
                campaign.notes == old(campaign).notes,
            decreases targets@.len() - i,
        {
            let ghost before = campaign.events@;
            campaign.add_whisper(sender, targets[i].as_str(), message);
            proof {
                assert(campaign.events@ == before.push(campaign.events@.last()));
                assert(campaign.events@.take(old_events.len() as int) =~= old_events);
                assert forall|k: int| 0 <= k < i + 1 implies {
                    let e = #[trigger] campaign.events@[old_events.len() + k];
                    &&& e.speaker@ == sender@
                    &&& e.message@ == message@
                    &&& e.visibility is Whisper
                    &&& whisper_sender(e.visibility) == sender@
                    &&& whisper_target(e.visibility) == ts.take(i + 1)[k]
                } by {
                    if k < i {
                        assert(campaign.events@[old_events.len() + k] == before[old_events.len() + k]);
                    }
                }
            }
            i = i + 1;
        }
        assert(ts.take(targets@.len() as int) == ts);
        Ok(())
    } else {
        let ghost c0 = *campaign;
        let mut text = String::from_str(DENIAL_OPENING);
        let plain = format_target_plain(campaign, targets, human);
        text.append(plain.as_str());
        text.append(DENIAL_REASON);
        match &outcome.reason {
            Some(reason) => text.append(reason.as_str()),
            None => text.append(DEFAULT_DENIAL_REASON),
        }
        assert(text@ =~= denial_note_spec(c0, targets@, outcome.reason));
        let r = campaign.append_note(sender, text.as_str());
        proof {
            if r is Ok {
                assert(note_texts(*campaign, sender@) =~= note_texts(c0, sender@).push(text@));
            }
        }
        r
    }
}

/// An approved batch lets the sender, every target and the director read each
/// delivered whisper; a denied batch adds nothing to the transcript, so no
/// target gains a visible event. Nothing in between can happen.
pub proof fn lemma_batch_whisper_atomic(
    new_events: Seq<TranscriptEvent>,
    old_events: Seq<TranscriptEvent>,
    sender: Seq<char>,
    targets: Seq<Seq<char>>,
    message: Seq<char>,
    approved: bool,
)
    requires
        approved ==> is_batch_delivery(new_events, old_events, sender, targets, message),
        !approved ==> new_events == old_events,
    ensures
        approved ==> forall|i: int|
            0 <= i < targets.len() ==> {
                let e = #[trigger] new_events[old_events.len() + i];
                &&& can_see(targets[i], e)
                &&& can_see(sender, e)
                &&& can_see(DM_ACTOR@, e)
                &&& e.message@ == message
            },
        !approved ==> new_events.len() == old_events.len(),
{
}

} // verus!
