//! An actor's turn, and the director's decision on a whisper batch, as state
//! machines: the caller sends each prompt to the agent and hands back the
//! reply; the driver records the session, checks the reply, and says what to
//! do next.
use vstd::prelude::*;
use crate::actors::{ACTOR_COUNT, DM_ACTOR, roster_index, str_eq};
use crate::campaign::{CampaignError, CampaignRuntime, same_state_but_time};
use crate::registry::HumanIdentity;
use crate::repair::{
    RepairLoop, RepairStep, TURN_OUTPUT_REPAIR_RETRIES, TURN_QUOTE_LIMIT, WHISPER_REPAIR_OPENING,
    build_repair_prompt, build_whisper_repair_prompt, repair_prompt_spec, step_spec,
};
use crate::text::truncate_spec;
use crate::whisper::{UNPARSED_DECISION_REASON, WhisperOutcome, whisper_outcome};
use crate::turn::{
    apply_turn_messages, messages_applied, record_suppressed_output, suppression_noted,
    turn_check_spec, validate_turn_output,
};
use crate::types::{AgentTurnResponse, WhisperDecision};

verus! {

/// What the caller does after a reply.
pub enum TurnStep {
    /// Send this corrective prompt on the same conversation handle.
    Retry { prompt: String },
    /// The turn is valid and its messages are posted; its actions remain to be
    /// processed. The director's turn names the next actor.
    Accepted { response: AgentTurnResponse, next_actor: Option<&'static str> },
    /// The director's turn stayed invalid: the failure goes to the operator.
    Failed,
    /// A player's turn stayed invalid: it yields nothing; the director was told.
    NoOp,
}

pub struct ActorTurnDriver {
    pub actor_id: String,
    pub repair: RepairLoop,
}

pub open spec fn reply_valid(
    actor: Seq<char>,
    parsed: Option<AgentTurnResponse>,
    c: CampaignRuntime,
    h: HumanIdentity,
) -> bool {
    match parsed {
        Some(r) => turn_check_spec(actor, r, c, h) is Ok,
        None => false,
    }
}

impl ActorTurnDriver {
    /// Starts a turn on the conversation handle already recorded for the actor.
    pub fn start(campaign: &CampaignRuntime, actor_id: &str) -> (r: Self)
        requires
            campaign.wf(),
        ensures
            r.actor_id@ == actor_id@,
            r.repair.attempt == 0,
            r.repair.max_retries == TURN_OUTPUT_REPAIR_RETRIES,
            !r.repair.finished,
            r.repair.thread == (match campaign.session_spec(actor_id@) {
                Some(s) => s.thread_id,
                None => None,
            }),
    {
        let thread = campaign.get_thread_id(actor_id);
        ActorTurnDriver {
            actor_id: String::from_str(actor_id),
            repair: RepairLoop::new(TURN_OUTPUT_REPAIR_RETRIES, thread),
        }
    }

    /// The handle the next call goes out on.
    pub fn thread_for_call(&self) -> (r: Option<String>)
        ensures
            r == self.repair.thread,
    {
        self.repair.thread_for_call()
    }

    /// Takes one reply: the handle the agent reported, the raw text, and the
    /// turn parsed from it (`None` when no candidate text parsed).
    pub fn on_reply(
        &mut self,
        campaign: &mut CampaignRuntime,
        human: &HumanIdentity,
        reply_thread: Option<String>,
        raw_output: &str,
        parsed: Option<AgentTurnResponse>,
    ) -> (r: Result<TurnStep, CampaignError>)
        requires
            old(campaign).wf(),
            !old(self).repair.finished,
            old(self).repair.attempt <= old(self).repair.max_retries,
        ensures
            final(campaign).wf(),
            r is Err <==> roster_index(old(self).actor_id@) < 0,
            r is Err ==> *final(campaign) == *old(campaign),
            same_state_but_time(final(campaign).state, old(campaign).state),
            final(campaign).identities == old(campaign).identities,
            final(self).actor_id == old(self).actor_id,
            r is Ok ==> ({
                let actor = old(self).actor_id@;
                let valid = reply_valid(actor, parsed, *old(campaign), *human);
                let step = step_spec(
                    old(self).repair.attempt as nat,
                    old(self).repair.max_retries as nat,
                    valid,
                );
                let before = old(campaign).session_spec(actor).unwrap();
                let after = final(campaign).session_spec(actor).unwrap();
                &&& final(self).repair.max_retries == old(self).repair.max_retries
                &&& final(self).repair.attempt == if step == RepairStep::Repair {
                    old(self).repair.attempt + 1
                } else {
                    old(self).repair.attempt as int
                }
                &&& final(self).repair.finished == (step != RepairStep::Repair)
                &&& final(self).repair.thread == (match reply_thread {
                    Some(t) => Some(t),
                    None => old(self).repair.thread,
                })
                &&& after.thread_id == (match reply_thread {
                    Some(t) => Some(t),
                    None => before.thread_id,
                })
                &&& after.last_message is Some
                &&& after.last_message->0@ == raw_output@
                &&& forall|i: int|
                    0 <= i < ACTOR_COUNT && i != roster_index(actor) ==> #[trigger] final(campaign).sessions.sessions@[i] == old(campaign).sessions.sessions@[i]
                &&& (step == RepairStep::Repair <==> r->Ok_0 is Retry)
                &&& (step == RepairStep::Accept <==> r->Ok_0 is Accepted)
                &&& (step == RepairStep::Exhausted && actor == DM_ACTOR@ <==> r->Ok_0 is Failed)
                &&& (step == RepairStep::Exhausted && actor != DM_ACTOR@ <==> r->Ok_0 is NoOp)
                &&& (r->Ok_0 is Retry ==> r->Ok_0->prompt@ == repair_prompt_spec(
                    actor,
                    actor == DM_ACTOR@,
                    raw_output@,
                ))
                &&& (r->Ok_0 is Retry || r->Ok_0 is Failed ==> final(campaign).events == old(campaign).events && final(campaign).notes == old(campaign).notes)
                &&& (r->Ok_0 is NoOp ==> final(campaign).events == old(campaign).events
                    && suppression_noted(*old(campaign), *final(campaign), actor))
                &&& (r->Ok_0 is Accepted ==> parsed is Some && r->Ok_0->response == parsed->0
                    && turn_check_spec(actor, parsed->0, *old(campaign), *human) == Ok::<
                    Option<Seq<char>>,
                    crate::turn::TurnError,
                >(
                    match r->Ok_0->next_actor {
                        Some(a) => Some(a@),
                        None => None,
                    },
                ) && messages_applied(*old(campaign), *final(campaign), actor, parsed->0))
            }),
    {
        let actor = self.actor_id.clone();
        if crate::actors::actor_index(actor.as_str()).is_none() {
            return Err(CampaignError::UnknownActor);
        }
        let ghost c0 = *campaign;
        let check = match &parsed {
            Some(resp) => Some(validate_turn_output(actor.as_str(), resp, campaign, human)),
            None => None,
        };
        match &reply_thread {
            Some(t) => {
                let _ = campaign.set_thread_id(actor.as_str(), t.clone());
            },
            None => {},
        }
        let _ = campaign.set_last_message(actor.as_str(), String::from_str(raw_output));
        let valid = match &check {
            Some(Ok(_)) => true,
            _ => false,
        };
        let step = self.repair.record_reply(reply_thread, valid);
        let is_dm = str_eq(actor.as_str(), DM_ACTOR);
        match step {
            RepairStep::Repair => Ok(
                TurnStep::Retry { prompt: build_repair_prompt(actor.as_str(), is_dm, raw_output) },
            ),
            RepairStep::Exhausted => {
                if is_dm {
                    Ok(TurnStep::Failed)
                } else {
                    let _ = record_suppressed_output(campaign, actor.as_str(), human);
                    Ok(TurnStep::NoOp)
                }
            },
            RepairStep::Accept => {
                match (parsed, check) {
                    (Some(resp), Some(Ok(next))) => {
                        let _ = apply_turn_messages(campaign, actor.as_str(), &resp);
                        Ok(TurnStep::Accepted { response: resp, next_actor: next })
                    },
                    _ => Ok(TurnStep::Failed),
                }
            },
        }
    }
}

/// What the caller does after the director's reply on a whisper batch.
pub enum GateStep {
    /// Send this corrective prompt on the same conversation handle.
    Retry { prompt: String },
    /// The batch is decided, as a whole, by this outcome.
    Decided(WhisperOutcome),
}

/// The director's decision on one whisper batch, with its own repair loop on
/// the director's conversation handle.
pub struct WhisperGateDriver {
    pub repair: RepairLoop,
}

impl WhisperGateDriver {
    pub fn start(campaign: &CampaignRuntime) -> (r: Self)
        requires
            campaign.wf(),
        ensures
            r.repair.attempt == 0,
            r.repair.max_retries == TURN_OUTPUT_REPAIR_RETRIES,
            !r.repair.finished,
            r.repair.thread == campaign.session_spec(DM_ACTOR@).unwrap().thread_id,
    {
        proof {
            reveal_strlit("dm_agent");
        }
        let thread = campaign.get_thread_id(DM_ACTOR);
        WhisperGateDriver { repair: RepairLoop::new(TURN_OUTPUT_REPAIR_RETRIES, thread) }
    }

    /// The handle the next call goes out on.
    pub fn thread_for_call(&self) -> (r: Option<String>)
        ensures
            r == self.repair.thread,
    {
        self.repair.thread_for_call()
    }

    /// Takes one reply of the director: the handle it reported, the raw text,
    /// and the decision parsed from it (`None` when none parsed). The reply is
    /// recorded in the director's session; the transcript and the notes are
    /// never touched. A decision that cannot be read after the last attempt denies.
    pub fn on_reply(
        &mut self,
        campaign: &mut CampaignRuntime,
        reply_thread: Option<String>,
        raw_output: &str,
        decision: Option<WhisperDecision>,
    ) -> (r: GateStep)
        requires
            old(campaign).wf(),
            !old(self).repair.finished,
            old(self).repair.attempt <= old(self).repair.max_retries,
        ensures
            final(campaign).wf(),
            final(campaign).events == old(campaign).events,
            final(campaign).notes == old(campaign).notes,
            final(campaign).identities == old(campaign).identities,
            final(campaign).state == old(campaign).state,
            ({
                let step = step_spec(
                    old(self).repair.attempt as nat,
                    old(self).repair.max_retries as nat,
                    decision is Some,
                );
                let before = old(campaign).session_spec(DM_ACTOR@).unwrap();
                let after = final(campaign).session_spec(DM_ACTOR@).unwrap();
                &&& final(self).repair.max_retries == old(self).repair.max_retries
                &&& final(self).repair.attempt == if step == RepairStep::Repair {
                    old(self).repair.attempt + 1
                } else {
                    old(self).repair.attempt as int
                }
                &&& final(self).repair.finished == (step != RepairStep::Repair)
                &&& final(self).repair.thread == (match reply_thread {
                    Some(t) => Some(t),
                    None => old(self).repair.thread,
                })
                &&& after.thread_id == (match reply_thread {
                    Some(t) => Some(t),
                    None => before.thread_id,
                })
                &&& after.last_message is Some
                &&& after.last_message->0@ == raw_output@
                &&& (step == RepairStep::Repair <==> r is Retry)
                &&& (r is Retry ==> r->prompt@ == WHISPER_REPAIR_OPENING@ + truncate_spec(
                    raw_output@,
                    TURN_QUOTE_LIMIT as nat,
                ))
                &&& (step == RepairStep::Accept ==> r is Decided && r->0.approved
                    == decision->0.approve && r->0.reason == decision->0.reason)
                &&& (step == RepairStep::Exhausted ==> r is Decided && !r->0.approved
                    && r->0.reason is Some && r->0.reason->0@ == UNPARSED_DECISION_REASON@)
            }),
    {
        proof {
            reveal_strlit("dm_agent");
        }
        match &reply_thread {
            Some(t) => {
                let _ = campaign.set_thread_id(DM_ACTOR, t.clone());
            },
            None => {},
        }
        let _ = campaign.set_last_message(DM_ACTOR, String::from_str(raw_output));
        let step = self.repair.record_reply(reply_thread, decision.is_some());
        match step {
            RepairStep::Repair => GateStep::Retry { prompt: build_whisper_repair_prompt(raw_output) },
            RepairStep::Accept => GateStep::Decided(whisper_outcome(decision)),
            RepairStep::Exhausted => GateStep::Decided(whisper_outcome(None)),
        }
    }
}

} // verus!
