//! The output contract: which text is tried as a structured reply, and the
//! bounded loop that answers an invalid reply with a corrective prompt.
use vstd::prelude::*;
use crate::text::{
    json_object_candidate, extract_json_object, strip_fences, strip_fences_spec, truncate,
    truncate_spec,
};

verus! {

/// How many corrective prompts follow an invalid reply before the turn gives up.
pub const TURN_OUTPUT_REPAIR_RETRIES: usize = 2;

/// The kinds of structured reply that the agent is asked for.
#[derive(Clone, Copy, Debug, PartialEq, Eq, Structural)]
pub enum TurnKind {
    DirectorTurn,
    PlayerTurn,
    WhisperApproval,
    IdentityProposal,
    IdentityDecision,
}

/// What happens when every attempt of a turn was invalid.
#[derive(Clone, Copy, Debug, PartialEq, Eq, Structural)]
pub enum Exhaustion {
    /// The turn fails and the failure reaches the caller.
    FailTurn,
    /// The turn yields nothing; the director is told that output was suppressed.
    NoOpTurn,
    /// The request is denied.
    Deny,
}

pub open spec fn exhaustion_spec(kind: TurnKind) -> Exhaustion {
    match kind {
        TurnKind::PlayerTurn => Exhaustion::NoOpTurn,
        TurnKind::WhisperApproval => Exhaustion::Deny,
        _ => Exhaustion::FailTurn,
    }
}

/// The exhaustion policy of each kind of turn: a director's turn fails, a
/// player's turn becomes a no-op, a whisper approval becomes a denial, and
/// identity setup fails.
pub fn exhaustion_policy(kind: TurnKind) -> (r: Exhaustion)
    ensures
        r == exhaustion_spec(kind),
{
    match kind {
        TurnKind::PlayerTurn => Exhaustion::NoOpTurn,
        TurnKind::WhisperApproval => Exhaustion::Deny,
        _ => Exhaustion::FailTurn,
    }
}

/// The texts to try, in order, as a structured reply: the reply without its
/// fences, then the object found between its first `{` and its last `}`.
pub open spec fn candidates_spec(raw: Seq<char>) -> Seq<Seq<char>> {
    let cleaned = strip_fences_spec(raw);
    match json_object_candidate(cleaned) {
        Some(obj) => seq![cleaned, obj],
        None => seq![cleaned],
    }
}

pub fn parse_candidates(raw: &str) -> (r: Vec<String>)
    ensures
        r@.map_values(|s: String| s@) == candidates_spec(raw@),
{
    let cleaned = strip_fences(raw);
    let mut r: Vec<String> = Vec::new();
    let obj = match extract_json_object(cleaned.as_str()) {
        Some(o) => Some(String::from_str(o)),
        None => None,
    };
    r.push(cleaned);
    match obj {
        Some(o) => {
            r.push(o);
        },
        None => {},
    }
    assert(r@.map_values(|s: String| s@) =~= candidates_spec(raw@));
    r
}

/// The decision taken on one reply.
#[derive(Clone, Copy, Debug, PartialEq, Eq, Structural)]
pub enum RepairStep {
    /// The reply is valid; the turn proceeds with it.
    Accept,
    /// The reply is invalid; a corrective prompt is sent on the same handle.
    Repair,
    /// The reply is invalid and no attempt is left.
    Exhausted,
}

pub open spec fn step_spec(attempt: nat, max_retries: nat, valid: bool) -> RepairStep {
    if valid {
        RepairStep::Accept
    } else if attempt < max_retries {
        RepairStep::Repair
    } else {
        RepairStep::Exhausted
    }
}

/// The decisions taken on a run of replies, starting at `attempt`; the run stops
/// at the first decision that ends the turn, so later replies are never asked for.
pub open spec fn run_steps(attempt: nat, max_retries: nat, valids: Seq<bool>) -> Seq<RepairStep>
    decreases valids.len(),
{
    if valids.len() == 0 {
        seq![]
    } else {
        let st = step_spec(attempt, max_retries, valids[0]);
        if st == RepairStep::Repair {
            seq![st] + run_steps(attempt + 1, max_retries, valids.drop_first())
        } else {
            seq![st]
        }
    }
}

/// The state of one turn's repair loop: how many corrective prompts were sent,
/// and the conversation handle that every call of the turn goes out on.
pub struct RepairLoop {
    pub attempt: usize,
    pub max_retries: usize,
    pub thread: Option<String>,
    pub finished: bool,
}

impl RepairLoop {
    pub fn new(max_retries: usize, thread: Option<String>) -> (r: Self)
        ensures
            r.attempt == 0,
            r.max_retries == max_retries,
            r.thread == thread,
            !r.finished,
    {
        RepairLoop { attempt: 0, max_retries, thread, finished: false }
    }

    /// The handle that the next call is to be sent on.
    pub fn thread_for_call(&self) -> (r: Option<String>)
        ensures
            r == self.thread,
    {
        match &self.thread {
            Some(t) => Some(t.clone()),
            None => None,
        }
    }

    /// Takes in one reply: the handle that the agent reported with it, if any,
    /// and whether it met the output contract.
    pub fn record_reply(&mut self, reply_thread: Option<String>, valid: bool) -> (r: RepairStep)
        requires
            !old(self).finished,
            old(self).attempt <= old(self).max_retries,
        ensures
            r == step_spec(old(self).attempt as nat, old(self).max_retries as nat, valid),
            final(self).max_retries == old(self).max_retries,
            final(self).attempt == if r == RepairStep::Repair {
                old(self).attempt + 1
            } else {
                old(self).attempt as int
            },
            final(self).attempt <= final(self).max_retries,
            final(self).finished == (r != RepairStep::Repair),
            final(self).thread == (match reply_thread {
                Some(t) => Some(t),
                None => old(self).thread,
            }),
    {
        match reply_thread {
            Some(t) => {
                self.thread = Some(t);
            },
            None => {},
        }
        if valid {
            self.finished = true;
            RepairStep::Accept
        } else if self.attempt < self.max_retries {
            self.attempt = self.attempt + 1;
            RepairStep::Repair
        } else {
            self.finished = true;
            RepairStep::Exhausted
        }
    }
}

pub open spec fn invalid_run(n: nat) -> Seq<bool> {
    Seq::new(n, |i: int| false)
}

/// Given only invalid replies, a turn sends exactly `max_retries` corrective
/// prompts and then gives up: however many more invalid replies there would be,
/// none is asked for, and the turn never succeeds.
pub proof fn lemma_repair_bound(max_retries: nat, extra: nat)
    ensures
        run_steps(0, max_retries, invalid_run(max_retries + 1 + extra)) == Seq::new(
            max_retries,
            |i: int| RepairStep::Repair,
        ).push(RepairStep::Exhausted),
{
    lemma_repair_bound_from(0, max_retries, max_retries + 1 + extra);
}

proof fn lemma_repair_bound_from(attempt: nat, max_retries: nat, n: nat)
    requires
        attempt <= max_retries,
        n >= max_retries - attempt + 1,
    ensures
        run_steps(attempt, max_retries, invalid_run(n)) == Seq::new(
            (max_retries - attempt) as nat,
            |i: int| RepairStep::Repair,
        ).push(RepairStep::Exhausted),
    decreases max_retries - attempt,
{
    let v = invalid_run(n);
    assert(v[0] == false);
    if attempt < max_retries {
        assert(v.drop_first() == invalid_run((n - 1) as nat));
        lemma_repair_bound_from(attempt + 1, max_retries, (n - 1) as nat);
        let rest = Seq::new((max_retries - attempt - 1) as nat, |i: int| RepairStep::Repair);
        assert(seq![RepairStep::Repair] + rest.push(RepairStep::Exhausted) =~= Seq::new(
            (max_retries - attempt) as nat,
            |i: int| RepairStep::Repair,
        ).push(RepairStep::Exhausted));
    } else {
        assert(Seq::new(0, |i: int| RepairStep::Repair).push(RepairStep::Exhausted) =~= seq![
            RepairStep::Exhausted,
        ]);
    }
}

/// A run of replies ends with at most `max_retries` corrective prompts.
pub proof fn lemma_repairs_at_most(attempt: nat, max_retries: nat, valids: Seq<bool>)
    requires
        attempt <= max_retries,
    ensures
        run_steps(attempt, max_retries, valids).len() <= max_retries - attempt + 1,
    decreases valids.len(),
{
    if valids.len() > 0 && step_spec(attempt, max_retries, valids[0]) == RepairStep::Repair {
        lemma_repairs_at_most(attempt + 1, max_retries, valids.drop_first());
    }
}

/// The opening of a corrective prompt for an actor's turn.
pub const REPAIR_OPENING: &'static str = "Your previous turn output for actor `";

/// The shape restated to the director, which must also name the next actor.
pub const REPAIR_SHAPE_DIRECTOR: &'static str = "` was invalid for the required schema.\nReturn ONLY valid JSON with exactly this structure:\n{\n  \"public_message\": \"string\",\n  \"actions\": [\n    {\"type\":\"request_message_player\",\"target\":\"string\",\"targets\":[\"string\"],\"message\":\"string\",\"reason\":\"optional string\"}\n    or\n    {\"type\":\"note_write\",\"text\":\"string\"}\n  ],\n  \"next_actor_id\": \"dm_agent|player_ai_1|player_ai_2|player_ai_3|player_ai_4|human_player\",\n  \"note\": \"optional string\"\n}\nDo not include markdown fences.\nDo not include unsupported action types.\nPrevious invalid output was:\n";

/// The shape restated to a player.
pub const REPAIR_SHAPE_PLAYER: &'static str = "` was invalid for the required schema.\nReturn ONLY valid JSON with exactly this structure:\n{\n  \"public_message\": \"string\",\n  \"actions\": [\n    {\"type\":\"request_message_player\",\"target\":\"string\",\"targets\":[\"string\"],\"message\":\"string\",\"reason\":\"optional string\"}\n    or\n    {\"type\":\"note_write\",\"text\":\"string\"}\n  ],\n  \"note\": \"optional string\"\n}\nDo not include markdown fences.\nDo not include unsupported action types.\nPrevious invalid output was:\n";

/// How much of an invalid turn reply is quoted back.
pub const TURN_QUOTE_LIMIT: usize = 1200;

/// How much of an invalid identity reply is quoted back.
pub const IDENTITY_QUOTE_LIMIT: usize = 800;

pub open spec fn repair_prompt_spec(actor: Seq<char>, requires_next_actor: bool, bad: Seq<char>) -> Seq<char> {
    REPAIR_OPENING@ + actor + (if requires_next_actor {
        REPAIR_SHAPE_DIRECTOR@
    } else {
        REPAIR_SHAPE_PLAYER@
    }) + truncate_spec(bad, TURN_QUOTE_LIMIT as nat)
}

/// The corrective prompt for an invalid turn: it restates the exact shape and
/// quotes at most `TURN_QUOTE_LIMIT` characters of the invalid reply.
pub fn build_repair_prompt(actor_id: &str, requires_next_actor: bool, bad_output: &str) -> (r:
    String)
    ensures
        r@ == repair_prompt_spec(actor_id@, requires_next_actor, bad_output@),
{
    let mut out = String::from_str(REPAIR_OPENING);
    out.append(actor_id);
    if requires_next_actor {
        out.append(REPAIR_SHAPE_DIRECTOR);
    } else {
        out.append(REPAIR_SHAPE_PLAYER);
    }
    let quoted = truncate(bad_output, TURN_QUOTE_LIMIT);
    out.append(quoted.as_str());
    out
}

pub const PROPOSAL_REPAIR_OPENING: &'static str = "Your identity proposal for actor `";

pub const PROPOSAL_REPAIR_SHAPE: &'static str = "` was invalid.\nReturn ONLY JSON:\n{\"name\":\"string\",\"pronouns\":\"string\"}\nPrevious invalid output:\n";

pub const DECISION_REPAIR_OPENING: &'static str = "Your identity decision for actor `";

pub const DECISION_REPAIR_SHAPE: &'static str = "` was invalid.\nReturn ONLY JSON:\n{\"final_name\":\"string\",\"final_pronouns\":\"string\",\"reason\":\"optional string\"}\nPrevious invalid output:\n";

pub fn build_identity_proposal_repair_prompt(actor_id: &str, bad_output: &str) -> (r: String)
    ensures
        r@ == PROPOSAL_REPAIR_OPENING@ + actor_id@ + PROPOSAL_REPAIR_SHAPE@ + truncate_spec(
            bad_output@,
            IDENTITY_QUOTE_LIMIT as nat,
        ),
{
    let mut out = String::from_str(PROPOSAL_REPAIR_OPENING);
    out.append(actor_id);
    out.append(PROPOSAL_REPAIR_SHAPE);
    let quoted = truncate(bad_output, IDENTITY_QUOTE_LIMIT);
    out.append(quoted.as_str());
    out
}

pub fn build_identity_decision_repair_prompt(actor_id: &str, bad_output: &str) -> (r: String)
    ensures
        r@ == DECISION_REPAIR_OPENING@ + actor_id@ + DECISION_REPAIR_SHAPE@ + truncate_spec(
            bad_output@,
            IDENTITY_QUOTE_LIMIT as nat,
        ),
{
    let mut out = String::from_str(DECISION_REPAIR_OPENING);
    out.append(actor_id);
    out.append(DECISION_REPAIR_SHAPE);
    let quoted = truncate(bad_output, IDENTITY_QUOTE_LIMIT);
    out.append(quoted.as_str());
    out
}

pub const WHISPER_REPAIR_OPENING: &'static str = "Your whisper decision was invalid.\nReturn ONLY JSON:\n{\"approve\":true,\"reason\":\"optional string\"}\nPrevious invalid output:\n";

pub fn build_whisper_repair_prompt(bad_output: &str) -> (r: String)
    ensures
        r@ == WHISPER_REPAIR_OPENING@ + truncate_spec(bad_output@, TURN_QUOTE_LIMIT as nat),
{
    let mut out = String::from_str(WHISPER_REPAIR_OPENING);
    let quoted = truncate(bad_output, TURN_QUOTE_LIMIT);
    out.append(quoted.as_str());
    out
}

} // verus!
