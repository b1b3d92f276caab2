//! Whose turn it is: the scheduler's states, its transitions on the outcome of
//! each turn, the pick statistics it keeps, and the advisory hint it derives
//! from them for the director.
use vstd::prelude::*;
use crate::actors::{
    ACTOR_COUNT, DM_ACTOR, HUMAN_ACTOR, actor_at, actor_index, roster, roster_index, str_eq,
};
use crate::campaign::CampaignRuntime;
use crate::registry::{HumanIdentity, actor_label, label_spec};
use crate::text::{decimal, decimal_spec, join_strings, join_with};

verus! {

/// Per-actor counters for one running session, in roster order.
pub struct SchedulerStats {
    pub actor_turn_counts: Vec<u64>,
    pub dm_pick_counts: Vec<u64>,
    pub consecutive_dm_self_picks: u32,
}

impl SchedulerStats {
    pub open spec fn wf(&self) -> bool {
        self.actor_turn_counts@.len() == ACTOR_COUNT && self.dm_pick_counts@.len() == ACTOR_COUNT
    }

    pub open spec fn picks(&self, actor: Seq<char>) -> u64 {
        if roster_index(actor) >= 0 {
            self.dm_pick_counts@[roster_index(actor)]
        } else {
            0
        }
    }

    pub fn new() -> (r: Self)
        ensures
            r.wf(),
            r.consecutive_dm_self_picks == 0,
            forall|i: int| 0 <= i < ACTOR_COUNT ==> #[trigger] r.dm_pick_counts@[i] == 0
                && r.actor_turn_counts@[i] == 0,
    {
        let mut a: Vec<u64> = Vec::new();
        let mut b: Vec<u64> = Vec::new();
        let mut i: usize = 0;
        while i < ACTOR_COUNT
            invariant
                i <= ACTOR_COUNT,
                a@.len() == i && b@.len() == i,
                forall|k: int| 0 <= k < i ==> #[trigger] b@[k] == 0 && a@[k] == 0,
            decreases ACTOR_COUNT - i,
        {
            a.push(0);
            b.push(0);
            i = i + 1;
        }
        SchedulerStats { actor_turn_counts: a, dm_pick_counts: b, consecutive_dm_self_picks: 0 }
    }

    /// Counts one turn taken by `actor_id`.
    pub fn note_actor_turn(&mut self, actor_id: &str)
        requires
            old(self).wf(),
        ensures
            final(self).wf(),
            final(self).dm_pick_counts == old(self).dm_pick_counts,
            final(self).consecutive_dm_self_picks == old(self).consecutive_dm_self_picks,
            forall|i: int|
                0 <= i < ACTOR_COUNT ==> #[trigger] final(self).actor_turn_counts@[i] == if i
                    == roster_index(actor_id@) && old(self).actor_turn_counts@[i] < u64::MAX {
                    (old(self).actor_turn_counts@[i] + 1) as u64
                } else {
                    old(self).actor_turn_counts@[i]
                },
    {
        match actor_index(actor_id) {
            Some(i) => {
                let v = self.actor_turn_counts[i].saturating_add(1);
                self.actor_turn_counts.set(i, v);
            },
            None => {},
        }
    }

    /// Counts one pick of `actor_id` by the director, and the run of picks in a
    /// row in which the director chose itself.
    pub fn note_dm_pick(&mut self, actor_id: &str)
        requires
            old(self).wf(),
        ensures
            final(self).wf(),
            final(self).actor_turn_counts == old(self).actor_turn_counts,
            forall|i: int|
                0 <= i < ACTOR_COUNT ==> #[trigger] final(self).dm_pick_counts@[i] == if i
                    == roster_index(actor_id@) && old(self).dm_pick_counts@[i] < u64::MAX {
                    (old(self).dm_pick_counts@[i] + 1) as u64
                } else {
                    old(self).dm_pick_counts@[i]
                },
            actor_id@ == DM_ACTOR@ ==> final(self).consecutive_dm_self_picks == if old(
                self,
            ).consecutive_dm_self_picks < u32::MAX {
                (old(self).consecutive_dm_self_picks + 1) as u32
            } else {
                u32::MAX
            },
            actor_id@ != DM_ACTOR@ ==> final(self).consecutive_dm_self_picks == 0,
    {
        match actor_index(actor_id) {
            Some(i) => {
                let v = self.dm_pick_counts[i].saturating_add(1);
                self.dm_pick_counts.set(i, v);
            },
            None => {},
        }
        if str_eq(actor_id, DM_ACTOR) {
            self.consecutive_dm_self_picks = self.consecutive_dm_self_picks.saturating_add(1);
        } else {
            self.consecutive_dm_self_picks = 0;
        }
    }

    pub fn dm_pick_count(&self, actor_id: &str) -> (r: u64)
        requires
            self.wf(),
        ensures
            r == self.picks(actor_id@),
    {
        match actor_index(actor_id) {
            Some(i) => self.dm_pick_counts[i],
            None => 0,
        }
    }
}

/// Among the non-director positions `1..=i`, the first with the fewest picks.
pub open spec fn least_picked(c: Seq<u64>, i: int) -> int
    decreases i,
{
    if i <= 1 {
        1
    } else {
        let p = least_picked(c, i - 1);
        if c[i] < c[p] {
            i
        } else {
            p
        }
    }
}

/// Among the non-director positions `1..=i`, the last with the most picks.
pub open spec fn most_picked(c: Seq<u64>, i: int) -> int
    decreases i,
{
    if i <= 1 {
        1
    } else {
        let p = most_picked(c, i - 1);
        if c[i] >= c[p] {
            i
        } else {
            p
        }
    }
}

proof fn lemma_picked_bounds(c: Seq<u64>, i: int)
    requires
        1 <= i < ACTOR_COUNT,
        c.len() == ACTOR_COUNT,
    ensures
        1 <= least_picked(c, i) <= i,
        1 <= most_picked(c, i) <= i,
        forall|k: int| 1 <= k <= i ==> c[least_picked(c, i)] <= #[trigger] c[k],
        forall|k: int| 1 <= k <= i ==> #[trigger] c[k] <= c[most_picked(c, i)],
    decreases i,
{
    if i > 1 {
        lemma_picked_bounds(c, i - 1);
    }
}

/// A spotlight gap: the most-picked non-director actor leads the least-picked by
/// at least three picks.
pub struct SpotlightGap {
    pub most_actor: &'static str,
    pub most_count: u64,
    pub least_actor: &'static str,
    pub least_count: u64,
}

pub const SPOTLIGHT_GAP: u64 = 3;

pub const SELF_PICK_STREAK: u32 = 3;

pub open spec fn gap_spec(stats: SchedulerStats) -> bool {
    let c = stats.dm_pick_counts@;
    c[most_picked(c, 5)] - c[least_picked(c, 5)] >= SPOTLIGHT_GAP
}

pub fn spotlight_gap(stats: &SchedulerStats) -> (r: Option<SpotlightGap>)
    requires
        stats.wf(),
    ensures
        r is Some <==> gap_spec(*stats),
        r is Some ==> ({
            let c = stats.dm_pick_counts@;
            let g = r->0;
            &&& g.most_actor@ == roster()[most_picked(c, 5)]
            &&& g.most_count == c[most_picked(c, 5)]
            &&& g.least_actor@ == roster()[least_picked(c, 5)]
            &&& g.least_count == c[least_picked(c, 5)]
        }),
{
    let c = &stats.dm_pick_counts;
    let mut least: usize = 1;
    let mut most: usize = 1;
    let mut i: usize = 2;
    while i < ACTOR_COUNT
        invariant
            2 <= i <= ACTOR_COUNT,
            c@.len() == ACTOR_COUNT,
            least as int == least_picked(c@, i - 1),
            most as int == most_picked(c@, i - 1),
        decreases ACTOR_COUNT - i,
    {
        proof {
            lemma_picked_bounds(c@, i - 1);
        }
        if c[i] < c[least] {
            least = i;
        }
        if c[i] >= c[most] {
            most = i;
        }
        i = i + 1;
    }
    proof {
        lemma_picked_bounds(c@, 5);
    }
    if c[most] - c[least] >= SPOTLIGHT_GAP {
        Some(
            SpotlightGap {
                most_actor: actor_at(most),
                most_count: c[most],
                least_actor: actor_at(least),
                least_count: c[least],
            },
        )
    } else {
        None
    }
}

pub const HINT_ADVISORY: &'static str = "- Turn selection is your call; this guidance is advisory only.";

pub const HINT_PREFER_LESS_USED: &'static str = "- Prefer less-used actors when one actor has dominated spotlight, unless the scene needs otherwise.";

/// The advisory lines for the director, in order: two fixed lines, a spotlight
/// gap line when there is a gap, a streak line when the director chose itself at
/// least three times in a row, and the pick counts.
pub open spec fn hint_lines_spec(c: CampaignRuntime, stats: SchedulerStats) -> Seq<Seq<char>> {
    let p = stats.dm_pick_counts@;
    let most = most_picked(p, 5);
    let least = least_picked(p, 5);
    let gap: Seq<Seq<char>> = if gap_spec(stats) {
        seq![
            "- Spotlight gap detected: "@ + label_spec(c, roster()[most]) + " has "@ + decimal_spec(
                p[most] as nat,
            ) + " picks, "@ + label_spec(c, roster()[least]) + " has "@ + decimal_spec(
                p[least] as nat,
            ) + " picks."@,
        ]
    } else {
        seq![]
    };
    let streak: Seq<Seq<char>> = if stats.consecutive_dm_self_picks >= SELF_PICK_STREAK {
        seq![
            "- DM self-pick streak is "@ + decimal_spec(stats.consecutive_dm_self_picks as nat)
                + ". Consider handing the spotlight to another actor if possible."@,
        ]
    } else {
        seq![]
    };
    seq![HINT_ADVISORY@, HINT_PREFER_LESS_USED@] + gap + streak + seq![
        "- Current DM pick counts this run: player5="@ + decimal_spec(p[5] as nat) + ", p1="@
            + decimal_spec(p[1] as nat) + ", p2="@ + decimal_spec(p[2] as nat) + ", p3="@
            + decimal_spec(p[3] as nat) + ", p4="@ + decimal_spec(p[4] as nat) + ", dm_self="@
            + decimal_spec(p[0] as nat) + "."@,
    ]
}

/// The advisory text appended to the director's prompt. It never constrains the
/// director's choice.
pub fn build_dm_scheduler_hint(
    campaign: &CampaignRuntime,
    human: &HumanIdentity,
    stats: &SchedulerStats,
) -> (r: String)
    requires
        campaign.wf(),
        stats.wf(),
    ensures
        r@ == join_with(hint_lines_spec(*campaign, *stats), "\n"@),
{
    let mut lines: Vec<String> = Vec::new();
    lines.push(String::from_str(HINT_ADVISORY));
    lines.push(String::from_str(HINT_PREFER_LESS_USED));
    let ghost base = lines@.map_values(|s: String| s@);
    assert(base =~= seq![HINT_ADVISORY@, HINT_PREFER_LESS_USED@]);
    let p = &stats.dm_pick_counts;
    let ghost gap_part: Seq<Seq<char>> = Seq::empty();
    match spotlight_gap(stats) {
        Some(g) => {
            let mut line = String::from_str("- Spotlight gap detected: ");
            let most_label = actor_label(campaign, g.most_actor, human);
            line.append(most_label.as_str());
            line.append(" has ");
            line.append(decimal(g.most_count).as_str());
            line.append(" picks, ");
            let least_label = actor_label(campaign, g.least_actor, human);
            line.append(least_label.as_str());
            line.append(" has ");
            line.append(decimal(g.least_count).as_str());
            line.append(" picks.");
            proof {
                gap_part = seq![line@];
            }
            lines.push(line);
        },
        None => {},
    }
    assert(lines@.map_values(|s: String| s@) =~= base + gap_part);
    let ghost streak_part: Seq<Seq<char>> = Seq::empty();
    if stats.consecutive_dm_self_picks >= SELF_PICK_STREAK {
        let mut line = String::from_str("- DM self-pick streak is ");
        line.append(decimal(stats.consecutive_dm_self_picks as u64).as_str());
        line.append(". Consider handing the spotlight to another actor if possible.");
        proof {
            streak_part = seq![line@];
        }
        lines.push(line);
    }
    assert(lines@.map_values(|s: String| s@) =~= base + gap_part + streak_part);
    let mut counts = String::from_str("- Current DM pick counts this run: player5=");
    counts.append(decimal(p[5]).as_str());
    counts.append(", p1=");
    counts.append(decimal(p[1]).as_str());
    counts.append(", p2=");
    counts.append(decimal(p[2]).as_str());
    counts.append(", p3=");
    counts.append(decimal(p[3]).as_str());
    counts.append(", p4=");
    counts.append(decimal(p[4]).as_str());
    counts.append(", dm_self=");
    counts.append(decimal(p[0]).as_str());
    counts.append(".");
    let ghost before = lines@.map_values(|s: String| s@);
    lines.push(counts);
    assert(lines@.map_values(|s: String| s@) =~= before.push(counts@));
    assert(lines@.map_values(|s: String| s@) =~= hint_lines_spec(*campaign, *stats));
    join_strings(&lines, "\n")
}


/// Whose turn it is. A player's turn carries its roster position (one to four).
#[derive(Clone, Copy, Debug, PartialEq, Eq, Structural)]
pub enum TurnState {
    Director,
    Human,
    PlayerAi(usize),
    Halted,
}

/// How a turn ended, as the loop that ran it reports it.
pub enum TurnEvent {
    /// The director's turn completed and chose the next actor.
    DirectorDone { next_actor: String },
    /// The director's turn failed; the operator chose to retry it or to halt.
    DirectorFailed { retry: bool },
    /// The human passed, spoke or whispered, or quit.
    HumanDone { quit: bool },
    /// A player's turn ended, as a normal turn or as a suppressed no-op.
    PlayerDone,
    /// A player's turn failed hard; the operator chose to go back to the
    /// director or to stop.
    PlayerFailed { continue_to_director: bool },
}

/// The state that follows the director's choice of `next`.
pub open spec fn state_for(next: Seq<char>) -> TurnState {
    let k = roster_index(next);
    if k == 5 {
        TurnState::Human
    } else if 1 <= k <= 4 {
        TurnState::PlayerAi(k as usize)
    } else {
        TurnState::Director
    }
}

/// The transition on `e` from `s`, or `None` when the event does not belong to
/// the current state.
pub open spec fn next_state_spec(s: TurnState, e: TurnEvent) -> Option<TurnState> {
    match (s, e) {
        (TurnState::Director, TurnEvent::DirectorDone { next_actor }) => Some(state_for(next_actor@)),
        (TurnState::Director, TurnEvent::DirectorFailed { retry }) => Some(
            if retry {
                TurnState::Director
            } else {
                TurnState::Halted
            },
        ),
        (TurnState::Human, TurnEvent::HumanDone { quit }) => Some(
            if quit {
                TurnState::Halted
            } else {
                TurnState::Director
            },
        ),
        (TurnState::PlayerAi(_), TurnEvent::PlayerDone) => Some(TurnState::Director),
        (TurnState::PlayerAi(_), TurnEvent::PlayerFailed { continue_to_director }) => Some(
            if continue_to_director {
                TurnState::Director
            } else {
                TurnState::Halted
            },
        ),
        _ => None,
    }
}

/// The actor that a director's completed turn names.
pub open spec fn director_choice(e: TurnEvent) -> Seq<char> {
    match e {
        TurnEvent::DirectorDone { next_actor } => next_actor@,
        _ => Seq::empty(),
    }
}

/// Whether `e` completes a director turn in state `s`.
pub open spec fn completes_round(s: TurnState, e: TurnEvent) -> bool {
    s == TurnState::Director && e is DirectorDone
}

pub open spec fn after(s: TurnState, e: TurnEvent) -> TurnState {
    match next_state_spec(s, e) {
        Some(n) => n,
        None => s,
    }
}

/// The number of director turns completed by a run of events from `s`.
pub open spec fn rounds_completed(s: TurnState, events: Seq<TurnEvent>) -> nat
    decreases events.len(),
{
    if events.len() == 0 {
        0
    } else {
        (if completes_round(s, events[0]) {
            1nat
        } else {
            0nat
        }) + rounds_completed(after(s, events[0]), events.drop_first())
    }
}

/// The round counter after a run of events from `s`, one step at a time, as
/// `Scheduler::advance` moves it (below the counter's maximum).
pub open spec fn round_after(s: TurnState, round: nat, events: Seq<TurnEvent>) -> nat
    decreases events.len(),
{
    if events.len() == 0 {
        round
    } else {
        round_after(
            after(s, events[0]),
            if completes_round(s, events[0]) {
                round + 1
            } else {
                round
            },
            events.drop_first(),
        )
    }
}

/// The state after a run of events from `s`.
pub open spec fn state_after(s: TurnState, events: Seq<TurnEvent>) -> TurnState
    decreases events.len(),
{
    if events.len() == 0 {
        s
    } else {
        state_after(after(s, events[0]), events.drop_first())
    }
}

/// A run extended by one event ends where that event takes the run's last
/// state, and its round counter moves as that single step moves it.
pub proof fn lemma_run_push(s: TurnState, round: nat, events: Seq<TurnEvent>, e: TurnEvent)
    ensures
        state_after(s, events.push(e)) == after(state_after(s, events), e),
        round_after(s, round, events.push(e)) == round_after(
            state_after(s, events),
            round_after(s, round, events),
            seq![e],
        ),
    decreases events.len(),
{
    if events.len() == 0 {
        assert(events.push(e) == seq![e]);
        assert(seq![e].drop_first() == Seq::<TurnEvent>::empty());
        assert(state_after(after(s, e), Seq::<TurnEvent>::empty()) == after(s, e));
        assert(state_after(s, seq![e]) == state_after(after(s, e), seq![e].drop_first()));
        assert(state_after(s, events) == s);
        assert(round_after(s, round, events) == round);
    } else {
        let e0 = events[0];
        let r2 = if completes_round(s, e0) {
            round + 1
        } else {
            round
        };
        assert(events.push(e).drop_first() == events.drop_first().push(e));
        assert(events.push(e)[0] == e0);
        lemma_run_push(after(s, e0), r2, events.drop_first(), e);
    }
}

pub open spec fn director_done_count(events: Seq<TurnEvent>) -> nat
    decreases events.len(),
{
    if events.len() == 0 {
        0
    } else {
        (if events[0] is DirectorDone {
            1nat
        } else {
            0nat
        }) + director_done_count(events.drop_first())
    }
}

/// The round counter grows by exactly one for each completed director turn of
/// a run and by nothing else: human turns, player turns and failed director
/// turns leave it as it was, and no run completes more director turns than it
/// reports.
pub proof fn lemma_round_advancement(s: TurnState, round: nat, events: Seq<TurnEvent>)
    ensures
        round_after(s, round, events) == round + rounds_completed(s, events),
        rounds_completed(s, events) <= director_done_count(events),
        director_done_count(events) == 0 ==> round_after(s, round, events) == round,
    decreases events.len(),
{
    if events.len() > 0 {
        let e = events[0];
        let r2 = if completes_round(s, e) {
            round + 1
        } else {
            round
        };
        lemma_round_advancement(after(s, e), r2, events.drop_first());
    }
}

/// The actor whose completed turn an event reports, if any: the director on a
/// completed director turn, the human unless it quit, a player on a finished turn.
pub open spec fn turn_taker(s: TurnState, e: TurnEvent) -> Option<Seq<char>> {
    match (s, e) {
        (TurnState::Director, TurnEvent::DirectorDone { next_actor }) => Some(DM_ACTOR@),
        (TurnState::Human, TurnEvent::HumanDone { quit }) => if quit {
            None
        } else {
            Some(HUMAN_ACTOR@)
        },
        (TurnState::PlayerAi(k), TurnEvent::PlayerDone) => if 1 <= k <= 4 {
            Some(roster()[k as int])
        } else {
            None
        },
        _ => None,
    }
}

pub open spec fn bumped(old_count: u64, hit: bool) -> u64 {
    if hit && old_count < u64::MAX {
        (old_count + 1) as u64
    } else {
        old_count
    }
}

/// The scheduler of one running session.
pub struct Scheduler {
    pub state: TurnState,
    pub stats: SchedulerStats,
}

impl Scheduler {
    pub open spec fn wf(&self) -> bool {
        self.stats.wf()
    }

    /// A fresh session starts with the director's turn.
    pub fn new() -> (r: Self)
        ensures
            r.wf(),
            r.state == TurnState::Director,
            r.stats.consecutive_dm_self_picks == 0,
    {
        Scheduler { state: TurnState::Director, stats: SchedulerStats::new() }
    }

    /// The actor whose turn it is; none once halted.
    pub fn current_actor(&self) -> (r: Option<&'static str>)
        ensures
            self.state == TurnState::Director ==> r == Some(DM_ACTOR),
            self.state == TurnState::Human ==> r == Some(HUMAN_ACTOR),
            self.state == TurnState::Halted ==> r is None,
            (forall|k: usize| self.state == TurnState::PlayerAi(k) ==> (if 1 <= k <= 4 {
                r is Some && r->0@ == roster()[k as int]
            } else {
                r == Some(DM_ACTOR)
            })),
    {
        match self.state {
            TurnState::Director => Some(DM_ACTOR),
            TurnState::Human => Some(HUMAN_ACTOR),
            TurnState::PlayerAi(k) => if 1 <= k && k <= 4 {
                Some(actor_at(k))
            } else {
                Some(DM_ACTOR)
            },
            TurnState::Halted => None,
        }
    }

    /// Moves to the next state on the outcome of the current turn. A completed
    /// director turn counts one round and one pick of the chosen actor; no other
    /// event touches the round counter. An event that does not belong to the
    /// current state changes nothing and is reported as not taken.
    pub fn advance(&mut self, campaign: &mut CampaignRuntime, event: TurnEvent) -> (taken: bool)
        requires
            old(self).wf(),
        ensures
            final(self).wf(),
            taken == next_state_spec(old(self).state, event) is Some,
            final(self).state == after(old(self).state, event),
            completes_round(old(self).state, event) && old(campaign).state.round_index < u64::MAX
                ==> final(campaign).state.round_index == old(campaign).state.round_index + 1,
            old(campaign).state.round_index < u64::MAX ==> final(campaign).state.round_index
                == round_after(old(self).state, old(campaign).state.round_index as nat, seq![event]),
            !completes_round(old(self).state, event) ==> *final(campaign) == *old(campaign),
            !completes_round(old(self).state, event) ==> final(self).stats.dm_pick_counts == old(
                self,
            ).stats.dm_pick_counts,
            forall|i: int|
                0 <= i < ACTOR_COUNT ==> #[trigger] final(self).stats.actor_turn_counts@[i] == bumped(
                    old(self).stats.actor_turn_counts@[i],
                    turn_taker(old(self).state, event) == Some(roster()[i]),
                ),
            forall|i: int|
                0 <= i < ACTOR_COUNT ==> #[trigger] final(self).stats.dm_pick_counts@[i] == bumped(
                    old(self).stats.dm_pick_counts@[i],
                    completes_round(old(self).state, event) && roster_index(
                        director_choice(event),
                    ) == i,
                ),
            completes_round(old(self).state, event) ==> {
                &&& final(campaign).events == old(campaign).events
                &&& final(campaign).notes == old(campaign).notes
                &&& final(campaign).sessions == old(campaign).sessions
                &&& final(campaign).identities == old(campaign).identities
                &&& final(campaign).state.mode == old(campaign).state.mode
            },
    {
        proof {
            crate::actors::lemma_roster_index();
            let r0 = campaign.state.round_index as nat;
            let r1 = if completes_round(self.state, event) {
                r0 + 1
            } else {
                r0
            };
            assert(seq![event].drop_first() == Seq::<TurnEvent>::empty());
            assert(round_after(after(self.state, event), r1, Seq::<TurnEvent>::empty()) == r1);
            assert(round_after(self.state, r0, seq![event]) == r1);
        }
        match (self.state, event) {
            (TurnState::Director, TurnEvent::DirectorDone { next_actor }) => {
                campaign.bump_round();
                self.stats.note_actor_turn(DM_ACTOR);
                self.stats.note_dm_pick(next_actor.as_str());
                self.state = match actor_index(next_actor.as_str()) {
                    Some(k) => if k == 5 {
                        TurnState::Human
                    } else if 1 <= k && k <= 4 {
                        TurnState::PlayerAi(k)
                    } else {
                        TurnState::Director
                    },
                    None => TurnState::Director,
                };
                true
            },
            (TurnState::Director, TurnEvent::DirectorFailed { retry }) => {
                self.state = if retry {
                    TurnState::Director
                } else {
                    TurnState::Halted
                };
                true
            },
            (TurnState::Human, TurnEvent::HumanDone { quit }) => {
                if quit {
                    self.state = TurnState::Halted;
                } else {
                    self.stats.note_actor_turn(HUMAN_ACTOR);
                    self.state = TurnState::Director;
                }
                true
            },
            (TurnState::PlayerAi(k), TurnEvent::PlayerDone) => {
                if 1 <= k && k <= 4 {
                    self.stats.note_actor_turn(actor_at(k));
                }
                self.state = TurnState::Director;
                true
            },
            (TurnState::PlayerAi(_), TurnEvent::PlayerFailed { continue_to_director }) => {
                self.state = if continue_to_director {
                    TurnState::Director
                } else {
                    TurnState::Halted
                };
                true
            },
            _ => false,
        }
    }
}

} // verus!
