//! The fixed roster of actors and their canonical identifiers.
use vstd::prelude::*;

verus! {

pub const DM_ACTOR: &'static str = "dm_agent";

pub const HUMAN_ACTOR: &'static str = "human_player";

pub const PLAYER_AI_1: &'static str = "player_ai_1";

pub const PLAYER_AI_2: &'static str = "player_ai_2";

pub const PLAYER_AI_3: &'static str = "player_ai_3";

pub const PLAYER_AI_4: &'static str = "player_ai_4";

/// Number of actors in a session: the director, four AI players and the human.
pub const ACTOR_COUNT: usize = 6;

/// The roster in its canonical order: director, AI players one to four, human.
pub open spec fn roster() -> Seq<Seq<char>> {
    seq![DM_ACTOR@, PLAYER_AI_1@, PLAYER_AI_2@, PLAYER_AI_3@, PLAYER_AI_4@, HUMAN_ACTOR@]
}

/// The position of `s` in the roster, or -1 when it names no actor.
pub open spec fn roster_index(s: Seq<char>) -> int {
    if s == DM_ACTOR@ {
        0
    } else if s == PLAYER_AI_1@ {
        1
    } else if s == PLAYER_AI_2@ {
        2
    } else if s == PLAYER_AI_3@ {
        3
    } else if s == PLAYER_AI_4@ {
        4
    } else if s == HUMAN_ACTOR@ {
        5
    } else {
        -1
    }
}

pub open spec fn is_actor_id(s: Seq<char>) -> bool {
    roster().contains(s)
}

pub open spec fn is_player_ai(s: Seq<char>) -> bool {
    s == PLAYER_AI_1@ || s == PLAYER_AI_2@ || s == PLAYER_AI_3@ || s == PLAYER_AI_4@
}

/// The identifiers of the roster are pairwise distinct.
pub proof fn lemma_roster_distinct()
    ensures
        roster().len() == ACTOR_COUNT,
        forall|i: int, j: int|
            0 <= i < ACTOR_COUNT && 0 <= j < ACTOR_COUNT && i != j ==> roster()[i] != roster()[j],
{
    reveal_strlit("dm_agent");
    reveal_strlit("human_player");
    reveal_strlit("player_ai_1");
    reveal_strlit("player_ai_2");
    reveal_strlit("player_ai_3");
    reveal_strlit("player_ai_4");
    assert(DM_ACTOR@.len() != PLAYER_AI_1@.len());
    assert(HUMAN_ACTOR@.len() != PLAYER_AI_1@.len());
    assert(PLAYER_AI_1@[10] != PLAYER_AI_2@[10]);
    assert(PLAYER_AI_1@[10] != PLAYER_AI_3@[10]);
    assert(PLAYER_AI_1@[10] != PLAYER_AI_4@[10]);
    assert(PLAYER_AI_2@[10] != PLAYER_AI_3@[10]);
    assert(PLAYER_AI_2@[10] != PLAYER_AI_4@[10]);
    assert(PLAYER_AI_3@[10] != PLAYER_AI_4@[10]);
    assert(DM_ACTOR@.len() != HUMAN_ACTOR@.len());
    assert(DM_ACTOR@.len() != PLAYER_AI_2@.len());
}

/// The roster position of each identifier is where it stands in the roster.
pub proof fn lemma_roster_index()
    ensures
        forall|i: int| 0 <= i < ACTOR_COUNT ==> #[trigger] roster_index(roster()[i]) == i,
        forall|s: Seq<char>| #[trigger] roster_index(s) >= 0 ==> roster()[roster_index(s)] == s,
{
    lemma_roster_distinct();
}

/// Exact equality of two strings, character by character.
pub fn str_eq(a: &str, b: &str) -> (r: bool)
    ensures
        r == (a@ == b@),
{
    let n = a.unicode_len();
    if n != b.unicode_len() {
        return false;
    }
    let mut i: usize = 0;
    while i < n
        invariant
            n == a@.len(),
            n == b@.len(),
            i <= n,
            a@.subrange(0, i as int) == b@.subrange(0, i as int),
        decreases n - i,
    {
        if a.get_char(i) != b.get_char(i) {
            return false;
        }
        assert(a@.subrange(0, i + 1) == a@.subrange(0, i as int).push(a@[i as int]));
        assert(b@.subrange(0, i + 1) == b@.subrange(0, i as int).push(b@[i as int]));
        i = i + 1;
    }
    assert(a@ == a@.subrange(0, n as int));
    assert(b@ == b@.subrange(0, n as int));
    true
}

/// The identifier of the roster entry at `i`.
pub fn actor_at(i: usize) -> (r: &'static str)
    requires
        i < ACTOR_COUNT,
    ensures
        r@ == roster()[i as int],
{
    if i == 0 {
        DM_ACTOR
    } else if i == 1 {
        PLAYER_AI_1
    } else if i == 2 {
        PLAYER_AI_2
    } else if i == 3 {
        PLAYER_AI_3
    } else if i == 4 {
        PLAYER_AI_4
    } else {
        HUMAN_ACTOR
    }
}

/// Every actor identifier in roster order.
pub fn all_actor_ids() -> (r: Vec<&'static str>)
    ensures
        r@.len() == ACTOR_COUNT,
        forall|i: int| 0 <= i < ACTOR_COUNT ==> #[trigger] r@[i]@ == roster()[i],
{
    let mut ids: Vec<&'static str> = Vec::new();
    let mut i: usize = 0;
    while i < ACTOR_COUNT
        invariant
            i <= ACTOR_COUNT,
            ids@.len() == i,
            forall|k: int| 0 <= k < i ==> #[trigger] ids@[k]@ == roster()[k],
        decreases ACTOR_COUNT - i,
    {
        ids.push(actor_at(i));
        i = i + 1;
    }
    ids
}

/// The position of `id` in the roster, if it is an actor identifier.
pub fn actor_index(id: &str) -> (r: Option<usize>)
    ensures
        r is Some ==> r->0 < ACTOR_COUNT && roster()[r->0 as int] == id@,
        r is None ==> !is_actor_id(id@),
        r is Some <==> roster_index(id@) >= 0,
        r is Some ==> r->0 == roster_index(id@),
{
    proof {
        lemma_roster_distinct();
    }
    let mut i: usize = 0;
    while i < ACTOR_COUNT
        invariant
            i <= ACTOR_COUNT,
            forall|k: int| 0 <= k < i ==> roster()[k] != id@,
        decreases ACTOR_COUNT - i,
    {
        if str_eq(actor_at(i), id) {
            return Some(i);
        }
        i = i + 1;
    }
    assert(roster_index(id@) == -1) by {
        assert(roster()[0] != id@ && roster()[1] != id@ && roster()[2] != id@);
        assert(roster()[3] != id@ && roster()[4] != id@ && roster()[5] != id@);
    }
    assert(!is_actor_id(id@)) by {
        if roster().contains(id@) {
            let k = choose|k: int| 0 <= k < roster().len() && roster()[k] == id@;
            assert(roster()[k] != id@);
        }
    }
    None
}

pub fn is_player_ai_id(id: &str) -> (r: bool)
    ensures
        r == is_player_ai(id@),
{
    str_eq(id, PLAYER_AI_1) || str_eq(id, PLAYER_AI_2) || str_eq(id, PLAYER_AI_3) || str_eq(
        id,
        PLAYER_AI_4,
    )
}

/// The short token that addresses an actor in prompts and commands.
pub open spec fn public_token_spec(id: Seq<char>) -> Seq<char> {
    if id == DM_ACTOR@ {
        "dm"@
    } else if id == PLAYER_AI_1@ {
        "player1"@
    } else if id == PLAYER_AI_2@ {
        "player2"@
    } else if id == PLAYER_AI_3@ {
        "player3"@
    } else if id == PLAYER_AI_4@ {
        "player4"@
    } else if id == HUMAN_ACTOR@ {
        "player5"@
    } else {
        "player"@
    }
}

pub fn public_actor_token(actor_id: &str) -> (r: &'static str)
    ensures
        r@ == public_token_spec(actor_id@),
{
    if str_eq(actor_id, DM_ACTOR) {
        "dm"
    } else if str_eq(actor_id, PLAYER_AI_1) {
        "player1"
    } else if str_eq(actor_id, PLAYER_AI_2) {
        "player2"
    } else if str_eq(actor_id, PLAYER_AI_3) {
        "player3"
    } else if str_eq(actor_id, PLAYER_AI_4) {
        "player4"
    } else if str_eq(actor_id, HUMAN_ACTOR) {
        "player5"
    } else {
        "player"
    }
}

} // verus!
