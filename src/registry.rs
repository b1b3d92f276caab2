//! Actor names: the human's identity, labels for display, and the resolution
//! of free-form text to a canonical actor.
use vstd::prelude::*;
use crate::actors::{
    ACTOR_COUNT, DM_ACTOR, HUMAN_ACTOR, actor_at, public_actor_token,
    public_token_spec, roster, str_eq,
};
use crate::campaign::CampaignRuntime;
use crate::text::{
    alias_key, ascii_lower_chars, ascii_lower_spec, chars_of, first_word, first_word_chars,
    join_strings, join_with, make_prompt_tag, normalize_alias, prompt_tag_spec, remove_spaces,
    string_of, trim_chars, trim_spec, without_spaces,
};

verus! {

/// The human participant's chosen name and pronouns, with the tag of its input prompt.
pub struct HumanIdentity {
    pub name: String,
    pub pronouns: String,
    pub prompt_tag: String,
}

impl HumanIdentity {
    pub fn new(name: String, pronouns: String) -> (r: Self)
        ensures
            r.name == name,
            r.pronouns == pronouns,
            r.prompt_tag@ == prompt_tag_spec(name@),
    {
        let prompt_tag = make_prompt_tag(name.as_str());
        HumanIdentity { name, pronouns, prompt_tag }
    }
}

/// The roster position that a well-known short alias stands for, or -1.
pub open spec fn canonical_alias(key: Seq<char>) -> int {
    if key == "dm"@ || key == "dungeonmaster"@ || key == "dm_agent"@ {
        0
    } else if key == "player5"@ || key == "p5"@ || key == "human"@ || key == "human_player"@ {
        5
    } else if key == "player_ai_1"@ || key == "player1"@ || key == "p1"@ || key == "ai1"@ {
        1
    } else if key == "player_ai_2"@ || key == "player2"@ || key == "p2"@ || key == "ai2"@ {
        2
    } else if key == "player_ai_3"@ || key == "player3"@ || key == "p3"@ || key == "ai3"@ {
        3
    } else if key == "player_ai_4"@ || key == "player4"@ || key == "p4"@ || key == "ai4"@ {
        4
    } else {
        -1
    }
}

pub open spec fn first_word_or_empty(s: Seq<char>) -> Seq<char> {
    match first_word(s) {
        Some(w) => w,
        None => Seq::empty(),
    }
}

/// The forms under which a display name is recognised: lower-cased whole, without
/// spaces, and its first word.
pub open spec fn name_aliases(name: Seq<char>) -> Seq<Seq<char>> {
    let base = ascii_lower_spec(name);
    seq![base, without_spaces(base), first_word_or_empty(base)]
}

/// The forms under which the human is recognised: those of its trimmed display
/// name, and its prompt tag.
pub open spec fn human_alias_list(display: Seq<char>, tag: Seq<char>) -> Seq<Seq<char>> {
    let base = ascii_lower_spec(trim_spec(display));
    seq![base, without_spaces(base), first_word_or_empty(base), ascii_lower_spec(tag)]
}

/// The first roster position at or after `i` whose identifier or display name
/// matches `key`, or `ACTOR_COUNT`.
pub open spec fn first_name_match(c: CampaignRuntime, key: Seq<char>, i: int) -> int
    decreases ACTOR_COUNT - i,
{
    if i < 0 || i >= ACTOR_COUNT {
        ACTOR_COUNT as int
    } else if key == roster()[i] || name_aliases(c.display_name_spec(roster()[i])).contains(key) {
        i
    } else {
        first_name_match(c, key, i + 1)
    }
}

/// The roster position that `input` resolves to, or -1: a well-known alias first,
/// then the human's names, then each actor's identifier and display name in turn.
pub open spec fn resolve_spec(input: Seq<char>, c: CampaignRuntime, human: HumanIdentity) -> int {
    let key = alias_key(input);
    if canonical_alias(key) >= 0 {
        canonical_alias(key)
    } else if human_alias_list(c.display_name_spec(HUMAN_ACTOR@), human.prompt_tag@).contains(key) {
        5
    } else if first_name_match(c, key, 0) < ACTOR_COUNT {
        first_name_match(c, key, 0)
    } else {
        -1
    }
}

fn canonical_alias_index(key: &str) -> (r: i32)
    ensures
        r == canonical_alias(key@),
{
    if str_eq(key, "dm") || str_eq(key, "dungeonmaster") || str_eq(key, "dm_agent") {
        0
    } else if str_eq(key, "player5") || str_eq(key, "p5") || str_eq(key, "human") || str_eq(
        key,
        "human_player",
    ) {
        5
    } else if str_eq(key, "player_ai_1") || str_eq(key, "player1") || str_eq(key, "p1") || str_eq(
        key,
        "ai1",
    ) {
        1
    } else if str_eq(key, "player_ai_2") || str_eq(key, "player2") || str_eq(key, "p2") || str_eq(
        key,
        "ai2",
    ) {
        2
    } else if str_eq(key, "player_ai_3") || str_eq(key, "player3") || str_eq(key, "p3") || str_eq(
        key,
        "ai3",
    ) {
        3
    } else if str_eq(key, "player_ai_4") || str_eq(key, "player4") || str_eq(key, "p4") || str_eq(
        key,
        "ai4",
    ) {
        4
    } else {
        -1
    }
}

fn contains_str(list: &Vec<String>, key: &str) -> (r: bool)
    ensures
        r == list@.map_values(|s: String| s@).contains(key@),
{
    let ghost ls = list@.map_values(|s: String| s@);
    let mut i: usize = 0;
    while i < list.len()
        invariant
            i <= list@.len(),
            ls == list@.map_values(|s: String| s@),
            forall|k: int| 0 <= k < i ==> ls[k] != key@,
        decreases list@.len() - i,
    {
        if str_eq(list[i].as_str(), key) {
            assert(ls[i as int] == key@);
            return true;
        }
        i = i + 1;
    }
    false
}

fn word_or_empty(v: &Vec<char>) -> (r: String)
    ensures
        r@ == first_word_or_empty(v@),
{
    match first_word_chars(v) {
        Some(w) => string_of(&w),
        None => String::new(),
    }
}

/// The lower-cased display name of an actor, without spaces, and its first word.
pub fn actor_identity_aliases(campaign: &CampaignRuntime, actor_id: &str) -> (r: Vec<String>)
    requires
        campaign.wf(),
    ensures
        r@.map_values(|s: String| s@) == name_aliases(campaign.display_name_spec(actor_id@)),
{
    let name = campaign.actor_display_name(actor_id);
    let base = ascii_lower_chars(&chars_of(name.as_str()));
    let compact = remove_spaces(&base);
    let mut r: Vec<String> = Vec::new();
    r.push(string_of(&base));
    r.push(string_of(&compact));
    r.push(word_or_empty(&base));
    assert(r@.map_values(|s: String| s@) =~= name_aliases(campaign.display_name_spec(actor_id@)));
    r
}

/// The names under which the human is recognised.
pub fn human_aliases(campaign: &CampaignRuntime, human: &HumanIdentity) -> (r: Vec<String>)
    requires
        campaign.wf(),
    ensures
        r@.map_values(|s: String| s@) == human_alias_list(
            campaign.display_name_spec(HUMAN_ACTOR@),
            human.prompt_tag@,
        ),
{
    let name = campaign.actor_display_name(HUMAN_ACTOR);
    let base = ascii_lower_chars(&trim_chars(&chars_of(name.as_str())));
    let compact = remove_spaces(&base);
    let mut r: Vec<String> = Vec::new();
    r.push(string_of(&base));
    r.push(string_of(&compact));
    r.push(word_or_empty(&base));
    r.push(string_of(&ascii_lower_chars(&chars_of(human.prompt_tag.as_str()))));
    assert(r@.map_values(|s: String| s@) =~= human_alias_list(
        campaign.display_name_spec(HUMAN_ACTOR@),
        human.prompt_tag@,
    ));
    r
}

/// The canonical actor that `input` names, if any.
pub fn resolve_actor_id(input: &str, campaign: &CampaignRuntime, human: &HumanIdentity) -> (r:
    Option<&'static str>)
    requires
        campaign.wf(),
    ensures
        r is None <==> resolve_spec(input@, *campaign, *human) < 0,
        r is Some ==> 0 <= resolve_spec(input@, *campaign, *human) < ACTOR_COUNT && r->0@
            == roster()[resolve_spec(input@, *campaign, *human)],
{
    let key = normalize_alias(input);
    let c = canonical_alias_index(key.as_str());
    if c >= 0 {
        return Some(actor_at(c as usize));
    }
    let humans = human_aliases(campaign, human);
    if contains_str(&humans, key.as_str()) {
        return Some(HUMAN_ACTOR);
    }
    let mut i: usize = 0;
    while i < ACTOR_COUNT
        invariant
            campaign.wf(),
            i <= ACTOR_COUNT,
            key@ == alias_key(input@),
            canonical_alias(key@) < 0,
            !human_alias_list(campaign.display_name_spec(HUMAN_ACTOR@), human.prompt_tag@).contains(
                key@,
            ),
            first_name_match(*campaign, key@, 0) == first_name_match(*campaign, key@, i as int),
        decreases ACTOR_COUNT - i,
    {
        let actor = actor_at(i);
        if str_eq(key.as_str(), actor) {
            return Some(actor);
        }
        let aliases = actor_identity_aliases(campaign, actor);
        if contains_str(&aliases, key.as_str()) {
            return Some(actor);
        }
        i = i + 1;
    }
    None
}

/// How an actor is named to readers: `DM`, `System`, or its display name.
pub open spec fn label_spec(c: CampaignRuntime, actor: Seq<char>) -> Seq<char> {
    if actor == DM_ACTOR@ {
        "DM"@
    } else if actor == "system"@ {
        "System"@
    } else {
        c.display_name_spec(actor)
    }
}

pub fn actor_label(campaign: &CampaignRuntime, actor_id: &str, _human: &HumanIdentity) -> (r:
    String)
    requires
        campaign.wf(),
    ensures
        r@ == label_spec(*campaign, actor_id@),
{
    if str_eq(actor_id, DM_ACTOR) {
        String::from_str("DM")
    } else if str_eq(actor_id, "system") {
        String::from_str("System")
    } else {
        campaign.actor_display_name(actor_id)
    }
}

/// One entry of the whisper target list: the actor's short token and its label.
pub open spec fn target_entry(c: CampaignRuntime, actor: Seq<char>) -> Seq<char> {
    public_token_spec(actor) + " ("@ + label_spec(c, actor) + ")"@
}

/// The entries of the roster positions from `i` on, skipping `exclude`.
pub open spec fn target_entries(c: CampaignRuntime, exclude: Seq<char>, n: int) -> Seq<Seq<char>>
    decreases n,
{
    if n <= 0 {
        seq![]
    } else if roster()[n - 1] == exclude {
        target_entries(c, exclude, n - 1)
    } else {
        target_entries(c, exclude, n - 1).push(target_entry(c, roster()[n - 1]))
    }
}

/// Every actor but `exclude_actor`, as `token (label)`, separated by commas.
pub fn valid_targets_csv(campaign: &CampaignRuntime, exclude_actor: &str, human: &HumanIdentity) -> (r:
    String)
    requires
        campaign.wf(),
    ensures
        r@ == join_with(target_entries(*campaign, exclude_actor@, ACTOR_COUNT as int), ", "@),
{
    let mut parts: Vec<String> = Vec::new();
    let mut i: usize = 0;
    while i < ACTOR_COUNT
        invariant
            campaign.wf(),
            i <= ACTOR_COUNT,
            parts@.map_values(|s: String| s@) == target_entries(*campaign, exclude_actor@, i as int),
        decreases ACTOR_COUNT - i,
    {
        let actor = actor_at(i);
        if !str_eq(actor, exclude_actor) {
            let mut entry = String::from_str(public_actor_token(actor));
            entry.append(" (");
            let label = actor_label(campaign, actor, human);
            entry.append(label.as_str());
            entry.append(")");
            let ghost before = parts@;
            parts.push(entry);
            assert(parts@.map_values(|s: String| s@) =~= before.map_values(|s: String| s@).push(
                entry@,
            ));
        }
        i = i + 1;
    }
    join_strings(&parts, ", ")
}

/// The labels of `targets` in brackets, separated by commas.
pub fn format_target_plain(campaign: &CampaignRuntime, targets: &Vec<String>, human: &HumanIdentity) -> (r:
    String)
    requires
        campaign.wf(),
    ensures
        r@ == "["@ + join_with(
            targets@.map_values(|t: String| label_spec(*campaign, t@)),
            ", "@,
        ) + "]"@,
{
    let mut labels: Vec<String> = Vec::new();
    let mut i: usize = 0;
    while i < targets.len()
        invariant
            campaign.wf(),
            i <= targets@.len(),
            labels@.map_values(|s: String| s@) == targets@.take(i as int).map_values(
                |t: String| label_spec(*campaign, t@),
            ),
        decreases targets@.len() - i,
    {
        let label = actor_label(campaign, targets[i].as_str(), human);
        let ghost before = labels@;
        labels.push(label);
        assert(targets@.take(i + 1) == targets@.take(i as int).push(targets@[i as int]));
        assert(labels@.map_values(|s: String| s@) =~= before.map_values(|s: String| s@).push(
            label@,
        ));
        assert(targets@.take(i + 1).map_values(|t: String| label_spec(*campaign, t@))
            =~= targets@.take(i as int).map_values(|t: String| label_spec(*campaign, t@)).push(
            label_spec(*campaign, targets@[i as int]@),
        ));
        i = i + 1;
    }
    assert(targets@.take(targets@.len() as int) == targets@);
    let mut out = String::from_str("[");
    let joined = join_strings(&labels, ", ");
    out.append(joined.as_str());
    out.append("]");
    out
}

} // verus!
