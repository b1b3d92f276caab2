//! The in-memory state of one campaign: its round counter, the agent session
//! and identity of each actor, private notes, character sheets and the
//! transcript. Every mutation is reported so that the caller can persist it.
use vstd::prelude::*;
use crate::actors::{
    ACTOR_COUNT, DM_ACTOR, HUMAN_ACTOR, PLAYER_AI_1, PLAYER_AI_2, PLAYER_AI_3, PLAYER_AI_4,
    actor_at, actor_index, roster, roster_index, str_eq,
};
use crate::config::{join_path, join_spec};
use crate::transcript::{recent_events, recent_spec, visible_events, visible_spec};
use crate::types::{
    ActorIdentity, ActorSession, CampaignState, CharacterSheet, IdentitiesFile, NoteEntry,
    NotesFile, RunMode, SessionsFile, TranscriptEvent, Visibility,
};

verus! {

pub const STATE_FORMAT_VERSION: u32 = 1;

/// Relies on chrono's `Utc::now` and `timestamp_millis`: the current time in
/// milliseconds since the Unix epoch. Nothing is promised of the value; chrono
/// panics only when the system clock reads earlier than the epoch.
#[verifier::external_body]
pub(crate) fn now_millis() -> (r: i64) {
    chrono::Utc::now().timestamp_millis()
}

/// Relies on uuid's `Uuid::new_v4` and its `Display`, the hyphenated lower-case
/// form of 36 characters. uuid panics only when the system's random source fails.
#[verifier::external_body]
fn new_campaign_id() -> (r: String)
    ensures
        r@.len() == 36,
{
    uuid::Uuid::new_v4().to_string()
}

#[derive(Debug, PartialEq, Eq, Structural)]
pub enum CampaignError {
    /// The identifier names no actor of the roster.
    UnknownActor,
}

/// The display name, pronouns and approval that an actor starts with.
pub open spec fn default_identity_spec(actor: Seq<char>) -> (Seq<char>, Seq<char>, bool) {
    if actor == DM_ACTOR@ {
        ("DM"@, "they/them"@, true)
    } else if actor == HUMAN_ACTOR@ {
        ("Luna"@, "she/her"@, true)
    } else if actor == PLAYER_AI_1@ {
        ("Player 1"@, "they/them"@, false)
    } else if actor == PLAYER_AI_2@ {
        ("Player 2"@, "they/them"@, false)
    } else if actor == PLAYER_AI_3@ {
        ("Player 3"@, "they/them"@, false)
    } else if actor == PLAYER_AI_4@ {
        ("Player 4"@, "they/them"@, false)
    } else {
        (actor, "they/them"@, true)
    }
}

pub open spec fn is_default_identity(r: ActorIdentity, actor: Seq<char>) -> bool {
    let (name, pronouns, approved) = default_identity_spec(actor);
    &&& r.actor_id@ == actor
    &&& r.display_name@ == name
    &&& r.pronouns@ == pronouns
    &&& r.approved_by_dm == approved
}

pub fn default_identity_for_actor(actor: &str) -> (r: ActorIdentity)
    ensures
        is_default_identity(r, actor@),
{
    let (name, pronouns, approved) = if str_eq(actor, DM_ACTOR) {
        ("DM", "they/them", true)
    } else if str_eq(actor, HUMAN_ACTOR) {
        ("Luna", "she/her", true)
    } else if str_eq(actor, PLAYER_AI_1) {
        ("Player 1", "they/them", false)
    } else if str_eq(actor, PLAYER_AI_2) {
        ("Player 2", "they/them", false)
    } else if str_eq(actor, PLAYER_AI_3) {
        ("Player 3", "they/them", false)
    } else if str_eq(actor, PLAYER_AI_4) {
        ("Player 4", "they/them", false)
    } else {
        (actor, "they/them", true)
    };
    ActorIdentity {
        actor_id: String::from_str(actor),
        display_name: String::from_str(name),
        pronouns: String::from_str(pronouns),
        approved_by_dm: approved,
        updated_at: now_millis(),
    }
}

/// The class and level that an actor's sheet starts with.
pub open spec fn default_class_spec(actor: Seq<char>) -> (Seq<char>, u8) {
    if actor == DM_ACTOR@ {
        ("npc_director"@, 20)
    } else if actor == HUMAN_ACTOR@ {
        ("fighter"@, 1)
    } else if actor == PLAYER_AI_1@ || actor == PLAYER_AI_2@ || actor == PLAYER_AI_3@ || actor
        == PLAYER_AI_4@ {
        ("adventurer"@, 1)
    } else {
        ("commoner"@, 1)
    }
}

pub open spec fn is_default_sheet(r: CharacterSheet, actor: Seq<char>) -> bool {
    let (class_name, level) = default_class_spec(actor);
    &&& r.format_version == STATE_FORMAT_VERSION
    &&& r.actor_id@ == actor
    &&& r.class_name@ == class_name
    &&& r.level == level
    &&& r.armor_class == 12 && r.max_hp == 12 && r.current_hp == 12
    &&& r.strength == 10 && r.dexterity == 10 && r.constitution == 10
    &&& r.intelligence == 10 && r.wisdom == 10 && r.charisma == 10
}

pub fn default_sheet_for_actor(actor: &str) -> (r: CharacterSheet)
    ensures
        is_default_sheet(r, actor@),
{
    let (class_name, level): (&str, u8) = if str_eq(actor, DM_ACTOR) {
        ("npc_director", 20)
    } else if str_eq(actor, HUMAN_ACTOR) {
        ("fighter", 1)
    } else if str_eq(actor, PLAYER_AI_1) || str_eq(actor, PLAYER_AI_2) || str_eq(actor, PLAYER_AI_3)
        || str_eq(actor, PLAYER_AI_4) {
        ("adventurer", 1)
    } else {
        ("commoner", 1)
    };
    CharacterSheet {
        format_version: STATE_FORMAT_VERSION,
        actor_id: String::from_str(actor),
        class_name: String::from_str(class_name),
        level,
        armor_class: 12,
        max_hp: 12,
        current_hp: 12,
        strength: 10,
        dexterity: 10,
        constitution: 10,
        intelligence: 10,
        wisdom: 10,
        charisma: 10,
    }
}

/// Two campaign records that agree on everything but the time of the last update.
pub open spec fn same_state_but_time(a: CampaignState, b: CampaignState) -> bool {
    &&& a.format_version == b.format_version
    &&& a.campaign_id == b.campaign_id
    &&& a.created_at == b.created_at
    &&& a.round_index == b.round_index
    &&& a.mode == b.mode
}

pub struct CampaignRuntime {
    pub campaign_id: String,
    pub root: String,
    pub state: CampaignState,
    pub sessions: SessionsFile,
    pub identities: IdentitiesFile,
    pub events: Vec<TranscriptEvent>,
    pub notes: Vec<NotesFile>,
    pub sheets: Vec<CharacterSheet>,
}

impl CampaignRuntime {
    /// One session, identity, notes record and sheet per actor, in roster order.
    pub open spec fn wf(&self) -> bool {
        &&& self.sessions.sessions@.len() == ACTOR_COUNT
        &&& self.identities.identities@.len() == ACTOR_COUNT
        &&& self.notes@.len() == ACTOR_COUNT
        &&& self.sheets@.len() == ACTOR_COUNT
        &&& forall|i: int|
            0 <= i < ACTOR_COUNT ==> (#[trigger] self.sessions.sessions@[i]).actor_id@ == roster()[i]
        &&& forall|i: int|
            0 <= i < ACTOR_COUNT ==> (#[trigger] self.identities.identities@[i]).actor_id@
                == roster()[i]
        &&& forall|i: int| 0 <= i < ACTOR_COUNT ==> (#[trigger] self.notes@[i]).actor_id@ == roster()[i]
        &&& forall|i: int| 0 <= i < ACTOR_COUNT ==> (#[trigger] self.sheets@[i]).actor_id@ == roster()[i]
    }

    pub open spec fn identity_spec(&self, actor: Seq<char>) -> Option<ActorIdentity> {
        if roster_index(actor) >= 0 {
            Some(self.identities.identities@[roster_index(actor)])
        } else {
            None
        }
    }

    pub open spec fn session_spec(&self, actor: Seq<char>) -> Option<ActorSession> {
        if roster_index(actor) >= 0 {
            Some(self.sessions.sessions@[roster_index(actor)])
        } else {
            None
        }
    }

    pub open spec fn notes_spec(&self, actor: Seq<char>) -> Seq<NoteEntry> {
        if roster_index(actor) >= 0 {
            self.notes@[roster_index(actor)].entries@
        } else {
            Seq::empty()
        }
    }

    /// The name under which an actor appears; its identifier when it has no identity.
    pub open spec fn display_name_spec(&self, actor: Seq<char>) -> Seq<char> {
        match self.identity_spec(actor) {
            Some(id) => id.display_name@,
            None => actor,
        }
    }

    /// A campaign that starts at round zero, every actor with its default
    /// identity and sheet, no agent sessions, no notes and an empty transcript.
    pub fn create_new(campaign_root: &str, mode: RunMode) -> (r: Self)
        ensures
            r.wf(),
            r.campaign_id@.len() == 36,
            r.root@ == join_spec(campaign_root@, r.campaign_id@),
            r.state.campaign_id@ == r.campaign_id@,
            r.state.round_index == 0,
            r.state.mode == mode,
            r.state.format_version == STATE_FORMAT_VERSION,
            r.events@.len() == 0,
            forall|i: int|
                0 <= i < ACTOR_COUNT ==> {
                    &&& (#[trigger] r.sessions.sessions@[i]).thread_id is None
                    &&& r.sessions.sessions@[i].last_message is None
                    &&& is_default_identity(r.identities.identities@[i], roster()[i])
                    &&& r.notes@[i].entries@.len() == 0
                    &&& is_default_sheet(r.sheets@[i], roster()[i])
                },
    {
        let campaign_id = new_campaign_id();
        let root = join_path(campaign_root, campaign_id.as_str());
        let now = now_millis();
        let state = CampaignState {
            format_version: STATE_FORMAT_VERSION,
            campaign_id: campaign_id.clone(),
            created_at: now,
            updated_at: now,
            round_index: 0,
            mode,
        };
        let mut sessions: Vec<ActorSession> = Vec::new();
        let mut identities: Vec<ActorIdentity> = Vec::new();
        let mut notes: Vec<NotesFile> = Vec::new();
        let mut sheets: Vec<CharacterSheet> = Vec::new();
        let mut i: usize = 0;
        while i < ACTOR_COUNT
            invariant
                i <= ACTOR_COUNT,
                sessions@.len() == i && identities@.len() == i,
                notes@.len() == i && sheets@.len() == i,
                forall|k: int|
                    0 <= k < i ==> {
                        &&& (#[trigger] sessions@[k]).actor_id@ == roster()[k]
                        &&& sessions@[k].thread_id is None
                        &&& sessions@[k].last_message is None
                        &&& is_default_identity(identities@[k], roster()[k])
                        &&& notes@[k].actor_id@ == roster()[k]
                        &&& notes@[k].entries@.len() == 0
                        &&& is_default_sheet(sheets@[k], roster()[k])
                    },
            decreases ACTOR_COUNT - i,
        {
            let actor = actor_at(i);
            sessions.push(
                ActorSession {
                    actor_id: String::from_str(actor),
                    thread_id: None,
                    last_message: None,
                    updated_at: now,
                },
            );
            identities.push(default_identity_for_actor(actor));
            notes.push(
                NotesFile {
                    format_version: STATE_FORMAT_VERSION,
                    actor_id: String::from_str(actor),
                    entries: Vec::new(),
                },
            );
            sheets.push(default_sheet_for_actor(actor));
            i = i + 1;
        }
        assert forall|k: int| 0 <= k < ACTOR_COUNT implies identities@[k].actor_id@ == roster()[k]
            && notes@[k].actor_id@ == roster()[k] && sheets@[k].actor_id@ == roster()[k] by {
            assert(sessions@[k].actor_id@ == roster()[k]);
        }
        CampaignRuntime {
            campaign_id,
            root,
            state,
            sessions: SessionsFile { format_version: STATE_FORMAT_VERSION, sessions },
            identities: IdentitiesFile { format_version: STATE_FORMAT_VERSION, identities },
            events: Vec::new(),
            notes,
            sheets,
        }
    }

    /// Appends one event to the transcript.
    pub fn append_event(&mut self, event: TranscriptEvent)
        ensures
            final(self).events@ == old(self).events@.push(event),
            same_state_but_time(final(self).state, old(self).state),
            final(self).sessions == old(self).sessions,
            final(self).identities == old(self).identities,
            final(self).notes == old(self).notes,
            final(self).sheets == old(self).sheets,
            final(self).campaign_id == old(self).campaign_id,
            final(self).root == old(self).root,
    {
        self.events.push(event);
        self.state.updated_at = now_millis();
    }

    /// At most the last `limit` transcript events, oldest first.
    pub fn read_recent_events(&self, limit: usize) -> (r: Vec<TranscriptEvent>)
        ensures
            r@ == recent_spec(self.events@, limit as nat),
    {
        recent_events(&self.events, limit)
    }

    /// The recent window of the transcript as `actor_id` sees it.
    pub fn visible_events_for_actor(&self, actor_id: &str, limit: usize) -> (r: Vec<
        TranscriptEvent,
    >)
        ensures
            r@ == visible_spec(self.events@, actor_id@, limit as nat),
    {
        visible_events(&self.events, actor_id, limit)
    }

    pub fn add_public_message(&mut self, speaker: &str, message: &str)
        ensures
            final(self).events@.len() == old(self).events@.len() + 1,
            final(self).events@.drop_last() == old(self).events@,
            final(self).events@.last().speaker@ == speaker@,
            final(self).events@.last().message@ == message@,
            final(self).events@.last().visibility is Public,
            same_state_but_time(final(self).state, old(self).state),
            final(self).sessions == old(self).sessions,
            final(self).identities == old(self).identities,
            final(self).notes == old(self).notes,
            final(self).sheets == old(self).sheets,
    {
        let event = TranscriptEvent {
            timestamp: now_millis(),
            speaker: String::from_str(speaker),
            message: String::from_str(message),
            visibility: Visibility::Public,
        };
        self.append_event(event);
    }

    /// Appends a whisper from `sender` to `target`; its speaker is the sender.
    pub fn add_whisper(&mut self, sender: &str, target: &str, message: &str)
        ensures
            final(self).events@.len() == old(self).events@.len() + 1,
            final(self).events@.drop_last() == old(self).events@,
            final(self).events@.last().speaker@ == sender@,
            final(self).events@.last().message@ == message@,
            ({
                let v = final(self).events@.last().visibility;
                &&& v is Whisper
                &&& crate::transcript::whisper_sender(v) == sender@
                &&& crate::transcript::whisper_target(v) == target@
            }),
            same_state_but_time(final(self).state, old(self).state),
            final(self).sessions == old(self).sessions,
            final(self).identities == old(self).identities,
            final(self).notes == old(self).notes,
            final(self).sheets == old(self).sheets,
    {
        let event = TranscriptEvent {
            timestamp: now_millis(),
            speaker: String::from_str(sender),
            message: String::from_str(message),
            visibility: Visibility::Whisper {
                sender: String::from_str(sender),
                target: String::from_str(target),
            },
        };
        self.append_event(event);
    }

    /// Counts one completed director turn; the counter saturates at its maximum.
    pub fn bump_round(&mut self)
        ensures
            old(self).state.round_index < u64::MAX ==> final(self).state.round_index
                == old(self).state.round_index + 1,
            old(self).state.round_index == u64::MAX ==> final(self).state.round_index == u64::MAX,
            final(self).state.mode == old(self).state.mode,
            final(self).state.campaign_id == old(self).state.campaign_id,
            final(self).state.created_at == old(self).state.created_at,
            final(self).state.format_version == old(self).state.format_version,
            final(self).events == old(self).events,
            final(self).sessions == old(self).sessions,
            final(self).identities == old(self).identities,
            final(self).notes == old(self).notes,
            final(self).sheets == old(self).sheets,
    {
        self.state.round_index = self.state.round_index.saturating_add(1);
        self.state.updated_at = now_millis();
    }

    /// The agent conversation handle recorded for `actor_id`.
    pub fn get_thread_id(&self, actor_id: &str) -> (r: Option<String>)
        requires
            self.wf(),
        ensures
            r == (match self.session_spec(actor_id@) {
                Some(s) => s.thread_id,
                None => None,
            }),
    {
        match actor_index(actor_id) {
            Some(i) => match &self.sessions.sessions[i].thread_id {
                Some(t) => Some(t.clone()),
                None => None,
            },
            None => None,
        }
    }

    /// Records the conversation handle of an actor's agent session.
    pub fn set_thread_id(&mut self, actor_id: &str, thread_id: String) -> (r: Result<(), CampaignError>)
        requires
            old(self).wf(),
        ensures
            final(self).wf(),
            r is Ok <==> roster_index(actor_id@) >= 0,
            r is Err ==> r->Err_0 == CampaignError::UnknownActor && *final(self) == *old(self),
            r is Ok ==> final(self).session_spec(actor_id@).unwrap().thread_id == Some(thread_id),
            r is Ok ==> final(self).session_spec(actor_id@).unwrap().last_message == old(self).session_spec(actor_id@).unwrap().last_message,
            forall|i: int|
                0 <= i < ACTOR_COUNT && i != roster_index(actor_id@) ==> #[trigger] final(self).sessions.sessions@[i] == old(self).sessions.sessions@[i],
            final(self).identities == old(self).identities,
            final(self).events == old(self).events,
            final(self).notes == old(self).notes,
            final(self).state == old(self).state,
    {
        match actor_index(actor_id) {
            None => Err(CampaignError::UnknownActor),
            Some(i) => {
                let last = match &self.sessions.sessions[i].last_message {
                    Some(m) => Some(m.clone()),
                    None => None,
                };
                let updated = ActorSession {
                    actor_id: self.sessions.sessions[i].actor_id.clone(),
                    thread_id: Some(thread_id),
                    last_message: last,
                    updated_at: now_millis(),
                };
                self.sessions.sessions.set(i, updated);
                Ok(())
            },
        }
    }

    /// Records the last raw reply of an actor's agent.
    pub fn set_last_message(&mut self, actor_id: &str, message: String) -> (r: Result<(), CampaignError>)
        requires
            old(self).wf(),
        ensures
            final(self).wf(),
            r is Ok <==> roster_index(actor_id@) >= 0,
            r is Err ==> r->Err_0 == CampaignError::UnknownActor && *final(self) == *old(self),
            r is Ok ==> final(self).session_spec(actor_id@).unwrap().last_message == Some(message),
            r is Ok ==> final(self).session_spec(actor_id@).unwrap().thread_id == old(self).session_spec(actor_id@).unwrap().thread_id,
            forall|i: int|
                0 <= i < ACTOR_COUNT && i != roster_index(actor_id@) ==> #[trigger] final(self).sessions.sessions@[i] == old(self).sessions.sessions@[i],
            final(self).identities == old(self).identities,
            final(self).events == old(self).events,
            final(self).notes == old(self).notes,
            final(self).state == old(self).state,
    {
        match actor_index(actor_id) {
            None => Err(CampaignError::UnknownActor),
            Some(i) => {
                let thread = match &self.sessions.sessions[i].thread_id {
                    Some(t) => Some(t.clone()),
                    None => None,
                };
                let updated = ActorSession {
                    actor_id: self.sessions.sessions[i].actor_id.clone(),
                    thread_id: thread,
                    last_message: Some(message),
                    updated_at: now_millis(),
                };
                self.sessions.sessions.set(i, updated);
                Ok(())
            },
        }
    }

    /// Appends an entry to an actor's private notes.
    pub fn append_note(&mut self, actor_id: &str, text: &str) -> (r: Result<(), CampaignError>)
        requires
            old(self).wf(),
        ensures
            final(self).wf(),
            r is Ok <==> roster_index(actor_id@) >= 0,
            r is Err ==> r->Err_0 == CampaignError::UnknownActor && *final(self) == *old(self),
            r is Ok ==> final(self).notes_spec(actor_id@).len() == old(self).notes_spec(actor_id@).len() + 1,
            r is Ok ==> final(self).notes_spec(actor_id@).drop_last() == old(self).notes_spec(actor_id@),
            r is Ok ==> final(self).notes_spec(actor_id@).last().text@ == text@,
            forall|i: int|
                0 <= i < ACTOR_COUNT && i != roster_index(actor_id@) ==> #[trigger] final(self).notes@[i] == old(self).notes@[i],
            final(self).sessions == old(self).sessions,
            final(self).identities == old(self).identities,
            final(self).events == old(self).events,
            final(self).state == old(self).state,
    {
        match actor_index(actor_id) {
            None => Err(CampaignError::UnknownActor),
            Some(i) => {
                let mut nf = self.notes.remove(i);
                nf.entries.push(NoteEntry { timestamp: now_millis(), text: String::from_str(text) });
                self.notes.insert(i, nf);
                assert(self.notes@[i as int].entries@.drop_last() == old(self).notes@[i as int].entries@);
                Ok(())
            },
        }
    }

    /// An actor's notes record.
    pub fn read_notes(&self, actor_id: &str) -> (r: Result<NotesFile, CampaignError>)
        requires
            self.wf(),
        ensures
            r is Ok <==> roster_index(actor_id@) >= 0,
            r is Ok ==> r->Ok_0.actor_id@ == actor_id@ && r->Ok_0.entries@ == self.notes_spec(
                actor_id@,
            ),
            r is Err ==> r->Err_0 == CampaignError::UnknownActor,
    {
        match actor_index(actor_id) {
            None => Err(CampaignError::UnknownActor),
            Some(i) => Ok(self.notes[i].copy()),
        }
    }

    /// At most the last `window` note entries of an actor, oldest first.
    pub fn recent_notes(&self, actor_id: &str, window: usize) -> (r: Vec<NoteEntry>)
        requires
            self.wf(),
        ensures
            r@ == (if self.notes_spec(actor_id@).len() > window {
                self.notes_spec(actor_id@).skip(self.notes_spec(actor_id@).len() - window)
            } else {
                self.notes_spec(actor_id@)
            }),
    {
        match actor_index(actor_id) {
            None => Vec::new(),
            Some(i) => {
                let entries = &self.notes[i].entries;
                let n = entries.len();
                let start: usize = if n > window {
                    n - window
                } else {
                    0
                };
                let mut r: Vec<NoteEntry> = Vec::new();
                let mut k: usize = start;
                while k < n
                    invariant
                        start <= k <= n == entries@.len(),
                        r@ == entries@.subrange(start as int, k as int),
                    decreases n - k,
                {
                    r.push(entries[k].copy());
                    assert(entries@.subrange(start as int, k + 1) == entries@.subrange(
                        start as int,
                        k as int,
                    ).push(entries@[k as int]));
                    k = k + 1;
                }
                r
            },
        }
    }

    /// An actor's character sheet.
    pub fn read_character_sheet(&self, actor_id: &str) -> (r: Result<CharacterSheet, CampaignError>)
        requires
            self.wf(),
        ensures
            r is Ok <==> roster_index(actor_id@) >= 0,
            r is Ok ==> r->Ok_0 == self.sheets@[roster_index(actor_id@)],
            r is Err ==> r->Err_0 == CampaignError::UnknownActor,
    {
        match actor_index(actor_id) {
            None => Err(CampaignError::UnknownActor),
            Some(i) => Ok(self.sheets[i].copy()),
        }
    }

    pub fn actor_identity(&self, actor_id: &str) -> (r: Option<&ActorIdentity>)
        requires
            self.wf(),
        ensures
            r is Some <==> self.identity_spec(actor_id@) is Some,
            r is Some ==> *r->0 == self.identity_spec(actor_id@).unwrap(),
    {
        match actor_index(actor_id) {
            None => None,
            Some(i) => Some(&self.identities.identities[i]),
        }
    }

    pub fn actor_display_name(&self, actor_id: &str) -> (r: String)
        requires
            self.wf(),
        ensures
            r@ == self.display_name_spec(actor_id@),
    {
        match self.actor_identity(actor_id) {
            Some(id) => id.display_name.clone(),
            None => String::from_str(actor_id),
        }
    }

    pub fn actor_pronouns(&self, actor_id: &str) -> (r: String)
        requires
            self.wf(),
        ensures
            r@ == (match self.identity_spec(actor_id@) {
                Some(id) => id.pronouns@,
                None => "they/them"@,
            }),
    {
        match self.actor_identity(actor_id) {
            Some(id) => id.pronouns.clone(),
            None => String::from_str("they/them"),
        }
    }

    pub fn identity_is_approved(&self, actor_id: &str) -> (r: bool)
        requires
            self.wf(),
        ensures
            r == (match self.identity_spec(actor_id@) {
                Some(id) => id.approved_by_dm,
                None => false,
            }),
    {
        match self.actor_identity(actor_id) {
            Some(id) => id.approved_by_dm,
            None => false,
        }
    }

    /// Overwrites an actor's identity.
    pub fn set_actor_identity(
        &mut self,
        actor_id: &str,
        display_name: String,
        pronouns: String,
        approved_by_dm: bool,
    ) -> (r: Result<(), CampaignError>)
        requires
            old(self).wf(),
        ensures
            final(self).wf(),
            r is Ok <==> roster_index(actor_id@) >= 0,
            r is Err ==> r->Err_0 == CampaignError::UnknownActor && *final(self) == *old(self),
            r is Ok ==> ({
                let id = final(self).identity_spec(actor_id@).unwrap();
                &&& id.display_name == display_name
                &&& id.pronouns == pronouns
                &&& id.approved_by_dm == approved_by_dm
            }),
            forall|i: int|
                0 <= i < ACTOR_COUNT && i != roster_index(actor_id@) ==> #[trigger] final(self).identities.identities@[i] == old(self).identities.identities@[i],
            final(self).sessions == old(self).sessions,
            final(self).events == old(self).events,
            final(self).notes == old(self).notes,
            final(self).state == old(self).state,
    {
        match actor_index(actor_id) {
            None => Err(CampaignError::UnknownActor),
            Some(i) => {
                let updated = ActorIdentity {
                    actor_id: String::from_str(actor_id),
                    display_name,
                    pronouns,
                    approved_by_dm,
                    updated_at: now_millis(),
                };
                self.identities.identities.set(i, updated);
                Ok(())
            },
        }
    }

    /// Assembles a campaign from stored records. Each actor takes the first
    /// record that names it; an actor without one gets a fresh default session,
    /// identity, empty notes or sheet. Records that name no actor are dropped.
    pub fn from_records(
        campaign_id: String,
        root: String,
        state: CampaignState,
        sessions: Vec<ActorSession>,
        identities: Vec<ActorIdentity>,
        notes: Vec<NotesFile>,
        sheets: Vec<CharacterSheet>,
        events: Vec<TranscriptEvent>,
    ) -> (r: Self)
        ensures
            r.wf(),
            r.campaign_id == campaign_id,
            r.root == root,
            r.state == state,
            r.events == events,
            forall|i: int|
                0 <= i < ACTOR_COUNT ==> {
                    let si = first_session(sessions@, roster()[i], 0);
                    let ii = first_identity(identities@, roster()[i], 0);
                    let ni = first_notes(notes@, roster()[i], 0);
                    let hi = first_sheet(sheets@, roster()[i], 0);
                    &&& si < sessions@.len() ==> #[trigger] r.sessions.sessions@[i] == sessions@[si]
                    &&& si == sessions@.len() ==> r.sessions.sessions@[i].thread_id is None
                        && r.sessions.sessions@[i].last_message is None
                    &&& ii < identities@.len() ==> r.identities.identities@[i] == identities@[ii]
                    &&& ii == identities@.len() ==> is_default_identity(
                        r.identities.identities@[i],
                        roster()[i],
                    )
                    &&& ni < notes@.len() ==> r.notes@[i].entries@ == notes@[ni].entries@
                    &&& ni == notes@.len() ==> r.notes@[i].entries@.len() == 0
                    &&& hi < sheets@.len() ==> r.sheets@[i] == sheets@[hi]
                    &&& hi == sheets@.len() ==> is_default_sheet(r.sheets@[i], roster()[i])
                },
    {
        let mut out_sessions: Vec<ActorSession> = Vec::new();
        let mut out_identities: Vec<ActorIdentity> = Vec::new();
        let mut out_notes: Vec<NotesFile> = Vec::new();
        let mut out_sheets: Vec<CharacterSheet> = Vec::new();
        let now = now_millis();
        let mut i: usize = 0;
        while i < ACTOR_COUNT
            invariant
                i <= ACTOR_COUNT,
                out_sessions@.len() == i && out_identities@.len() == i,
                out_notes@.len() == i && out_sheets@.len() == i,
                forall|k: int|
                    0 <= k < i ==> {
                        let si = first_session(sessions@, roster()[k], 0);
                        let ii = first_identity(identities@, roster()[k], 0);
                        let ni = first_notes(notes@, roster()[k], 0);
                        let hi = first_sheet(sheets@, roster()[k], 0);
                        &&& (#[trigger] out_sessions@[k]).actor_id@ == roster()[k]
                        &&& out_identities@[k].actor_id@ == roster()[k]
                        &&& out_notes@[k].actor_id@ == roster()[k]
                        &&& out_sheets@[k].actor_id@ == roster()[k]
                        &&& si < sessions@.len() ==> out_sessions@[k] == sessions@[si]
                        &&& si == sessions@.len() ==> out_sessions@[k].thread_id is None
                            && out_sessions@[k].last_message is None
                        &&& ii < identities@.len() ==> out_identities@[k] == identities@[ii]
                        &&& ii == identities@.len() ==> is_default_identity(
                            out_identities@[k],
                            roster()[k],
                        )
                        &&& ni < notes@.len() ==> out_notes@[k].entries@ == notes@[ni].entries@
                        &&& ni == notes@.len() ==> out_notes@[k].entries@.len() == 0
                        &&& hi < sheets@.len() ==> out_sheets@[k] == sheets@[hi]
                        &&& hi == sheets@.len() ==> is_default_sheet(out_sheets@[k], roster()[k])
                    },
            decreases ACTOR_COUNT - i,
        {
            let actor = actor_at(i);
            let si = find_session(&sessions, actor);
            if si < sessions.len() {
                out_sessions.push(sessions[si].copy());
            } else {
                out_sessions.push(
                    ActorSession {
                        actor_id: String::from_str(actor),
                        thread_id: None,
                        last_message: None,
                        updated_at: now,
                    },
                );
            }
            let ii = find_identity(&identities, actor);
            if ii < identities.len() {
                out_identities.push(identities[ii].copy());
            } else {
                out_identities.push(default_identity_for_actor(actor));
            }
            let ni = find_notes(&notes, actor);
            if ni < notes.len() {
                out_notes.push(notes[ni].copy());
            } else {
                out_notes.push(
                    NotesFile {
                        format_version: STATE_FORMAT_VERSION,
                        actor_id: String::from_str(actor),
                        entries: Vec::new(),
                    },
                );
            }
            let hi = find_sheet(&sheets, actor);
            if hi < sheets.len() {
                out_sheets.push(sheets[hi].copy());
            } else {
                out_sheets.push(default_sheet_for_actor(actor));
            }
            i = i + 1;
        }
        assert forall|k: int| 0 <= k < ACTOR_COUNT implies out_identities@[k].actor_id@ == roster()[k]
            && out_notes@[k].actor_id@ == roster()[k] && out_sheets@[k].actor_id@ == roster()[k] by {
            assert(out_sessions@[k].actor_id@ == roster()[k]);
        }
        CampaignRuntime {
            campaign_id,
            root,
            state,
            sessions: SessionsFile { format_version: STATE_FORMAT_VERSION, sessions: out_sessions },
            identities: IdentitiesFile {
                format_version: STATE_FORMAT_VERSION,
                identities: out_identities,
            },
            events,
            notes: out_notes,
            sheets: out_sheets,
        }
    }
}

/// The index of the first session record at or after `i` that names `a`, or the length.
pub open spec fn first_session(s: Seq<ActorSession>, a: Seq<char>, i: int) -> int
    decreases s.len() - i,
{
    if i < 0 || i >= s.len() {
        s.len() as int
    } else if s[i].actor_id@ == a {
        i
    } else {
        first_session(s, a, i + 1)
    }
}

pub open spec fn first_identity(s: Seq<ActorIdentity>, a: Seq<char>, i: int) -> int
    decreases s.len() - i,
{
    if i < 0 || i >= s.len() {
        s.len() as int
    } else if s[i].actor_id@ == a {
        i
    } else {
        first_identity(s, a, i + 1)
    }
}

pub open spec fn first_notes(s: Seq<NotesFile>, a: Seq<char>, i: int) -> int
    decreases s.len() - i,
{
    if i < 0 || i >= s.len() {
        s.len() as int
    } else if s[i].actor_id@ == a {
        i
    } else {
        first_notes(s, a, i + 1)
    }
}

pub open spec fn first_sheet(s: Seq<CharacterSheet>, a: Seq<char>, i: int) -> int
    decreases s.len() - i,
{
    if i < 0 || i >= s.len() {
        s.len() as int
    } else if s[i].actor_id@ == a {
        i
    } else {
        first_sheet(s, a, i + 1)
    }
}

proof fn lemma_first_session(s: Seq<ActorSession>, a: Seq<char>, i: int)
    requires
        0 <= i <= s.len(),
    ensures
        i <= first_session(s, a, i) <= s.len(),
        first_session(s, a, i) < s.len() ==> s[first_session(s, a, i)].actor_id@ == a,
    decreases s.len() - i,
{
    if i < s.len() && s[i].actor_id@ != a {
        lemma_first_session(s, a, i + 1);
    }
}

proof fn lemma_first_identity(s: Seq<ActorIdentity>, a: Seq<char>, i: int)
    requires
        0 <= i <= s.len(),
    ensures
        i <= first_identity(s, a, i) <= s.len(),
        first_identity(s, a, i) < s.len() ==> s[first_identity(s, a, i)].actor_id@ == a,
    decreases s.len() - i,
{
    if i < s.len() && s[i].actor_id@ != a {
        lemma_first_identity(s, a, i + 1);
    }
}

proof fn lemma_first_notes(s: Seq<NotesFile>, a: Seq<char>, i: int)
    requires
        0 <= i <= s.len(),
    ensures
        i <= first_notes(s, a, i) <= s.len(),
        first_notes(s, a, i) < s.len() ==> s[first_notes(s, a, i)].actor_id@ == a,
    decreases s.len() - i,
{
    if i < s.len() && s[i].actor_id@ != a {
        lemma_first_notes(s, a, i + 1);
    }
}

proof fn lemma_first_sheet(s: Seq<CharacterSheet>, a: Seq<char>, i: int)
    requires
        0 <= i <= s.len(),
    ensures
        i <= first_sheet(s, a, i) <= s.len(),
        first_sheet(s, a, i) < s.len() ==> s[first_sheet(s, a, i)].actor_id@ == a,
    decreases s.len() - i,
{
    if i < s.len() && s[i].actor_id@ != a {
        lemma_first_sheet(s, a, i + 1);
    }
}

fn find_session(s: &Vec<ActorSession>, a: &str) -> (r: usize)
    ensures
        r == first_session(s@, a@, 0),
        r <= s@.len(),
        r < s@.len() ==> s@[r as int].actor_id@ == a@,
{
    proof {
        lemma_first_session(s@, a@, 0);
    }
    let mut k: usize = 0;
    while k < s.len() && !str_eq(s[k].actor_id.as_str(), a)
        invariant
            k <= s@.len(),
            first_session(s@, a@, 0) == first_session(s@, a@, k as int),
        decreases s@.len() - k,
    {
        k = k + 1;
    }
    k
}

fn find_identity(s: &Vec<ActorIdentity>, a: &str) -> (r: usize)
    ensures
        r == first_identity(s@, a@, 0),
        r <= s@.len(),
        r < s@.len() ==> s@[r as int].actor_id@ == a@,
{
    proof {
        lemma_first_identity(s@, a@, 0);
    }
    let mut k: usize = 0;
    while k < s.len() && !str_eq(s[k].actor_id.as_str(), a)
        invariant
            k <= s@.len(),
            first_identity(s@, a@, 0) == first_identity(s@, a@, k as int),
        decreases s@.len() - k,
    {
        k = k + 1;
    }
    k
}

fn find_notes(s: &Vec<NotesFile>, a: &str) -> (r: usize)
    ensures
        r == first_notes(s@, a@, 0),
        r <= s@.len(),
        r < s@.len() ==> s@[r as int].actor_id@ == a@,
{
    proof {
        lemma_first_notes(s@, a@, 0);
    }
    let mut k: usize = 0;
    while k < s.len() && !str_eq(s[k].actor_id.as_str(), a)
        invariant
            k <= s@.len(),
            first_notes(s@, a@, 0) == first_notes(s@, a@, k as int),
        decreases s@.len() - k,
    {
        k = k + 1;
    }
    k
}

fn find_sheet(s: &Vec<CharacterSheet>, a: &str) -> (r: usize)
    ensures
        r == first_sheet(s@, a@, 0),
        r <= s@.len(),
        r < s@.len() ==> s@[r as int].actor_id@ == a@,
{
    proof {
        lemma_first_sheet(s@, a@, 0);
    }
    let mut k: usize = 0;
    while k < s.len() && !str_eq(s[k].actor_id.as_str(), a)
        invariant
            k <= s@.len(),
            first_sheet(s@, a@, 0) == first_sheet(s@, a@, k as int),
        decreases s@.len() - k,
    {
        k = k + 1;
    }
    k
}

} // verus!
