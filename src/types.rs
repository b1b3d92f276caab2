//! The records that a session is made of. Times are milliseconds since the Unix epoch.
use vstd::prelude::*;

verus! {

/// Where the external agent runs; fixed when a campaign is created.
#[derive(Clone, Copy, Debug, PartialEq, Eq, Structural)]
pub enum RunMode {
    Local,
    Remote,
}

impl RunMode {
    /// The lower-case name of the mode.
    pub fn as_str(&self) -> (r: &'static str)
        ensures
            *self == RunMode::Local ==> r@ == "local"@,
            *self == RunMode::Remote ==> r@ == "remote"@,
    {
        match self {
            RunMode::Local => "local",
            RunMode::Remote => "remote",
        }
    }
}

/// Who may read a transcript event.
#[derive(Clone, Debug)]
pub enum Visibility {
    Public,
    Whisper { sender: String, target: String },
}

impl Visibility {
    pub fn copy(&self) -> (r: Self)
        ensures
            r == *self,
    {
        match self {
            Visibility::Public => Visibility::Public,
            Visibility::Whisper { sender, target } => Visibility::Whisper {
                sender: sender.clone(),
                target: target.clone(),
            },
        }
    }
}

#[derive(Clone, Debug)]
pub struct TranscriptEvent {
    pub timestamp: i64,
    pub speaker: String,
    pub message: String,
    pub visibility: Visibility,
}

impl TranscriptEvent {
    pub fn copy(&self) -> (r: Self)
        ensures
            r == *self,
    {
        TranscriptEvent {
            timestamp: self.timestamp,
            speaker: self.speaker.clone(),
            message: self.message.clone(),
            visibility: self.visibility.copy(),
        }
    }
}

#[derive(Clone, Debug)]
pub struct CampaignState {
    pub format_version: u32,
    pub campaign_id: String,
    pub created_at: i64,
    pub updated_at: i64,
    pub round_index: u64,
    pub mode: RunMode,
}

#[derive(Clone, Debug)]
pub struct ActorIdentity {
    pub actor_id: String,
    pub display_name: String,
    pub pronouns: String,
    pub approved_by_dm: bool,
    pub updated_at: i64,
}

impl ActorIdentity {
    pub fn copy(&self) -> (r: Self)
        ensures
            r == *self,
    {
        ActorIdentity {
            actor_id: self.actor_id.clone(),
            display_name: self.display_name.clone(),
            pronouns: self.pronouns.clone(),
            approved_by_dm: self.approved_by_dm,
            updated_at: self.updated_at,
        }
    }
}

/// The identities of a campaign, one record per actor.
#[derive(Clone, Debug)]
pub struct IdentitiesFile {
    pub format_version: u32,
    pub identities: Vec<ActorIdentity>,
}

#[derive(Clone, Debug)]
pub struct ActorSession {
    pub actor_id: String,
    pub thread_id: Option<String>,
    pub last_message: Option<String>,
    pub updated_at: i64,
}

impl ActorSession {
    pub fn copy(&self) -> (r: Self)
        ensures
            r == *self,
    {
        ActorSession {
            actor_id: self.actor_id.clone(),
            thread_id: match &self.thread_id {
                Some(t) => Some(t.clone()),
                None => None,
            },
            last_message: match &self.last_message {
                Some(m) => Some(m.clone()),
                None => None,
            },
            updated_at: self.updated_at,
        }
    }
}

/// The agent sessions of a campaign, one record per actor.
#[derive(Clone, Debug)]
pub struct SessionsFile {
    pub format_version: u32,
    pub sessions: Vec<ActorSession>,
}

#[derive(Clone, Debug)]
pub struct NoteEntry {
    pub timestamp: i64,
    pub text: String,
}

impl NoteEntry {
    pub fn copy(&self) -> (r: Self)
        ensures
            r == *self,
    {
        NoteEntry { timestamp: self.timestamp, text: self.text.clone() }
    }
}

#[derive(Clone, Debug)]
pub struct NotesFile {
    pub format_version: u32,
    pub actor_id: String,
    pub entries: Vec<NoteEntry>,
}

impl NotesFile {
    pub fn copy(&self) -> (r: Self)
        ensures
            r.format_version == self.format_version,
            r.actor_id == self.actor_id,
            r.entries@ == self.entries@,
    {
        let mut entries: Vec<NoteEntry> = Vec::new();
        let mut i: usize = 0;
        while i < self.entries.len()
            invariant
                i <= self.entries@.len(),
                entries@ == self.entries@.take(i as int),
            decreases self.entries@.len() - i,
        {
            entries.push(self.entries[i].copy());
            assert(self.entries@.take(i + 1) == self.entries@.take(i as int).push(
                self.entries@[i as int],
            ));
            i = i + 1;
        }
        assert(self.entries@.take(self.entries@.len() as int) == self.entries@);
        NotesFile {
            format_version: self.format_version,
            actor_id: self.actor_id.clone(),
            entries,
        }
    }
}

#[derive(Clone, Debug)]
pub struct CharacterSheet {
    pub format_version: u32,
    pub actor_id: String,
    pub class_name: String,
    pub level: u8,
    pub armor_class: u16,
    pub max_hp: i32,
    pub current_hp: i32,
    pub strength: i16,
    pub dexterity: i16,
    pub constitution: i16,
    pub intelligence: i16,
    pub wisdom: i16,
    pub charisma: i16,
}

impl CharacterSheet {
    pub fn copy(&self) -> (r: Self)
        ensures
            r == *self,
    {
        CharacterSheet {
            format_version: self.format_version,
            actor_id: self.actor_id.clone(),
            class_name: self.class_name.clone(),
            level: self.level,
            armor_class: self.armor_class,
            max_hp: self.max_hp,
            current_hp: self.current_hp,
            strength: self.strength,
            dexterity: self.dexterity,
            constitution: self.constitution,
            intelligence: self.intelligence,
            wisdom: self.wisdom,
            charisma: self.charisma,
        }
    }
}

/// One structured turn as the agent returns it.
#[derive(Clone, Debug)]
pub struct AgentTurnResponse {
    pub public_message: String,
    pub actions: Vec<AgentAction>,
    pub next_actor_id: Option<String>,
    pub note: Option<String>,
}

/// The action vocabulary of a turn.
#[derive(Clone, Debug)]
pub enum AgentAction {
    RequestMessagePlayer {
        target: Option<String>,
        targets: Vec<String>,
        message: String,
        reason: Option<String>,
    },
    NoteWrite { text: String },
}

/// The director's verdict on a whisper request.
#[derive(Clone, Debug)]
pub struct WhisperDecision {
    pub approve: bool,
    pub reason: Option<String>,
}

} // verus!
