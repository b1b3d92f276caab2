//! How the external agent is invoked and how its event stream is read back.
//! Running the process is left to the caller; this module decides what to run
//! and what the run produced.
use vstd::prelude::*;
use crate::actors::{DM_ACTOR, is_player_ai, is_player_ai_id, str_eq};
use crate::config::{AppConfig, ResolvedPaths, join_path, join_spec};
use crate::repair::TurnKind;
use crate::text::{join_strings, join_with, trim, trim_spec};
use crate::types::RunMode;

verus! {

/// serde_json's `Value`, declared so that the raw events of an agent call can be
/// carried through unread.
#[verifier::external_type_specification]
#[verifier::external_body]
pub struct ExJsonValue(serde_json::Value);

/// Everything needed to invoke the agent for a campaign.
pub struct CodexRunner {
    pub mode: RunMode,
    pub app_config: AppConfig,
    pub workdir: String,
    pub output_dir: String,
    pub local_runtime_home: Option<String>,
    pub dm_turn_schema_path: String,
    pub player_turn_schema_path: String,
    pub whisper_schema_path: String,
    pub identity_proposal_schema_path: String,
    pub identity_decision_schema_path: String,
}

/// What one call of the agent produced.
pub struct CodexTurnResult {
    pub thread_id: Option<String>,
    pub last_message: String,
    pub reasoning_text: Vec<String>,
    pub errors: Vec<String>,
    pub raw_events: Vec<serde_json::Value>,
}

/// An environment variable handed to the agent process.
pub struct EnvVar {
    pub name: String,
    pub value: String,
}

/// One invocation of the agent: its arguments and extra environment.
pub struct AgentInvocation {
    pub args: Vec<String>,
    pub env: Vec<EnvVar>,
}

#[derive(Debug, PartialEq, Eq, Structural)]
pub enum RunnerError {
    /// Local mode needs an API key for the local endpoint.
    MissingLocalKey,
    /// Local mode needs its runtime home.
    MissingRuntimeHome,
}

pub open spec fn profile_spec(mode: RunMode, actor: Seq<char>) -> Option<Seq<char>> {
    if mode == RunMode::Remote {
        None
    } else if actor == DM_ACTOR@ {
        Some("dm_local"@)
    } else if is_player_ai(actor) {
        Some("player_local"@)
    } else {
        None
    }
}

impl CodexRunner {
    /// The runner's locations: agent output under the application root, one
    /// schema file per kind of reply, and in local mode the agent's runtime home.
    pub fn new(mode: RunMode, app_config: AppConfig, paths: ResolvedPaths, workdir: String) -> (r:
        Self)
        ensures
            r.mode == mode,
            r.workdir == workdir,
            r.output_dir@ == join_spec(paths.app_root@, ".runtime/codex-output"@),
            r.dm_turn_schema_path@ == join_spec(paths.schema_dir@, "dm_turn.schema.json"@),
            r.player_turn_schema_path@ == join_spec(paths.schema_dir@, "player_turn.schema.json"@),
            r.whisper_schema_path@ == join_spec(
                paths.schema_dir@,
                "dm_whisper_decision.schema.json"@,
            ),
            r.identity_proposal_schema_path@ == join_spec(
                paths.schema_dir@,
                "identity_proposal.schema.json"@,
            ),
            r.identity_decision_schema_path@ == join_spec(
                paths.schema_dir@,
                "identity_decision.schema.json"@,
            ),
            mode == RunMode::Local ==> r.local_runtime_home == Some(paths.codex_runtime_home),
            mode == RunMode::Remote ==> r.local_runtime_home is None,
    {
        let output_dir = join_path(paths.app_root.as_str(), ".runtime/codex-output");
        let dm_turn_schema_path = join_path(paths.schema_dir.as_str(), "dm_turn.schema.json");
        let player_turn_schema_path = join_path(paths.schema_dir.as_str(), "player_turn.schema.json");
        let whisper_schema_path = join_path(
            paths.schema_dir.as_str(),
            "dm_whisper_decision.schema.json",
        );
        let identity_proposal_schema_path = join_path(
            paths.schema_dir.as_str(),
            "identity_proposal.schema.json",
        );
        let identity_decision_schema_path = join_path(
            paths.schema_dir.as_str(),
            "identity_decision.schema.json",
        );
        let local_runtime_home = match mode {
            RunMode::Local => Some(paths.codex_runtime_home),
            RunMode::Remote => None,
        };
        CodexRunner {
            mode,
            app_config,
            workdir,
            output_dir,
            local_runtime_home,
            dm_turn_schema_path,
            player_turn_schema_path,
            whisper_schema_path,
            identity_proposal_schema_path,
            identity_decision_schema_path,
        }
    }

    pub fn mode(&self) -> (r: RunMode)
        ensures
            r == self.mode,
    {
        self.mode
    }

    /// The local profile an actor runs under: none in remote mode.
    pub fn select_profile(&self, actor_id: &str) -> (r: Option<&'static str>)
        ensures
            match r {
                Some(p) => profile_spec(self.mode, actor_id@) == Some(p@),
                None => profile_spec(self.mode, actor_id@) is None,
            },
    {
        if self.mode == RunMode::Remote {
            return None;
        }
        if str_eq(actor_id, DM_ACTOR) {
            Some("dm_local")
        } else if is_player_ai_id(actor_id) {
            Some("player_local")
        } else {
            None
        }
    }

    pub open spec fn schema_spec(&self, kind: TurnKind) -> String {
        match kind {
            TurnKind::DirectorTurn => self.dm_turn_schema_path,
            TurnKind::PlayerTurn => self.player_turn_schema_path,
            TurnKind::WhisperApproval => self.whisper_schema_path,
            TurnKind::IdentityProposal => self.identity_proposal_schema_path,
            TurnKind::IdentityDecision => self.identity_decision_schema_path,
        }
    }

    /// The schema file that constrains a kind of reply.
    pub fn schema_for(&self, kind: TurnKind) -> (r: &String)
        ensures
            *r == self.schema_spec(kind),
    {
        match kind {
            TurnKind::DirectorTurn => &self.dm_turn_schema_path,
            TurnKind::PlayerTurn => &self.player_turn_schema_path,
            TurnKind::WhisperApproval => &self.whisper_schema_path,
            TurnKind::IdentityProposal => &self.identity_proposal_schema_path,
            TurnKind::IdentityDecision => &self.identity_decision_schema_path,
        }
    }

    /// The arguments and environment of one agent call: JSON events, the final
    /// message written to `output_message_path`, the reply schema, the actor's
    /// profile, and either a resumed conversation or a new one. No timeout is
    /// ever set.
    pub fn plan_invocation(
        &self,
        actor_id: &str,
        kind: TurnKind,
        prompt: &str,
        existing_thread_id: Option<&str>,
        output_message_path: &str,
    ) -> (r: Result<AgentInvocation, RunnerError>)
        ensures
            self.mode == RunMode::Local && trim_spec(self.app_config.secrets.local_openai_api_key@).len()
                == 0 ==> r == Err::<AgentInvocation, RunnerError>(RunnerError::MissingLocalKey),
            self.mode == RunMode::Local && trim_spec(self.app_config.secrets.local_openai_api_key@).len()
                > 0 && self.local_runtime_home is None ==> r == Err::<AgentInvocation, RunnerError>(
                RunnerError::MissingRuntimeHome,
            ),
            r is Ok <==> (self.mode == RunMode::Remote || (trim_spec(
                self.app_config.secrets.local_openai_api_key@,
            ).len() > 0 && self.local_runtime_home is Some)),
            r is Ok ==> ({
                let args = r->Ok_0.args@.map_values(|s: String| s@);
                let profile: Seq<Seq<char>> = match profile_spec(self.mode, actor_id@) {
                    Some(p) => seq!["-p"@, p],
                    None => seq![],
                };
                let tail: Seq<Seq<char>> = match existing_thread_id {
                    Some(t) => seq!["resume"@, t@, prompt@],
                    None => seq![prompt@],
                };
                &&& args == seq![
                    "exec"@,
                    "--skip-git-repo-check"@,
                    "--json"@,
                    "-o"@,
                    output_message_path@,
                    "--output-schema"@,
                    self.schema_spec(kind)@,
                ] + profile + tail
                &&& self.mode == RunMode::Remote ==> r->Ok_0.env@.len() == 0
                &&& self.mode == RunMode::Local ==> r->Ok_0.env@.len() == 2
                    && r->Ok_0.env@[0].name@ == "OPENAI_API_KEY"@ && r->Ok_0.env@[0].value@
                    == trim_spec(self.app_config.secrets.local_openai_api_key@)
                    && r->Ok_0.env@[1].name@ == "CODEX_HOME"@ && r->Ok_0.env@[1].value
                    == self.local_runtime_home->0
            }),
    {
        let mut env: Vec<EnvVar> = Vec::new();
        if self.mode == RunMode::Local {
            let key = trim(self.app_config.secrets.local_openai_api_key.as_str());
            if key.unicode_len() == 0 {
                return Err(RunnerError::MissingLocalKey);
            }
            match &self.local_runtime_home {
                None => {
                    return Err(RunnerError::MissingRuntimeHome);
                },
                Some(home) => {
                    env.push(EnvVar { name: String::from_str("OPENAI_API_KEY"), value: key });
                    env.push(EnvVar { name: String::from_str("CODEX_HOME"), value: home.clone() });
                },
            }
        }
        let profile = self.select_profile(actor_id);
        let schema = self.schema_for(kind);
        let mut args: Vec<String> = Vec::new();
        args.push(String::from_str("exec"));
        args.push(String::from_str("--skip-git-repo-check"));
        args.push(String::from_str("--json"));
        args.push(String::from_str("-o"));
        args.push(String::from_str(output_message_path));
        args.push(String::from_str("--output-schema"));
        args.push(schema.clone());
        let ghost head = args@.map_values(|s: String| s@);
        let ghost pp: Seq<Seq<char>> = Seq::empty();
        match profile {
            Some(p) => {
                args.push(String::from_str("-p"));
                args.push(String::from_str(p));
                proof {
                    pp = seq!["-p"@, p@];
                }
            },
            None => {},
        }
        assert(args@.map_values(|s: String| s@) =~= head + pp);
        match existing_thread_id {
            Some(t) => {
                args.push(String::from_str("resume"));
                args.push(String::from_str(t));
                args.push(String::from_str(prompt));
            },
            None => {
                args.push(String::from_str(prompt));
            },
        }
        let ghost tail: Seq<Seq<char>> = match existing_thread_id {
            Some(t) => seq!["resume"@, t@, prompt@],
            None => seq![prompt@],
        };
        assert(args@.map_values(|s: String| s@) =~= head + pp + tail);
        Ok(AgentInvocation { args, env })
    }
}

/// The fields of one JSON line of the agent's event stream that matter here;
/// absent fields, and lines that are not JSON objects, give `None`.
pub struct AgentStreamEvent {
    /// The event's `type`.
    pub kind: Option<String>,
    /// `thread_id`, as `thread.started` carries it.
    pub thread_id: Option<String>,
    /// `message`, as `error` carries it.
    pub message: Option<String>,
    /// `error.message`, as `turn.failed` carries it.
    pub error_message: Option<String>,
    /// `item.type`.
    pub item_type: Option<String>,
    /// `item.text`.
    pub item_text: Option<String>,
    /// `item.message`.
    pub item_message: Option<String>,
}

pub open spec fn is_kind(field: Option<String>, name: Seq<char>) -> bool {
    match field {
        Some(f) => f@ == name,
        None => false,
    }
}

/// What a stream has told so far: the conversation handle, the last agent
/// message, the reasoning texts and the error messages.
pub struct StreamSummary {
    pub thread_id: Option<String>,
    pub last_agent_message: Option<String>,
    pub reasoning_text: Vec<String>,
    pub errors: Vec<String>,
}

pub open spec fn thread_after(events: Seq<AgentStreamEvent>) -> Option<Seq<char>>
    decreases events.len(),
{
    if events.len() == 0 {
        None
    } else {
        let e = events.last();
        if is_kind(e.kind, "thread.started"@) && e.thread_id is Some {
            Some(e.thread_id->0@)
        } else {
            thread_after(events.drop_last())
        }
    }
}

pub open spec fn agent_message_after(events: Seq<AgentStreamEvent>) -> Option<Seq<char>>
    decreases events.len(),
{
    if events.len() == 0 {
        None
    } else {
        let e = events.last();
        if is_kind(e.item_type, "agent_message"@) && e.item_text is Some {
            Some(e.item_text->0@)
        } else {
            agent_message_after(events.drop_last())
        }
    }
}

pub open spec fn reasoning_after(events: Seq<AgentStreamEvent>) -> Seq<Seq<char>>
    decreases events.len(),
{
    if events.len() == 0 {
        seq![]
    } else {
        let e = events.last();
        let prev = reasoning_after(events.drop_last());
        if is_kind(e.item_type, "reasoning"@) && e.item_text is Some {
            prev.push(e.item_text->0@)
        } else {
            prev
        }
    }
}

/// The error messages of one event, in the order the stream reader takes them.
pub open spec fn event_errors(e: AgentStreamEvent) -> Seq<Seq<char>> {
    let top: Seq<Seq<char>> = if is_kind(e.kind, "error"@) && e.message is Some {
        seq![e.message->0@]
    } else if is_kind(e.kind, "turn.failed"@) && e.error_message is Some {
        seq![e.error_message->0@]
    } else {
        seq![]
    };
    let item: Seq<Seq<char>> = if is_kind(e.item_type, "error"@) && e.item_message is Some {
        seq![e.item_message->0@]
    } else {
        seq![]
    };
    top + item
}

pub open spec fn errors_after(events: Seq<AgentStreamEvent>) -> Seq<Seq<char>>
    decreases events.len(),
{
    if events.len() == 0 {
        seq![]
    } else {
        errors_after(events.drop_last()) + event_errors(events.last())
    }
}

fn field_is(field: &Option<String>, name: &str) -> (r: bool)
    ensures
        r == is_kind(*field, name@),
{
    match field {
        Some(f) => str_eq(f.as_str(), name),
        None => false,
    }
}

fn clone_opt(o: &Option<String>) -> (r: Option<String>)
    ensures
        r == *o,
{
    match o {
        Some(s) => Some(s.clone()),
        None => None,
    }
}

pub open spec fn opt_view(o: Option<String>) -> Option<Seq<char>> {
    match o {
        Some(s) => Some(s@),
        None => None,
    }
}

/// Reads the agent's event stream in order.
pub fn summarize_stream(events: &Vec<AgentStreamEvent>) -> (r: StreamSummary)
    ensures
        opt_view(r.thread_id) == thread_after(events@),
        opt_view(r.last_agent_message) == agent_message_after(events@),
        r.reasoning_text@.map_values(|s: String| s@) == reasoning_after(events@),
        r.errors@.map_values(|s: String| s@) == errors_after(events@),
{
    let mut thread_id: Option<String> = None;
    let mut last: Option<String> = None;
    let mut reasoning: Vec<String> = Vec::new();
    let mut errors: Vec<String> = Vec::new();
    let mut i: usize = 0;
    while i < events.len()
        invariant
            i <= events@.len(),
            opt_view(thread_id) == thread_after(events@.take(i as int)),
            opt_view(last) == agent_message_after(events@.take(i as int)),
            reasoning@.map_values(|s: String| s@) == reasoning_after(events@.take(i as int)),
            errors@.map_values(|s: String| s@) == errors_after(events@.take(i as int)),
        decreases events@.len() - i,
    {
        let e = &events[i];
        assert(events@.take(i + 1).drop_last() == events@.take(i as int));
        assert(events@.take(i + 1).last() == events@[i as int]);
        let ghost errs0 = errors@.map_values(|s: String| s@);
        if field_is(&e.kind, "thread.started") && e.thread_id.is_some() {
            thread_id = clone_opt(&e.thread_id);
        }
        if field_is(&e.kind, "error") && e.message.is_some() {
            match &e.message {
                Some(m) => errors.push(m.clone()),
                None => {},
            }
        } else if field_is(&e.kind, "turn.failed") && e.error_message.is_some() {
            match &e.error_message {
                Some(m) => errors.push(m.clone()),
                None => {},
            }
        }
        let ghost errs1 = errors@.map_values(|s: String| s@);
        if field_is(&e.item_type, "agent_message") && e.item_text.is_some() {
            last = clone_opt(&e.item_text);
        }
        if field_is(&e.item_type, "reasoning") && e.item_text.is_some() {
            let ghost before = reasoning@;
            match &e.item_text {
                Some(t) => reasoning.push(t.clone()),
                None => {},
            }
            assert(reasoning@.map_values(|s: String| s@) =~= before.map_values(|s: String| s@).push(
                e.item_text->0@,
            ));
        }
        if field_is(&e.item_type, "error") && e.item_message.is_some() {
            match &e.item_message {
                Some(m) => errors.push(m.clone()),
                None => {},
            }
        }
        assert(errors@.map_values(|s: String| s@) =~= errs0 + event_errors(events@[i as int]));
        i = i + 1;
    }
    assert(events@.take(events@.len() as int) == events@);
    StreamSummary { thread_id, last_agent_message: last, reasoning_text: reasoning, errors }
}

/// The final message of a call: the message file when it holds more than white
/// space, else the last agent message of the stream, else nothing.
pub open spec fn final_message_spec(file_message: Option<String>, streamed: Option<Seq<char>>) -> Seq<
    char,
> {
    match file_message {
        Some(f) => if trim_spec(f@).len() > 0 {
            trim_spec(f@)
        } else {
            match streamed {
                Some(m) => m,
                None => Seq::empty(),
            }
        },
        None => match streamed {
            Some(m) => m,
            None => Seq::empty(),
        },
    }
}

/// The errors of a call: those of the stream, or, when the process failed
/// without reporting any, the failure itself.
pub open spec fn call_errors_spec(
    events: Seq<AgentStreamEvent>,
    exit_ok: bool,
    failure: Seq<char>,
) -> Seq<Seq<char>> {
    if !exit_ok && errors_after(events).len() == 0 {
        seq![failure]
    } else {
        errors_after(events)
    }
}

/// Combines what an agent call produced. The call fails, with its errors joined
/// by ` | `, exactly when it produced no message and reported errors.
pub fn collect_turn_result(
    events: &Vec<AgentStreamEvent>,
    raw_events: Vec<serde_json::Value>,
    file_message: Option<String>,
    exit_ok: bool,
    failure: String,
) -> (r: Result<CodexTurnResult, String>)
    ensures
        ({
            let msg = final_message_spec(file_message, agent_message_after(events@));
            let errs = call_errors_spec(events@, exit_ok, failure@);
            &&& r is Err <==> msg.len() == 0 && errs.len() > 0
            &&& r is Err ==> r->Err_0@ == join_with(errs, " | "@)
            &&& r is Ok ==> {
                let t = r->Ok_0;
                &&& t.last_message@ == msg
                &&& t.errors@.map_values(|s: String| s@) == errs
                &&& opt_view(t.thread_id) == thread_after(events@)
                &&& t.reasoning_text@.map_values(|s: String| s@) == reasoning_after(events@)
                &&& t.raw_events@ == raw_events@
            }
        }),
{
    let summary = summarize_stream(events);
    let from_file = match &file_message {
        Some(f) => {
            let t = trim(f.as_str());
            if t.unicode_len() > 0 {
                Some(t)
            } else {
                None
            }
        },
        None => None,
    };
    let last_message = match from_file {
        Some(t) => t,
        None => match summary.last_agent_message {
            Some(m) => m,
            None => String::new(),
        },
    };
    let mut errors = summary.errors;
    if !exit_ok && errors.len() == 0 {
        errors.push(failure);
        assert(errors@.map_values(|s: String| s@) =~= seq![failure@]);
    }
    if last_message.unicode_len() == 0 && errors.len() > 0 {
        return Err(join_strings(&errors, " | "));
    }
    Ok(
        CodexTurnResult {
            thread_id: summary.thread_id,
            last_message,
            reasoning_text: summary.reasoning_text,
            errors,
            raw_events,
        },
    )
}

} // verus!
