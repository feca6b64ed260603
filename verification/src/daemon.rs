//! The service itself: one agent, one state, one transcript, many clients.
//!
//! Everything that has to be agreed on is here, and nothing here blocks: the
//! service decides, and the loop around it writes to the agent, writes to the
//! clients, and starts and stops the agent, reporting back what came of it.
//!
//! The state is the smallest thing that answers "what is Scufris doing".
//! `agent_start` and `agent_settled` are its edges, and the mapping is here so
//! that no client ever learns the agent's vocabulary.
//!
//! The debug lease is the one piece of policy worth stating twice. A control
//! client asks for the agent, the service stops it, and the lease is held by
//! that connection and nothing else. When the connection closes the agent
//! starts again. Nothing has to be remembered and nothing has to be trapped,
//! which is what makes it impossible to be left detached with no way back.
use vstd::prelude::*;
use vstd::string::StringExecFns;

use crate::daemon_config::debug_args;
use crate::refusal::AGENT_UNAVAILABLE;
use crate::text::{decimal, push_decimal, same};

verus! {

/// Socket name below the socket directory that the service listens on.
pub const SERVICE_FILE_NAME: &'static str = "service.sock";

/// Correlation identifier of the one command the service sends unasked.
pub const BOOT: &'static str = "boot";

/// How many lines of conversation a connecting frontend is handed.
pub const TRANSCRIPT_ENTRIES: usize = 200;

/// How long an agent has to run, in milliseconds, before its start counts as
/// having worked.
pub const HEALTHY_MILLIS: u64 = 10_000;

/// How long to wait, in milliseconds, before starting an agent that just died.
pub const RESTART_DELAY_MILLIS: u64 = 1_000;

/// How many quick deaths in a row stop the service from trying again.
pub const MAX_FAILURES: u32 = 3;

/// Refusal code: the agent answered the command with a failure.
pub const AGENT_REFUSED: &'static str = "agent_refused";

/// Refusal code: a terminal holds the session.
pub const DETACHED: &'static str = "detached";

/// Refusal code: a terminal already holds the session.
pub const DEBUG_HELD: &'static str = "debug_held";

/// Refusal code: the client's role may not ask for this.
pub const WRONG_ROLE: &'static str = "wrong_role";

/// What one connection said it is when it said hello.
#[derive(Debug, Clone, Copy, PartialEq, Eq, Structural)]
pub enum Role {
    /// A surface that shows the conversation.
    Frontend,
    /// A client that asks and is answered, and is never handed a backlog.
    Control,
}

impl Role {
    /// Returns the wire name of this role.
    pub fn name(self) -> (r: &'static str)
        ensures
            r@ == match self {
                Role::Frontend => "frontend"@,
                Role::Control => "control"@,
            },
    {
        match self {
            Role::Frontend => "frontend",
            Role::Control => "control",
        }
    }
}

/// What Scufris is doing, as every frontend is told.
#[derive(Debug, Clone, Copy, PartialEq, Eq, Structural)]
pub enum Condition {
    /// The agent is spawned and has not answered yet.
    Starting,
    /// The agent is up and no run is in progress.
    Idle,
    /// An agent run is in progress.
    Working,
    /// A debug lease is held: a terminal owns the conversation.
    Detached,
    /// The agent could not be kept running.
    Error,
}

/// The wire name of one condition.
pub open spec fn condition_name(c: Condition) -> Seq<char> {
    match c {
        Condition::Starting => "starting"@,
        Condition::Idle => "idle"@,
        Condition::Working => "working"@,
        Condition::Detached => "detached"@,
        Condition::Error => "error"@,
    }
}

impl Condition {
    /// Returns the wire name of this condition.
    pub fn name(self) -> (r: &'static str)
        ensures
            r@ == condition_name(self),
    {
        match self {
            Condition::Starting => "starting",
            Condition::Idle => "idle",
            Condition::Working => "working",
            Condition::Detached => "detached",
            Condition::Error => "error",
        }
    }
}

/// Who said one line of the conversation.
#[derive(Debug, Clone, Copy, PartialEq, Eq, Structural)]
pub enum Speaker {
    User,
    Assistant,
}

/// One line of the conversation.
#[derive(Debug, Clone, PartialEq, Eq)]
pub struct TranscriptEntry {
    pub speaker: Speaker,
    pub text: String,
}

/// One line of the conversation, as a text.
#[verifier::ext_equal]
pub struct EntryView {
    pub speaker: Speaker,
    pub text: Seq<char>,
}

impl View for TranscriptEntry {
    type V = EntryView;

    open spec fn view(&self) -> EntryView {
        EntryView { speaker: self.speaker, text: self.text@ }
    }
}

/// Whether an extension's request for the user interface is a dialog, which
/// holds the agent until it is answered, rather than something the agent
/// does not wait on.
pub open spec fn dialog_method(method: Seq<char>) -> bool {
    method == "select"@ || method == "confirm"@ || method == "input"@ || method == "editor"@
}

/// Answers whether an extension's request for the user interface is a
/// dialog.
pub fn is_dialog(method: &str) -> (r: bool)
    ensures
        r == dialog_method(method@),
{
    same(method, "select") || same(method, "confirm") || same(method, "input") || same(method, "editor")
}

/// The texts one after another.
pub open spec fn joined(parts: Seq<Seq<char>>) -> Seq<char>
    decreases parts.len(),
{
    if parts.len() == 0 {
        Seq::empty()
    } else {
        joined(parts.drop_last()) + parts.last()
    }
}

/// Who said a message, by the role the agent gives it: the person or the
/// assistant, and nobody the conversation shows for any other role.
pub open spec fn speaker_of(role: Seq<char>) -> Option<Speaker> {
    if role == "user"@ {
        Some(Speaker::User)
    } else if role == "assistant"@ {
        Some(Speaker::Assistant)
    } else {
        None
    }
}

/// The line one finished message makes in the conversation: its text parts
/// one after another, said by whoever its role names, or no line for a role
/// the conversation does not show.
pub fn message_line(role: &str, parts: &Vec<String>) -> (r: Option<TranscriptEntry>)
    ensures
        match r {
            Some(entry) => speaker_of(role@) == Some(entry.speaker) && entry.text@ == joined(
                parts@.map_values(|p: String| p@),
            ),
            None => speaker_of(role@) is None,
        },
{
    let speaker = if same(role, "user") {
        Speaker::User
    } else if same(role, "assistant") {
        Speaker::Assistant
    } else {
        return None;
    };
    let ghost texts = parts@.map_values(|p: String| p@);
    let mut text = String::new();
    let mut i: usize = 0;
    while i < parts.len()
        invariant
            i <= parts@.len(),
            texts == parts@.map_values(|p: String| p@),
            text@ == joined(texts.subrange(0, i as int)),
        decreases parts@.len() - i,
    {
        proof {
            let upto = texts.subrange(0, i + 1);
            assert(upto.drop_last() =~= texts.subrange(0, i as int));
            assert(upto.last() == parts@[i as int]@);
        }
        text.append(parts[i].as_str());
        i = i + 1;
    }
    proof {
        assert(texts.subrange(0, parts@.len() as int) =~= texts);
    }
    Some(TranscriptEntry { speaker, text })
}

impl TranscriptEntry {
    /// Returns a copy of this line.
    pub fn duplicate(&self) -> (r: TranscriptEntry)
        ensures
            r@ == self@,
    {
        TranscriptEntry { speaker: self.speaker, text: self.text.clone() }
    }
}

/// One message the service sends a client.
#[derive(Debug, Clone, PartialEq, Eq)]
pub enum Body {
    /// The answer to a hello.
    Welcome { role: Role },
    /// What Scufris is doing, unasked or as the answer to a request.
    State { id: Option<String>, state: Condition, detail: String },
    /// One line of the conversation.
    Transcript { entry: TranscriptEntry },
    /// A command the agent carried out.
    Done { id: String },
    /// A command that was not carried out, and why.
    Refused { id: String, code: String, detail: String },
    /// The command line that resumes the session in a terminal.
    Debug { id: String, program: String, args: Vec<String> },
}

/// One message the service sends a client, as texts.
#[verifier::ext_equal]
pub enum BodyView {
    Welcome { role: Role },
    State { id: Option<Seq<char>>, state: Condition, detail: Seq<char> },
    Transcript { entry: EntryView },
    Done { id: Seq<char> },
    Refused { id: Seq<char>, code: Seq<char>, detail: Seq<char> },
    Debug { id: Seq<char>, program: Seq<char>, args: Seq<Seq<char>> },
}

/// The texts of a list of texts.
pub open spec fn texts(v: Seq<String>) -> Seq<Seq<char>> {
    v.map_values(|a: String| a@)
}

/// The view of an optional text.
pub open spec fn opt_text(o: Option<String>) -> Option<Seq<char>> {
    match o {
        Some(s) => Some(s@),
        None => None,
    }
}

impl View for Body {
    type V = BodyView;

    open spec fn view(&self) -> BodyView {
        match self {
            Body::Welcome { role } => BodyView::Welcome { role: *role },
            Body::State { id, state, detail } => BodyView::State { id: opt_text(*id), state: *state, detail: detail@ },
            Body::Transcript { entry } => BodyView::Transcript { entry: entry@ },
            Body::Done { id } => BodyView::Done { id: id@ },
            Body::Refused { id, code, detail } => BodyView::Refused { id: id@, code: code@, detail: detail@ },
            Body::Debug { id, program, args } => BodyView::Debug { id: id@, program: program@, args: texts(args@) },
        }
    }
}

fn copy_texts(v: &Vec<String>) -> (r: Vec<String>)
    ensures
        texts(r@) == texts(v@),
{
    let mut out: Vec<String> = Vec::new();
    let mut i: usize = 0;
    while i < v.len()
        invariant
            i <= v.len(),
            texts(out@) == texts(v@.subrange(0, i as int)),
        decreases v.len() - i,
    {
        let ghost before = out@;
        out.push(v[i].clone());
        proof {
            assert(texts(out@) =~= texts(before).push(v@[i as int]@));
            assert(texts(v@.subrange(0, i + 1)) =~= texts(v@.subrange(0, i as int)).push(v@[i as int]@));
        }
        i = i + 1;
    }
    proof {
        assert(v@.subrange(0, v.len() as int) =~= v@);
    }
    out
}

impl Body {
    /// Returns a copy of this message.
    pub fn duplicate(&self) -> (r: Body)
        ensures
            r@ == self@,
    {
        match self {
            Body::Welcome { role } => Body::Welcome { role: *role },
            Body::State { id, state, detail } => Body::State {
                id: match id {
                    Some(id) => Some(id.clone()),
                    None => None,
                },
                state: *state,
                detail: detail.clone(),
            },
            Body::Transcript { entry } => Body::Transcript { entry: entry.duplicate() },
            Body::Done { id } => Body::Done { id: id.clone() },
            Body::Refused { id, code, detail } => Body::Refused {
                id: id.clone(),
                code: code.clone(),
                detail: detail.clone(),
            },
            Body::Debug { id, program, args } => Body::Debug {
                id: id.clone(),
                program: program.clone(),
                args: copy_texts(args),
            },
        }
    }
}

/// The wire name of one message.
pub open spec fn body_name(b: BodyView) -> Seq<char> {
    match b {
        BodyView::Welcome { .. } => "welcome"@,
        BodyView::State { .. } => "state"@,
        BodyView::Transcript { .. } => "transcript"@,
        BodyView::Done { .. } => "ok"@,
        BodyView::Refused { .. } => "refused"@,
        BodyView::Debug { .. } => "debug"@,
    }
}

impl Body {
    /// Returns the wire name of this message.
    pub fn name(&self) -> (r: &'static str)
        ensures
            r@ == body_name(self@),
    {
        match self {
            Body::Welcome { .. } => "welcome",
            Body::State { .. } => "state",
            Body::Transcript { .. } => "transcript",
            Body::Done { .. } => "ok",
            Body::Refused { .. } => "refused",
            Body::Debug { .. } => "debug",
        }
    }
}

/// One command the service sends the agent.
#[derive(Debug, Clone, PartialEq, Eq)]
pub enum Request {
    /// Which session the agent is on, and whether it is running.
    GetState,
    /// A user message: a prompt when the agent is idle, a steer when it is
    /// working.
    Prompt { message: String, steer: bool },
    /// End the current run.
    Abort,
}

/// One command the service sends the agent, as texts.
#[verifier::ext_equal]
pub enum RequestView {
    GetState,
    Prompt { message: Seq<char>, steer: bool },
    Abort,
}

impl View for Request {
    type V = RequestView;

    open spec fn view(&self) -> RequestView {
        match self {
            Request::GetState => RequestView::GetState,
            Request::Prompt { message, steer } => RequestView::Prompt { message: message@, steer: *steer },
            Request::Abort => RequestView::Abort,
        }
    }
}

/// What the loop around the service does next.
#[derive(Debug, Clone, PartialEq, Eq)]
pub enum Effect {
    /// Put one message in one client's outbox; a client whose outbox is full
    /// or gone is reported back with [`Service::dropped`], and nothing more
    /// is sent to it.
    Send { client: u64, body: Body },
    /// Close the outbox of a frontend another one replaced.
    Disconnect { client: u64 },
    /// Start the agent, and report how that went with [`Service::started`]
    /// or [`Service::failed_to_start`].
    Start,
    /// Stop the agent that was running.
    Stop,
    /// Write one correlated command to the agent, and report a write that
    /// failed with [`Service::forward_failed`].
    Forward { correlation: String, request: Request },
    /// Answer one extension dialog as cancelled.
    CancelDialog { id: String },
    /// Wait [`RESTART_DELAY_MILLIS`], then ask [`Service::start_agent`] again.
    Retry,
}

/// What the loop around the service does next, as texts.
#[verifier::ext_equal]
pub enum EffectView {
    Send { client: u64, body: BodyView },
    Disconnect { client: u64 },
    Start,
    Stop,
    Forward { correlation: Seq<char>, request: RequestView },
    CancelDialog { id: Seq<char> },
    Retry,
}

impl View for Effect {
    type V = EffectView;

    open spec fn view(&self) -> EffectView {
        match self {
            Effect::Send { client, body } => EffectView::Send { client: *client, body: body@ },
            Effect::Disconnect { client } => EffectView::Disconnect { client: *client },
            Effect::Start => EffectView::Start,
            Effect::Stop => EffectView::Stop,
            Effect::Forward { correlation, request } => EffectView::Forward {
                correlation: correlation@,
                request: request@,
            },
            Effect::CancelDialog { id } => EffectView::CancelDialog { id: id@ },
            Effect::Retry => EffectView::Retry,
        }
    }
}

/// The effects a loop was handed, as views.
pub open spec fn effects_view(v: Seq<Effect>) -> Seq<EffectView> {
    v.map_values(|e: Effect| e@)
}

fn emit(effects: &mut Vec<Effect>, e: Effect)
    ensures
        effects_view(final(effects)@) == effects_view(old(effects)@).push(e@),
{
    let ghost before = effects@;
    effects.push(e);
    proof {
        assert(effects_view(effects@) =~= effects_view(before).push(e@));
    }
}

/// One event from the agent's stream, as far as the service reads it.
#[derive(Debug, Clone, PartialEq, Eq)]
pub enum AgentEvent {
    /// The answer to one command: the session it reports, when it reports
    /// one, and whether a run is in progress.
    Response {
        id: Option<String>,
        success: bool,
        error: Option<String>,
        session_file: Option<String>,
        streaming: bool,
    },
    /// A run started.
    AgentStart,
    /// A run settled.
    AgentSettled,
    /// A message ended; the line it makes in the conversation, if any.
    MessageEnd { entry: Option<TranscriptEntry> },
    /// An extension asked for the user interface, as a dialog or not.
    ExtensionUiRequest { id: String, dialog: bool },
    /// An extension failed.
    ExtensionError,
    /// Anything else.
    Other,
}

/// One command sent to the agent that a client is waiting on the answer to,
/// by its correlation number.
#[derive(Debug)]
pub struct Waiting {
    number: u64,
    client: u64,
    id: String,
}

/// One waiting command, as values.
#[verifier::ext_equal]
pub struct WaitingView {
    pub number: u64,
    pub client: u64,
    pub id: Seq<char>,
}

impl View for Waiting {
    type V = WaitingView;

    closed spec fn view(&self) -> WaitingView {
        WaitingView { number: self.number, client: self.client, id: self.id@ }
    }
}

/// The correlation identifier of one command the service sent.
pub open spec fn correlation(number: u64) -> Seq<char> {
    "c-"@ + decimal(number as nat)
}

/// Everything the service has to agree with itself about.
#[verifier::ext_equal]
pub struct ServiceView {
    /// Whether an agent is running.
    pub running: bool,
    /// Which agent run the current reader belongs to.
    pub generation: u64,
    /// Quick deaths in a row.
    pub failures: u32,
    pub state: Condition,
    pub detail: Seq<char>,
    pub session_file: Option<Seq<char>>,
    pub transcript: Seq<EntryView>,
    /// The connected clients, oldest first.
    pub clients: Seq<(u64, Role)>,
    /// The connection holding the debug lease, when one does.
    pub lease: Option<u64>,
    /// The commands clients are waiting on, oldest first.
    pub pending: Seq<WaitingView>,
    pub commands: u64,
    pub stopping: bool,
    /// The agent program, which a debug lease hands out.
    pub program: Seq<char>,
    /// The session directory, which a debug lease hands out.
    pub session_dir: Seq<char>,
}

/// The role a client said hello as, if it is connected.
pub open spec fn role_of(clients: Seq<(u64, Role)>, client: u64) -> Option<Role>
    decreases clients.len(),
{
    if clients.len() == 0 {
        None
    } else if clients.last().0 == client {
        Some(clients.last().1)
    } else {
        role_of(clients.drop_last(), client)
    }
}

/// The clients without one of them.
pub open spec fn without(clients: Seq<(u64, Role)>, client: u64) -> Seq<(u64, Role)> {
    clients.filter(|c: (u64, Role)| c.0 != client)
}

/// The frontends among the clients, oldest first.
pub open spec fn frontends(clients: Seq<(u64, Role)>) -> Seq<u64>
    decreases clients.len(),
{
    if clients.len() == 0 {
        Seq::empty()
    } else if clients.last().1 == Role::Frontend {
        frontends(clients.drop_last()).push(clients.last().0)
    } else {
        frontends(clients.drop_last())
    }
}

/// One message to one client, if it is connected.
pub open spec fn send_to(clients: Seq<(u64, Role)>, client: u64, body: BodyView) -> Seq<EffectView> {
    if role_of(clients, client) is Some {
        seq![EffectView::Send { client, body }]
    } else {
        Seq::empty()
    }
}

/// One message to every frontend.
pub open spec fn to_frontends(clients: Seq<(u64, Role)>, body: BodyView) -> Seq<EffectView> {
    frontends(clients).map_values(|client: u64| EffectView::Send { client, body })
}

/// A new state, told to the frontends if anything changed. A held lease owns
/// the state: nothing but detached is recorded while one is held.
pub open spec fn with_state(s: ServiceView, state: Condition, detail: Seq<char>) -> (ServiceView, Seq<EffectView>) {
    if (s.lease is Some && state != Condition::Detached) || (s.state == state && s.detail == detail) {
        (s, Seq::empty())
    } else {
        (
            ServiceView { state, detail, ..s },
            to_frontends(s.clients, BodyView::State { id: None, state, detail }),
        )
    }
}

/// The refusals every waiting client is owed when the agent goes away.
pub open spec fn failing(clients: Seq<(u64, Role)>, pending: Seq<WaitingView>, detail: Seq<char>) -> Seq<EffectView>
    decreases pending.len(),
{
    if pending.len() == 0 {
        Seq::empty()
    } else {
        failing(clients, pending.drop_last(), detail) + send_to(
            clients,
            pending.last().client,
            BodyView::Refused { id: pending.last().id, code: AGENT_UNAVAILABLE@, detail },
        )
    }
}

/// Every waiting command answered as refused, and forgotten.
pub open spec fn fail_all(s: ServiceView, detail: Seq<char>) -> (ServiceView, Seq<EffectView>) {
    (ServiceView { pending: Seq::empty(), ..s }, failing(s.clients, s.pending, detail))
}

/// Whether the service holds together: the lease owns the state, there is at
/// most one frontend, each client once, a screenful of conversation, and
/// every waiting command under a number the service handed out, oldest first.
pub open spec fn coherent(s: ServiceView) -> bool {
    &&& s.lease is Some ==> s.state == Condition::Detached
    &&& frontends(s.clients).len() <= 1
    &&& forall|i: int, j: int| 0 <= i < j < s.clients.len() ==> s.clients[i].0 != s.clients[j].0
    &&& s.transcript.len() <= TRANSCRIPT_ENTRIES
    &&& forall|i: int| 0 <= i < s.pending.len() ==> 1 <= #[trigger] s.pending[i].number <= s.commands
    &&& forall|i: int, j: int| 0 <= i < j < s.pending.len() ==> s.pending[i].number < s.pending[j].number
}

/// The clients that stay when `client` connects as `role`: every other
/// client, less the frontends when the newcomer is one. Also, as a control
/// client, the clients without `client`.
pub open spec fn remaining(clients: Seq<(u64, Role)>, client: u64, role: Role) -> Seq<(u64, Role)>
    decreases clients.len(),
{
    if clients.len() == 0 {
        Seq::empty()
    } else {
        let rest = remaining(clients.drop_last(), client, role);
        let c = clients.last();
        if c.0 != client && (role == Role::Control || c.1 != Role::Frontend) {
            rest.push(c)
        } else {
            rest
        }
    }
}

/// The frontends a newcomer connecting as `role` takes the place of.
pub open spec fn displaced(clients: Seq<(u64, Role)>, client: u64, role: Role) -> Seq<EffectView>
    decreases clients.len(),
{
    if clients.len() == 0 {
        Seq::empty()
    } else {
        let rest = displaced(clients.drop_last(), client, role);
        let c = clients.last();
        if c.0 != client && role == Role::Frontend && c.1 == Role::Frontend {
            rest.push(EffectView::Disconnect { client: c.0 })
        } else {
            rest
        }
    }
}

/// Where the command under a correlation identifier waits, looking from
/// position `from` on.
pub open spec fn find_waiting(pending: Seq<WaitingView>, id: Seq<char>, from: int) -> Option<int>
    decreases pending.len() - from,
{
    if from < 0 || from >= pending.len() {
        None
    } else if correlation(pending[from].number) == id {
        Some(from)
    } else {
        find_waiting(pending, id, from + 1)
    }
}

/// A fresh service, before any agent has run or any client has connected.
pub open spec fn initial(program: Seq<char>, session_dir: Seq<char>) -> ServiceView {
    ServiceView {
        running: false,
        generation: 0,
        failures: 0,
        state: Condition::Starting,
        detail: Seq::empty(),
        session_file: None,
        transcript: Seq::empty(),
        clients: Seq::empty(),
        lease: None,
        pending: Seq::empty(),
        commands: 0,
        stopping: false,
        program,
        session_dir,
    }
}

/// Asked to start the agent: only when none runs, no lease holds it, and the
/// service is not going down; a start is a new generation.
pub open spec fn on_start(s: ServiceView) -> (ServiceView, Seq<EffectView>) {
    if s.stopping || s.lease is Some || s.running {
        (s, Seq::empty())
    } else {
        (ServiceView { generation: (s.generation + 1) as u64, ..s }, seq![EffectView::Start])
    }
}

/// The agent started: it is asked which session it is on.
pub open spec fn on_started(s: ServiceView) -> (ServiceView, Seq<EffectView>) {
    let (t, e) = with_state(ServiceView { running: true, ..s }, Condition::Starting, Seq::empty());
    (t, e.push(EffectView::Forward { correlation: BOOT@, request: RequestView::GetState }))
}

/// The agent would not start: one more failure, reported as the error.
pub open spec fn on_start_failed(s: ServiceView, error: Seq<char>) -> (ServiceView, Seq<EffectView>) {
    with_state(
        ServiceView { failures: (s.failures + 1) as u32, ..s },
        Condition::Error,
        "the agent would not start: "@ + error,
    )
}

/// A text, or the words that stand in for it.
pub open spec fn or_words(o: Option<String>, words: Seq<char>) -> Seq<char> {
    match o {
        Some(s) => s@,
        None => words,
    }
}

/// One event from the agent.
pub open spec fn on_event(s: ServiceView, event: AgentEvent) -> (ServiceView, Seq<EffectView>) {
    match event {
        AgentEvent::Response { id: Some(id), success, error, session_file, streaming } => if id@ == BOOT@ {
            if !success {
                with_state(s, Condition::Error, or_words(error, "the agent refused to say"@))
            } else {
                with_state(
                    ServiceView { session_file: opt_text(session_file), failures: 0, ..s },
                    if streaming {
                        Condition::Working
                    } else {
                        Condition::Idle
                    },
                    Seq::empty(),
                )
            }
        } else {
            match find_waiting(s.pending, id@, 0) {
                None => (s, Seq::empty()),
                Some(i) => {
                    let w = s.pending[i];
                    (
                        ServiceView { pending: s.pending.remove(i), ..s },
                        send_to(
                            s.clients,
                            w.client,
                            if success {
                                BodyView::Done { id: w.id }
                            } else {
                                BodyView::Refused {
                                    id: w.id,
                                    code: AGENT_REFUSED@,
                                    detail: or_words(error, "the agent refused it"@),
                                }
                            },
                        ),
                    )
                },
            }
        },
        AgentEvent::Response { id: None, .. } => (s, Seq::empty()),
        AgentEvent::AgentStart => with_state(s, Condition::Working, Seq::empty()),
        AgentEvent::AgentSettled => with_state(s, Condition::Idle, Seq::empty()),
        AgentEvent::MessageEnd { entry: Some(entry) } => {
            let kept = if s.transcript.len() == TRANSCRIPT_ENTRIES {
                s.transcript.drop_first()
            } else {
                s.transcript
            };
            (
                ServiceView { transcript: kept.push(entry@), ..s },
                to_frontends(s.clients, BodyView::Transcript { entry: entry@ }),
            )
        },
        AgentEvent::MessageEnd { entry: None } => (s, Seq::empty()),
        AgentEvent::ExtensionUiRequest { id, dialog } => if dialog && s.running {
            (s, seq![EffectView::CancelDialog { id: id@ }])
        } else {
            (s, Seq::empty())
        },
        AgentEvent::ExtensionError => (s, Seq::empty()),
        AgentEvent::Other => (s, Seq::empty()),
    }
}

/// The agent of one generation ended, after running `ran` milliseconds.
/// Everyone waiting is refused; unless the service is going down or a lease
/// holds the session, the agent is started again, until it has died quickly
/// [`MAX_FAILURES`] times in a row.
pub open spec fn on_ended(s: ServiceView, generation: u64, ran: u64) -> (ServiceView, Seq<EffectView>) {
    if generation != s.generation {
        (s, Seq::empty())
    } else {
        let (t, e1) = fail_all(ServiceView { running: false, ..s }, "the agent stopped"@);
        let e2 = if s.running {
            e1.push(EffectView::Stop)
        } else {
            e1
        };
        if s.stopping || s.lease is Some {
            (t, e2)
        } else {
            let f = (if ran >= HEALTHY_MILLIS {
                0
            } else {
                s.failures as int
            }) + 1;
            let t2 = ServiceView { failures: f as u32, ..t };
            if f >= MAX_FAILURES {
                let (t3, e3) = with_state(
                    t2,
                    Condition::Error,
                    "the agent stopped "@ + decimal(f as nat) + " times in a row"@,
                );
                (t3, e2 + e3)
            } else {
                let (t3, e3) = with_state(t2, Condition::Starting, "the agent is restarting"@);
                (t3, e2 + e3.push(EffectView::Retry))
            }
        }
    }
}

/// One client connected and said hello as `role`: it is welcomed, and a
/// frontend, which takes the place of any other, is handed the state and the
/// conversation.
pub open spec fn on_register(s: ServiceView, client: u64, role: Role) -> (ServiceView, Seq<EffectView>) {
    let clients = remaining(s.clients, client, role).push((client, role));
    let welcome = seq![EffectView::Send { client, body: BodyView::Welcome { role } }];
    let owed = if role == Role::Frontend {
        seq![
            EffectView::Send {
                client,
                body: BodyView::State { id: None, state: s.state, detail: s.detail },
            },
        ] + s.transcript.map_values(
            |entry: EntryView| EffectView::Send { client, body: BodyView::Transcript { entry } },
        )
    } else {
        Seq::empty()
    };
    (ServiceView { clients, ..s }, displaced(s.clients, client, role) + welcome + owed)
}

/// One client went away. The lease is the connection: when the client that
/// held it goes, the agent comes back.
pub open spec fn on_unregister(s: ServiceView, client: u64) -> (ServiceView, Seq<EffectView>) {
    let t = ServiceView { clients: remaining(s.clients, client, Role::Control), ..s };
    if s.lease == Some(client) {
        on_start(ServiceView { lease: None, ..t })
    } else {
        (t, Seq::empty())
    }
}

/// One correlated command for the agent on behalf of a client. While a
/// terminal holds the session, and while no agent runs, it is refused.
pub open spec fn on_command(s: ServiceView, client: u64, id: Seq<char>, request: RequestView) -> (ServiceView, Seq<EffectView>) {
    if s.lease is Some {
        (s, send_to(s.clients, client, BodyView::Refused { id, code: DETACHED@, detail: "a terminal has the session"@ }))
    } else if !s.running {
        (s, send_to(s.clients, client, BodyView::Refused { id, code: AGENT_UNAVAILABLE@, detail: "the agent is not running"@ }))
    } else {
        let n = (s.commands + 1) as u64;
        (
            ServiceView { commands: n, pending: s.pending.push(WaitingView { number: n, client, id }), ..s },
            seq![EffectView::Forward { correlation: correlation(n), request }],
        )
    }
}

/// The command line that resumes the session in a terminal.
pub open spec fn resume_args(session_dir: Seq<char>, session_file: Option<Seq<char>>) -> Seq<Seq<char>> {
    match session_file {
        Some(file) => seq!["--session-dir"@, session_dir, "--session"@, file],
        None => seq!["--session-dir"@, session_dir, "--continue"@],
    }
}

/// A control client asks for the session: the agent is stopped, everyone
/// waiting is refused, every frontend is told the conversation is detached,
/// and the client is handed the command line that resumes the session.
pub open spec fn on_debug(s: ServiceView, client: u64, id: Seq<char>) -> (ServiceView, Seq<EffectView>) {
    if s.lease is Some {
        (s, send_to(s.clients, client, BodyView::Refused { id, code: DEBUG_HELD@, detail: "a terminal already has the session"@ }))
    } else if role_of(s.clients, client) != Some(Role::Control) {
        (s, send_to(s.clients, client, BodyView::Refused { id, code: WRONG_ROLE@, detail: "only a control client may take the session"@ }))
    } else {
        let (t1, e1) = fail_all(ServiceView { lease: Some(client), running: false, ..s }, "a terminal took the session"@);
        let (t2, e2) = with_state(t1, Condition::Detached, "a terminal has the session"@);
        let e3 = if s.running {
            seq![EffectView::Stop]
        } else {
            Seq::empty()
        };
        (
            t2,
            e1 + e2 + e3 + send_to(
                t2.clients,
                client,
                BodyView::Debug { id, program: s.program, args: resume_args(s.session_dir, s.session_file) },
            ),
        )
    }
}

/// A command the agent would not take: it is no longer waited on, and the
/// client is told why.
pub open spec fn on_forward_failed(s: ServiceView, client: u64, id: Seq<char>, correlation: Seq<char>, error: Seq<char>) -> (ServiceView, Seq<EffectView>) {
    let pending = match find_waiting(s.pending, correlation, 0) {
        Some(i) => s.pending.remove(i),
        None => s.pending,
    };
    (
        ServiceView { pending, ..s },
        send_to(
            s.clients,
            client,
            BodyView::Refused { id, code: AGENT_UNAVAILABLE@, detail: "the agent would not take it: "@ + error },
        ),
    )
}

/// The service is going down: the agent stops for good.
pub open spec fn on_shutdown(s: ServiceView) -> (ServiceView, Seq<EffectView>) {
    let (t, e) = fail_all(ServiceView { stopping: true, running: false, ..s }, "the service is stopping"@);
    (t, if s.running {
        e.push(EffectView::Stop)
    } else {
        e
    })
}

pub proof fn lemma_remaining(clients: Seq<(u64, Role)>, client: u64, role: Role)
    requires
        forall|i: int, j: int| 0 <= i < j < clients.len() ==> clients[i].0 != clients[j].0,
    ensures
        ({
            let r = remaining(clients, client, role);
            &&& forall|i: int| 0 <= i < r.len() ==> r[i].0 != client
            &&& forall|i: int| 0 <= i < r.len() ==> exists|j: int| 0 <= j < clients.len() && clients[j].0 == #[trigger] r[i].0
            &&& forall|i: int, j: int| 0 <= i < j < r.len() ==> r[i].0 != r[j].0
            &&& role == Role::Frontend ==> frontends(r).len() == 0
            &&& frontends(r).len() <= frontends(clients).len()
        }),
    decreases clients.len(),
{
    if clients.len() > 0 {
        let d = clients.drop_last();
        lemma_remaining(d, client, role);
        let rest = remaining(d, client, role);
        let c = clients.last();
        let r = remaining(clients, client, role);
        assert(rest.push(c).drop_last() =~= rest);
        if r.len() > rest.len() {
            assert(r == rest.push(c));
            assert(frontends(r) == if c.1 == Role::Frontend {
                frontends(rest).push(c.0)
            } else {
                frontends(rest)
            });
        }
        assert forall|i: int| 0 <= i < r.len() implies exists|j: int| 0 <= j < clients.len() && clients[j].0 == #[trigger] r[i].0 by {
            if i < rest.len() {
                let j = choose|j: int| 0 <= j < d.len() && d[j].0 == rest[i].0;
                assert(clients[j].0 == r[i].0);
            } else {
                assert(clients[clients.len() - 1].0 == r[i].0);
            }
        }
        assert forall|i: int, j: int| 0 <= i < j < r.len() implies r[i].0 != r[j].0 by {
            if j == rest.len() {
                let k = choose|k: int| 0 <= k < d.len() && d[k].0 == rest[i].0;
                assert(clients[k].0 != clients[clients.len() - 1].0);
            }
        }
    }
}

proof fn lemma_with_state(s: ServiceView, state: Condition, detail: Seq<char>)
    requires
        coherent(s),
    ensures
        coherent(with_state(s, state, detail).0),
        with_state(s, state, detail).0.clients == s.clients,
        with_state(s, state, detail).0.pending == s.pending,
        with_state(s, state, detail).0.lease == s.lease,
{
    let t = with_state(s, state, detail).0;
    assert(t.clients == s.clients);
    assert(t.pending == s.pending);
    assert(t.transcript == s.transcript);
}

proof fn lemma_fail_all(s: ServiceView, detail: Seq<char>)
    requires
        coherent(s),
    ensures
        coherent(fail_all(s, detail).0),
{
}

proof fn lemma_pending_remove(s: ServiceView, i: int)
    requires
        coherent(s),
        0 <= i < s.pending.len(),
    ensures
        coherent(ServiceView { pending: s.pending.remove(i), ..s }),
{
    let p = s.pending.remove(i);
    assert forall|a: int, b: int| 0 <= a < b < p.len() implies p[a].number < p[b].number by {
        let a0 = if a < i { a } else { a + 1 };
        let b0 = if b < i { b } else { b + 1 };
        assert(p[a] == s.pending[a0]);
        assert(p[b] == s.pending[b0]);
    }
    assert forall|a: int| 0 <= a < p.len() implies 1 <= #[trigger] p[a].number <= s.commands by {
        let a0 = if a < i { a } else { a + 1 };
        assert(p[a] == s.pending[a0]);
    }
}

/// The running service.
pub struct Service {
    running: bool,
    generation: u64,
    failures: u32,
    state: Condition,
    detail: String,
    session_file: Option<String>,
    transcript: Vec<TranscriptEntry>,
    clients: Vec<(u64, Role)>,
    lease: Option<u64>,
    pending: Vec<Waiting>,
    commands: u64,
    stopping: bool,
    program: String,
    session_dir: String,
}

/// The lines of a conversation, as texts.
pub open spec fn entries(v: Seq<TranscriptEntry>) -> Seq<EntryView> {
    v.map_values(|e: TranscriptEntry| e@)
}

/// The waiting commands, as values.
pub open spec fn waiting(v: Seq<Waiting>) -> Seq<WaitingView> {
    v.map_values(|w: Waiting| w@)
}

impl View for Service {
    type V = ServiceView;

    closed spec fn view(&self) -> ServiceView {
        ServiceView {
            running: self.running,
            generation: self.generation,
            failures: self.failures,
            state: self.state,
            detail: self.detail@,
            session_file: opt_text(self.session_file),
            transcript: entries(self.transcript@),
            clients: self.clients@,
            lease: self.lease,
            pending: waiting(self.pending@),
            commands: self.commands,
            stopping: self.stopping,
            program: self.program@,
            session_dir: self.session_dir@,
        }
    }
}

fn nothing() -> (r: Vec<Effect>)
    ensures
        effects_view(r@) == Seq::<EffectView>::empty(),
{
    let v: Vec<Effect> = Vec::new();
    proof {
        assert(effects_view(v@) =~= Seq::<EffectView>::empty());
    }
    v
}

impl Service {
    fn role_in(&self, client: u64) -> (r: Option<Role>)
        ensures
            r == role_of(self@.clients, client),
    {
        let mut i: usize = self.clients.len();
        proof {
            assert(self.clients@.subrange(0, i as int) =~= self.clients@);
        }
        while i > 0
            invariant
                i <= self.clients@.len(),
                role_of(self.clients@, client) == role_of(self.clients@.subrange(0, i as int), client),
            decreases i,
        {
            let (id, role) = self.clients[i - 1];
            proof {
                let upto = self.clients@.subrange(0, i as int);
                assert(upto.drop_last() =~= self.clients@.subrange(0, i - 1));
                assert(upto.last() == (id, role));
            }
            if id == client {
                return Some(role);
            }
            i = i - 1;
        }
        None
    }

    fn send_to(&self, effects: &mut Vec<Effect>, client: u64, body: Body)
        ensures
            effects_view(final(effects)@) == effects_view(old(effects)@) + send_to(self@.clients, client, body@),
    {
        let ghost before = effects_view(effects@);
        if self.role_in(client).is_some() {
            emit(effects, Effect::Send { client, body });
            proof {
                assert(effects_view(effects@) =~= before + send_to(self@.clients, client, body@));
            }
        } else {
            proof {
                assert(effects_view(effects@) =~= before + send_to(self@.clients, client, body@));
            }
        }
    }

    fn to_frontends(&self, effects: &mut Vec<Effect>, body: &Body)
        ensures
            effects_view(final(effects)@) == effects_view(old(effects)@) + to_frontends(self@.clients, body@),
    {
        let ghost before = effects_view(effects@);
        let n = self.clients.len();
        let mut i: usize = 0;
        while i < n
            invariant
                n == self.clients@.len(),
                i <= n,
                effects_view(effects@) == before + to_frontends(self.clients@.subrange(0, i as int), body@),
            decreases n - i,
        {
            let (id, role) = self.clients[i];
            let ghost upto = self.clients@.subrange(0, i + 1);
            proof {
                assert(upto.drop_last() =~= self.clients@.subrange(0, i as int));
                assert(upto.last() == (id, role));
            }
            if role == Role::Frontend {
                emit(effects, Effect::Send { client: id, body: body.duplicate() });
                proof {
                    assert(frontends(upto) == frontends(self.clients@.subrange(0, i as int)).push(id));
                    assert(to_frontends(upto, body@) =~= to_frontends(self.clients@.subrange(0, i as int), body@).push(
                        EffectView::Send { client: id, body: body@ },
                    ));
                    assert(effects_view(effects@) =~= before + to_frontends(upto, body@));
                }
            } else {
                proof {
                    assert(frontends(upto) == frontends(self.clients@.subrange(0, i as int)));
                }
            }
            i = i + 1;
        }
        proof {
            assert(self.clients@.subrange(0, n as int) =~= self.clients@);
        }
    }
    fn set_state(&mut self, effects: &mut Vec<Effect>, state: Condition, detail: String)
        ensures
            final(self)@ == with_state(old(self)@, state, detail@).0,
            effects_view(final(effects)@) == effects_view(old(effects)@) + with_state(old(self)@, state, detail@).1,
            coherent(old(self)@) ==> coherent(final(self)@),
    {
        proof {
            if coherent(self@) {
                lemma_with_state(self@, state, detail@);
            }
        }
        let ghost before = effects_view(effects@);
        if (self.lease.is_some() && state != Condition::Detached) || (self.state == state && same(
            self.detail.as_str(),
            detail.as_str(),
        )) {
            proof {
                assert(effects_view(effects@) =~= before + Seq::<EffectView>::empty());
            }
            return;
        }
        self.state = state;
        self.detail = detail.clone();
        let body = Body::State { id: None, state, detail };
        self.to_frontends(effects, &body);
    }

    fn fail_pending(&mut self, effects: &mut Vec<Effect>, detail: &str)
        ensures
            final(self)@ == fail_all(old(self)@, detail@).0,
            effects_view(final(effects)@) == effects_view(old(effects)@) + fail_all(old(self)@, detail@).1,
            coherent(old(self)@) ==> coherent(final(self)@),
    {
        proof {
            if coherent(self@) {
                lemma_fail_all(self@, detail@);
            }
        }
        let ghost before = effects_view(effects@);
        let mut pending: Vec<Waiting> = Vec::new();
        std::mem::swap(&mut pending, &mut self.pending);
        proof {
            assert(waiting(self.pending@) =~= Seq::<WaitingView>::empty());
        }
        let n = pending.len();
        let mut i: usize = 0;
        while i < n
            invariant
                n == pending@.len(),
                i <= n,
                self@ == (ServiceView { pending: Seq::empty(), ..old(self)@ }),
                waiting(pending@) == old(self)@.pending,
                effects_view(effects@) == before + failing(self@.clients, waiting(pending@.subrange(0, i as int)), detail@),
            decreases n - i,
        {
            let ghost upto = waiting(pending@.subrange(0, i + 1));
            proof {
                assert(upto.drop_last() =~= waiting(pending@.subrange(0, i as int)));
                assert(upto.last() == pending@[i as int]@);
            }
            let client = pending[i].client;
            let body = Body::Refused {
                id: pending[i].id.clone(),
                code: AGENT_UNAVAILABLE.to_owned(),
                detail: detail.to_owned(),
            };
            self.send_to(effects, client, body);
            proof {
                assert(effects_view(effects@) =~= before + failing(self@.clients, upto, detail@));
            }
            i = i + 1;
        }
        proof {
            assert(pending@.subrange(0, n as int) =~= pending@);
        }
    }
}

/// Returns the correlation identifier of one command the service sent.
fn correlation_text(number: u64) -> (r: String)
    ensures
        r@ == correlation(number),
{
    let mut out = "c-".to_owned();
    push_decimal(&mut out, number);
    out
}

impl Service {
    fn find(&self, id: &str) -> (r: Option<usize>)
        ensures
            match r {
                Some(i) => find_waiting(self@.pending, id@, 0) == Some(i as int) && i < self@.pending.len(),
                None => find_waiting(self@.pending, id@, 0) is None,
            },
    {
        let n = self.pending.len();
        let mut i: usize = 0;
        while i < n
            invariant
                n == self@.pending.len(),
                i <= n,
                find_waiting(self@.pending, id@, 0) == find_waiting(self@.pending, id@, i as int),
            decreases n - i,
        {
            let c = correlation_text(self.pending[i].number);
            proof {
                assert(self@.pending[i as int] == self.pending@[i as int]@);
            }
            if same(c.as_str(), id) {
                return Some(i);
            }
            i = i + 1;
        }
        None
    }
}

impl Service {
    /// Creates a service with no agent running, for one agent program and
    /// session directory.
    pub fn new(program: String, session_dir: String) -> (r: Service)
        ensures
            r@ == initial(program@, session_dir@),
            coherent(r@),
    {
        let r = Service {
            running: false,
            generation: 0,
            failures: 0,
            state: Condition::Starting,
            detail: String::new(),
            session_file: None,
            transcript: Vec::new(),
            clients: Vec::new(),
            lease: None,
            pending: Vec::new(),
            commands: 0,
            stopping: false,
            program,
            session_dir,
        };
        proof {
            assert(entries(r.transcript@) =~= Seq::<EntryView>::empty());
            assert(waiting(r.pending@) =~= Seq::<WaitingView>::empty());
            assert(r@ =~= initial(program@, session_dir@));
        }
        r
    }

    /// Which agent run the current reader belongs to.
    pub fn generation(&self) -> (r: u64)
        ensures
            r == self@.generation,
    {
        self.generation
    }

    /// How many times in a row the agent died quickly or would not start.
    pub fn failures(&self) -> (r: u32)
        ensures
            r == self@.failures,
    {
        self.failures
    }

    /// How many correlated commands were sent to the agent so far.
    pub fn commands(&self) -> (r: u64)
        ensures
            r == self@.commands,
    {
        self.commands
    }

    /// What Scufris is doing.
    pub fn state(&self) -> (r: Condition)
        ensures
            r == self@.state,
    {
        self.state
    }

    /// Why, when there is something to say about it.
    pub fn detail(&self) -> (r: &str)
        ensures
            r@ == self@.detail,
    {
        self.detail.as_str()
    }

    /// The session file the agent said it is on.
    pub fn session_file(&self) -> (r: Option<&str>)
        ensures
            match r {
                Some(f) => self@.session_file == Some(f@),
                None => self@.session_file is None,
            },
    {
        match &self.session_file {
            Some(f) => Some(f.as_str()),
            None => None,
        }
    }

    /// The connection holding the debug lease, when one does.
    pub fn lease(&self) -> (r: Option<u64>)
        ensures
            r == self@.lease,
    {
        self.lease
    }

    /// The conversation a connecting frontend is handed, oldest first.
    pub fn transcript(&self) -> (r: &[TranscriptEntry])
        ensures
            entries(r@) == self@.transcript,
    {
        self.transcript.as_slice()
    }

    /// Whether one client is connected.
    pub fn connected(&self, client: u64) -> (r: bool)
        ensures
            r == (role_of(self@.clients, client) is Some),
    {
        self.role_in(client).is_some()
    }

    /// Starts the agent, unless one is running, a lease holds it, or the
    /// service is shutting down.
    pub fn start_agent(&mut self) -> (effects: Vec<Effect>)
        requires
            coherent(old(self)@),
            old(self)@.generation < u64::MAX,
        ensures
            coherent(final(self)@),
            final(self)@ == on_start(old(self)@).0,
            effects_view(effects@) == on_start(old(self)@).1,
    {
        let mut effects = nothing();
        if self.stopping || self.lease.is_some() || self.running {
            return effects;
        }
        self.generation = self.generation + 1;
        proof {
            assert(self@ =~= ServiceView { generation: (old(self)@.generation + 1) as u64, ..old(self)@ });
        }
        emit(&mut effects, Effect::Start);
        proof {
            assert(effects_view(effects@) =~= seq![EffectView::Start]);
        }
        effects
    }

    /// The agent started: it is asked which session it is on.
    pub fn started(&mut self) -> (effects: Vec<Effect>)
        requires
            coherent(old(self)@),
        ensures
            coherent(final(self)@),
            final(self)@ == on_started(old(self)@).0,
            effects_view(effects@) == on_started(old(self)@).1,
    {
        let mut effects = nothing();
        self.running = true;
        proof {
            assert(self@ =~= ServiceView { running: true, ..old(self)@ });
        }
        self.set_state(&mut effects, Condition::Starting, String::new());
        proof {
            reveal_strlit("boot");
        }
        emit(&mut effects, Effect::Forward { correlation: BOOT.to_owned(), request: Request::GetState });
        effects
    }

    /// The agent would not start, for the reason given.
    pub fn failed_to_start(&mut self, error: &str) -> (effects: Vec<Effect>)
        requires
            coherent(old(self)@),
            old(self)@.failures < u32::MAX,
        ensures
            coherent(final(self)@),
            final(self)@ == on_start_failed(old(self)@, error@).0,
            effects_view(effects@) == on_start_failed(old(self)@, error@).1,
    {
        let mut effects = nothing();
        self.failures = self.failures + 1;
        proof {
            assert(self@ =~= ServiceView { failures: (old(self)@.failures + 1) as u32, ..old(self)@ });
        }
        let mut detail = "the agent would not start: ".to_owned();
        detail.append(error);
        self.set_state(&mut effects, Condition::Error, detail);
        proof {
            assert(effects_view(effects@) =~= on_start_failed(old(self)@, error@).1);
        }
        effects
    }
}

impl Service {
    /// Applies one event from the agent.
    #[verifier::rlimit(40)]
    pub fn apply(&mut self, event: AgentEvent) -> (effects: Vec<Effect>)
        requires
            coherent(old(self)@),
        ensures
            coherent(final(self)@),
            final(self)@ == on_event(old(self)@, event).0,
            effects_view(effects@) == on_event(old(self)@, event).1,
    {
        let ghost s = self@;
        let ghost e = event;
        let mut effects = nothing();
        match event {
            AgentEvent::Response { id: Some(id), success, error, session_file, streaming } => {
                proof {
                    reveal_strlit("boot");
                }
                if same(id.as_str(), BOOT) {
                    if !success {
                        let detail = match error {
                            Some(e) => e,
                            None => "the agent refused to say".to_owned(),
                        };
                        self.set_state(&mut effects, Condition::Error, detail);
                    } else {
                        self.session_file = session_file;
                        self.failures = 0;
                        proof {
                            assert(self@ =~= ServiceView { session_file: opt_text(session_file), failures: 0, ..s });
                        }
                        let state = if streaming {
                            Condition::Working
                        } else {
                            Condition::Idle
                        };
                        self.set_state(&mut effects, state, String::new());
                    }
                } else {
                    match self.find(id.as_str()) {
                        None => {},
                        Some(i) => {
                            proof {
                                lemma_pending_remove(s, i as int);
                            }
                            let ghost before = self.pending@;
                            let w = self.pending.remove(i);
                            proof {
                                assert(waiting(self.pending@) =~= waiting(before).remove(i as int));
                                assert(w@ == s.pending[i as int]);
                                assert(self@ =~= ServiceView { pending: s.pending.remove(i as int), ..s });
                            }
                            let body = if success {
                                Body::Done { id: w.id }
                            } else {
                                Body::Refused {
                                    id: w.id,
                                    code: AGENT_REFUSED.to_owned(),
                                    detail: match error {
                                        Some(e) => e,
                                        None => "the agent refused it".to_owned(),
                                    },
                                }
                            };
                            self.send_to(&mut effects, w.client, body);
                        },
                    }
                }
            },
            AgentEvent::Response { id: None, .. } => {},
            AgentEvent::AgentStart => self.set_state(&mut effects, Condition::Working, String::new()),
            AgentEvent::AgentSettled => self.set_state(&mut effects, Condition::Idle, String::new()),
            AgentEvent::MessageEnd { entry: Some(entry) } => {
                let ghost before = self.transcript@;
                if self.transcript.len() == TRANSCRIPT_ENTRIES {
                    self.transcript.remove(0);
                    proof {
                        assert(entries(self.transcript@) =~= entries(before).drop_first());
                    }
                }
                let body = Body::Transcript { entry: entry.duplicate() };
                let ghost middle = self.transcript@;
                self.transcript.push(entry);
                proof {
                    assert(entries(self.transcript@) =~= entries(middle).push(entry@));
                    assert(self@ =~= on_event(s, e).0);
                }
                self.to_frontends(&mut effects, &body);
            },
            AgentEvent::MessageEnd { entry: None } => {},
            AgentEvent::ExtensionUiRequest { id, dialog } => {
                if dialog && self.running {
                    emit(&mut effects, Effect::CancelDialog { id });
                }
            },
            AgentEvent::ExtensionError => {},
            AgentEvent::Other => {},
        }
        proof {
            assert(effects_view(effects@) =~= on_event(s, e).1);
        }
        effects
    }
}

impl Service {
    /// Handles the agent's stream of one generation ending, after it ran
    /// `ran` milliseconds, and decides whether to start again.
    #[verifier::rlimit(40)]
    pub fn agent_ended(&mut self, generation: u64, ran: u64) -> (effects: Vec<Effect>)
        requires
            coherent(old(self)@),
            old(self)@.failures < u32::MAX,
        ensures
            coherent(final(self)@),
            final(self)@ == on_ended(old(self)@, generation, ran).0,
            effects_view(effects@) == on_ended(old(self)@, generation, ran).1,
    {
        let ghost s = self@;
        let mut effects = nothing();
        if generation != self.generation {
            return effects;
        }
        let was_running = self.running;
        self.running = false;
        proof {
            assert(self@ =~= ServiceView { running: false, ..s });
        }
        self.fail_pending(&mut effects, "the agent stopped");
        if was_running {
            emit(&mut effects, Effect::Stop);
        }
        let ghost e2 = effects_view(effects@);
        let ghost t = self@;
        if self.stopping || self.lease.is_some() {
            return effects;
        }
        let counted: u32 = if ran >= HEALTHY_MILLIS {
            0
        } else {
            self.failures
        };
        self.failures = counted + 1;
        proof {
            assert(self@ =~= ServiceView { failures: (counted + 1) as u32, ..t });
        }
        if self.failures >= MAX_FAILURES {
            let mut detail = "the agent stopped ".to_owned();
            push_decimal(&mut detail, self.failures as u64);
            detail.append(" times in a row");
            self.set_state(&mut effects, Condition::Error, detail);
        } else {
            self.set_state(&mut effects, Condition::Starting, "the agent is restarting".to_owned());
            emit(&mut effects, Effect::Retry);
        }
        proof {
            assert(effects_view(effects@) =~= on_ended(s, generation, ran).1);
        }
        effects
    }

    /// Registers one connected client and gives it what its role is owed. A
    /// second frontend replaces the first rather than being fanned out to.
    #[verifier::rlimit(40)]
    pub fn register(&mut self, client: u64, role: Role) -> (effects: Vec<Effect>)
        requires
            coherent(old(self)@),
        ensures
            coherent(final(self)@),
            final(self)@ == on_register(old(self)@, client, role).0,
            effects_view(effects@) == on_register(old(self)@, client, role).1,
    {
        let ghost s = self@;
        let mut effects = nothing();
        let n = self.clients.len();
        let mut kept: Vec<(u64, Role)> = Vec::new();
        let mut i: usize = 0;
        while i < n
            invariant
                self@ == s,
                n == s.clients.len(),
                i <= n,
                kept@ == remaining(s.clients.subrange(0, i as int), client, role),
                effects_view(effects@) == displaced(s.clients.subrange(0, i as int), client, role),
            decreases n - i,
        {
            let c = self.clients[i];
            let ghost upto = s.clients.subrange(0, i + 1);
            proof {
                assert(upto.drop_last() =~= s.clients.subrange(0, i as int));
                assert(upto.last() == c);
            }
            if c.0 != client {
                if role == Role::Frontend && c.1 == Role::Frontend {
                    emit(&mut effects, Effect::Disconnect { client: c.0 });
                } else {
                    kept.push(c);
                }
            }
            i = i + 1;
        }
        proof {
            assert(s.clients.subrange(0, n as int) =~= s.clients);
            lemma_remaining(s.clients, client, role);
        }
        kept.push((client, role));
        self.clients = kept;
        let ghost t = self@;
        proof {
            assert(t =~= on_register(s, client, role).0);
            assert(role_of(t.clients, client) == Some(role));
            let r = remaining(s.clients, client, role);
            assert(t.clients == r.push((client, role)));
            assert(t.clients.drop_last() =~= r);
            assert forall|a: int, b: int| 0 <= a < b < t.clients.len() implies t.clients[a].0 != t.clients[b].0 by {
                if b == r.len() {
                    assert(t.clients[a] == r[a]);
                }
            }
            assert(frontends(t.clients) == if role == Role::Frontend {
                frontends(r).push(client)
            } else {
                frontends(r)
            });
        }
        let ghost e1 = effects_view(effects@);
        self.send_to(&mut effects, client, Body::Welcome { role });
        if role == Role::Frontend {
            let state = self.state;
            let detail = self.detail.clone();
            self.send_to(&mut effects, client, Body::State { id: None, state, detail });
            let ghost e2 = effects_view(effects@);
            let m = self.transcript.len();
            let mut k: usize = 0;
            while k < m
                invariant
                    self@ == t,
                    m == t.transcript.len(),
                    k <= m,
                    role_of(t.clients, client) == Some(role),
                    effects_view(effects@) == e2 + t.transcript.subrange(0, k as int).map_values(
                        |entry: EntryView| EffectView::Send { client, body: BodyView::Transcript { entry } },
                    ),
                decreases m - k,
            {
                let entry = self.transcript[k].duplicate();
                proof {
                    assert(entry@ == t.transcript[k as int]);
                }
                let ghost before = effects_view(effects@);
                self.send_to(&mut effects, client, Body::Transcript { entry });
                proof {
                    assert(t.transcript.subrange(0, k + 1) =~= t.transcript.subrange(0, k as int).push(t.transcript[k as int]));
                    assert(effects_view(effects@) =~= e2 + t.transcript.subrange(0, k + 1).map_values(
                        |entry: EntryView| EffectView::Send { client, body: BodyView::Transcript { entry } },
                    ));
                }
                k = k + 1;
            }
            proof {
                assert(t.transcript.subrange(0, m as int) =~= t.transcript);
            }
        }
        proof {
            assert(effects_view(effects@) =~= on_register(s, client, role).1);
        }
        effects
    }

    /// Forgets one client, releasing its debug lease if it held one: the
    /// agent then comes back.
    pub fn unregister(&mut self, client: u64) -> (effects: Vec<Effect>)
        requires
            coherent(old(self)@),
            old(self)@.generation < u64::MAX,
        ensures
            coherent(final(self)@),
            final(self)@ == on_unregister(old(self)@, client).0,
            effects_view(effects@) == on_unregister(old(self)@, client).1,
    {
        let ghost s = self@;
        let n = self.clients.len();
        let mut kept: Vec<(u64, Role)> = Vec::new();
        let mut i: usize = 0;
        while i < n
            invariant
                self@ == s,
                n == s.clients.len(),
                i <= n,
                kept@ == remaining(s.clients.subrange(0, i as int), client, Role::Control),
            decreases n - i,
        {
            let c = self.clients[i];
            proof {
                let upto = s.clients.subrange(0, i + 1);
                assert(upto.drop_last() =~= s.clients.subrange(0, i as int));
                assert(upto.last() == c);
            }
            if c.0 != client {
                kept.push(c);
            }
            i = i + 1;
        }
        proof {
            assert(s.clients.subrange(0, n as int) =~= s.clients);
            lemma_remaining(s.clients, client, Role::Control);
        }
        self.clients = kept;
        proof {
            assert(self@ =~= ServiceView { clients: remaining(s.clients, client, Role::Control), ..s });
        }
        if self.lease == Some(client) {
            self.lease = None;
            proof {
                assert(self@ =~= ServiceView { lease: None, clients: remaining(s.clients, client, Role::Control), ..s });
            }
            return self.start_agent();
        }
        nothing()
    }

    /// Answers one client's request for the current state.
    pub fn report_state(&self, client: u64, id: String) -> (effects: Vec<Effect>)
        ensures
            effects_view(effects@) == send_to(
                self@.clients,
                client,
                BodyView::State { id: Some(id@), state: self@.state, detail: self@.detail },
            ),
    {
        let mut effects = nothing();
        let body = Body::State { id: Some(id), state: self.state, detail: self.detail.clone() };
        self.send_to(&mut effects, client, body);
        proof {
            assert(effects_view(effects@) =~= send_to(
                self@.clients,
                client,
                BodyView::State { id: Some(id@), state: self@.state, detail: self@.detail },
            ));
        }
        effects
    }

    fn command(&mut self, client: u64, id: String, request: Request) -> (effects: Vec<Effect>)
        requires
            coherent(old(self)@),
            old(self)@.commands < u64::MAX,
        ensures
            coherent(final(self)@),
            final(self)@ == on_command(old(self)@, client, id@, request@).0,
            effects_view(effects@) == on_command(old(self)@, client, id@, request@).1,
    {
        let ghost s = self@;
        let mut effects = nothing();
        if self.lease.is_some() {
            let body = Body::Refused {
                id,
                code: DETACHED.to_owned(),
                detail: "a terminal has the session".to_owned(),
            };
            self.send_to(&mut effects, client, body);
            proof {
                assert(effects_view(effects@) =~= on_command(s, client, id@, request@).1);
            }
            return effects;
        }
        if !self.running {
            let body = Body::Refused {
                id,
                code: AGENT_UNAVAILABLE.to_owned(),
                detail: "the agent is not running".to_owned(),
            };
            self.send_to(&mut effects, client, body);
            proof {
                assert(effects_view(effects@) =~= on_command(s, client, id@, request@).1);
            }
            return effects;
        }
        self.commands = self.commands + 1;
        let number = self.commands;
        let ghost before = self.pending@;
        self.pending.push(Waiting { number, client, id });
        proof {
            assert(waiting(self.pending@) =~= waiting(before).push(WaitingView { number, client, id: id@ }));
            assert(self@ =~= on_command(s, client, id@, request@).0);
        }
        emit(&mut effects, Effect::Forward { correlation: correlation_text(number), request });
        proof {
            assert(effects_view(effects@) =~= on_command(s, client, id@, request@).1);
        }
        effects
    }

    /// Sends one line to the agent as a user message: a prompt when the
    /// assistant is idle, a steer when it is working.
    pub fn submit(&mut self, client: u64, id: String, text: String) -> (effects: Vec<Effect>)
        requires
            coherent(old(self)@),
            old(self)@.commands < u64::MAX,
        ensures
            coherent(final(self)@),
            final(self)@ == on_command(
                old(self)@,
                client,
                id@,
                RequestView::Prompt { message: text@, steer: old(self)@.state == Condition::Working },
            ).0,
            effects_view(effects@) == on_command(
                old(self)@,
                client,
                id@,
                RequestView::Prompt { message: text@, steer: old(self)@.state == Condition::Working },
            ).1,
    {
        let steer = self.state == Condition::Working;
        self.command(client, id, Request::Prompt { message: text, steer })
    }

    /// Ends the current agent run.
    pub fn abort(&mut self, client: u64, id: String) -> (effects: Vec<Effect>)
        requires
            coherent(old(self)@),
            old(self)@.commands < u64::MAX,
        ensures
            coherent(final(self)@),
            final(self)@ == on_command(old(self)@, client, id@, RequestView::Abort).0,
            effects_view(effects@) == on_command(old(self)@, client, id@, RequestView::Abort).1,
    {
        self.command(client, id, Request::Abort)
    }

    /// The agent would not take the command sent under `correlation` on
    /// behalf of `client`, which asked under `id`.
    pub fn forward_failed(&mut self, client: u64, id: String, correlation: &str, error: &str) -> (effects: Vec<Effect>)
        requires
            coherent(old(self)@),
        ensures
            coherent(final(self)@),
            final(self)@ == on_forward_failed(old(self)@, client, id@, correlation@, error@).0,
            effects_view(effects@) == on_forward_failed(old(self)@, client, id@, correlation@, error@).1,
    {
        let ghost s = self@;
        let mut effects = nothing();
        match self.find(correlation) {
            Some(i) => {
                proof {
                    lemma_pending_remove(s, i as int);
                }
                let ghost before = self.pending@;
                self.pending.remove(i);
                proof {
                    assert(waiting(self.pending@) =~= waiting(before).remove(i as int));
                    assert(self@ =~= on_forward_failed(s, client, id@, correlation@, error@).0);
                }
            },
            None => {},
        }
        let mut detail = "the agent would not take it: ".to_owned();
        detail.append(error);
        let body = Body::Refused { id, code: AGENT_UNAVAILABLE.to_owned(), detail };
        self.send_to(&mut effects, client, body);
        proof {
            assert(effects_view(effects@) =~= on_forward_failed(s, client, id@, correlation@, error@).1);
        }
        effects
    }

    /// Forgets a client whose outbox is full or gone.
    pub fn dropped(&mut self, client: u64)
        requires
            coherent(old(self)@),
        ensures
            coherent(final(self)@),
            final(self)@ == (ServiceView { clients: remaining(old(self)@.clients, client, Role::Control), ..old(self)@ }),
    {
        let ghost s = self@;
        let n = self.clients.len();
        let mut kept: Vec<(u64, Role)> = Vec::new();
        let mut i: usize = 0;
        while i < n
            invariant
                self@ == s,
                n == s.clients.len(),
                i <= n,
                kept@ == remaining(s.clients.subrange(0, i as int), client, Role::Control),
            decreases n - i,
        {
            let c = self.clients[i];
            proof {
                let upto = s.clients.subrange(0, i + 1);
                assert(upto.drop_last() =~= s.clients.subrange(0, i as int));
                assert(upto.last() == c);
            }
            if c.0 != client {
                kept.push(c);
            }
            i = i + 1;
        }
        proof {
            assert(s.clients.subrange(0, n as int) =~= s.clients);
            lemma_remaining(s.clients, client, Role::Control);
        }
        self.clients = kept;
        proof {
            assert(self@ =~= ServiceView { clients: remaining(s.clients, client, Role::Control), ..s });
        }
    }

    /// Takes the agent away and hands the caller the command line that resumes
    /// its session in a terminal. The lease belongs to this connection from
    /// here until it closes.
    #[verifier::rlimit(40)]
    pub fn begin_debug(&mut self, client: u64, id: String) -> (effects: Vec<Effect>)
        requires
            coherent(old(self)@),
        ensures
            coherent(final(self)@),
            final(self)@ == on_debug(old(self)@, client, id@).0,
            effects_view(effects@) == on_debug(old(self)@, client, id@).1,
    {
        let ghost s = self@;
        let mut effects = nothing();
        if self.lease.is_some() {
            let body = Body::Refused {
                id,
                code: DEBUG_HELD.to_owned(),
                detail: "a terminal already has the session".to_owned(),
            };
            self.send_to(&mut effects, client, body);
            proof {
                assert(effects_view(effects@) =~= on_debug(s, client, id@).1);
            }
            return effects;
        }
        let role = self.role_in(client);
        if role != Some(Role::Control) {
            let body = Body::Refused {
                id,
                code: WRONG_ROLE.to_owned(),
                detail: "only a control client may take the session".to_owned(),
            };
            self.send_to(&mut effects, client, body);
            proof {
                assert(effects_view(effects@) =~= on_debug(s, client, id@).1);
            }
            return effects;
        }
        let was_running = self.running;
        self.lease = Some(client);
        self.running = false;
        proof {
            assert(self@ =~= ServiceView { lease: Some(client), running: false, ..s });
        }
        self.fail_pending(&mut effects, "a terminal took the session");
        self.set_state(&mut effects, Condition::Detached, "a terminal has the session".to_owned());
        if was_running {
            emit(&mut effects, Effect::Stop);
        }
        let args = match &self.session_file {
            Some(file) => debug_args(self.session_dir.as_str(), Some(file.as_str())),
            None => debug_args(self.session_dir.as_str(), None),
        };
        proof {
            assert(texts(args@) =~= resume_args(s.session_dir, s.session_file));
        }
        let body = Body::Debug { id, program: self.program.clone(), args };
        self.send_to(&mut effects, client, body);
        proof {
            assert(effects_view(effects@) =~= on_debug(s, client, id@).1);
        }
        effects
    }

    /// Stops the agent for good. The service is going down.
    pub fn shutdown(&mut self) -> (effects: Vec<Effect>)
        requires
            coherent(old(self)@),
        ensures
            coherent(final(self)@),
            final(self)@ == on_shutdown(old(self)@).0,
            effects_view(effects@) == on_shutdown(old(self)@).1,
    {
        let ghost s = self@;
        let mut effects = nothing();
        let was_running = self.running;
        self.stopping = true;
        self.running = false;
        proof {
            assert(self@ =~= ServiceView { stopping: true, running: false, ..s });
        }
        self.fail_pending(&mut effects, "the service is stopping");
        if was_running {
            emit(&mut effects, Effect::Stop);
        }
        proof {
            assert(effects_view(effects@) =~= on_shutdown(s).1);
        }
        effects
    }
}

/// Longest line accepted from the agent, in bytes. A complete message can be
/// large.
pub const MAX_EVENT_BYTES: usize = 4 * 1024 * 1024;

/// What one client can ask of the service.
#[derive(Debug, Clone, PartialEq, Eq)]
pub enum ClientBody {
    /// The first message of every connection, and only the first.
    Hello { role: Role },
    /// One line for the agent, as a prompt or a steer.
    Submit { id: String, text: String },
    /// End the current run.
    Abort { id: String },
    /// What Scufris is doing.
    GetState { id: String },
    /// Take the session into a terminal.
    Debug { id: String },
}

/// What one line read off the agent's stream is: the end of the stream when
/// it is longer than [`MAX_EVENT_BYTES`], nothing when it holds nothing but
/// line ends, and otherwise the record without its line ends.
#[derive(Debug, Clone, PartialEq, Eq)]
pub enum EventLine {
    Oversized,
    Blank,
    Record(Vec<u8>),
}

/// The line without the line feeds and carriage returns at its end. Line
/// feed is the only record separator; a trailing carriage return is
/// tolerated, and anything else stays inside the record.
pub open spec fn without_line_ends(line: Seq<u8>) -> Seq<u8>
    decreases line.len(),
{
    if line.len() > 0 && (line.last() == 10u8 || line.last() == 13u8) {
        without_line_ends(line.drop_last())
    } else {
        line
    }
}

/// Reads one line of the agent's stream.
pub fn event_line(line: Vec<u8>) -> (r: EventLine)
    ensures
        line@.len() > MAX_EVENT_BYTES ==> r == EventLine::Oversized,
        line@.len() <= MAX_EVENT_BYTES && without_line_ends(line@).len() == 0 ==> r == EventLine::Blank,
        line@.len() <= MAX_EVENT_BYTES && without_line_ends(line@).len() > 0 ==> (r matches EventLine::Record(
            record,
        ) && record@ == without_line_ends(line@)),
{
    if line.len() > MAX_EVENT_BYTES {
        return EventLine::Oversized;
    }
    let mut record = line;
    let ghost whole = record@;
    while record.len() > 0 && (record[record.len() - 1] == 10u8 || record[record.len() - 1] == 13u8)
        invariant
            without_line_ends(record@) == without_line_ends(whole),
        decreases record.len(),
    {
        let ghost before = record@;
        record.pop();
        proof {
            assert(record@ =~= before.drop_last());
        }
    }
    if record.len() == 0 {
        EventLine::Blank
    } else {
        EventLine::Record(record)
    }
}

/// What a connection's first message makes of it: the role it said hello
/// as, or nothing for a connection that said something else first, which is
/// closed.
pub fn first_hello(body: &ClientBody) -> (r: Option<Role>)
    ensures
        r == match body {
            ClientBody::Hello { role } => Some(*role),
            _ => None,
        },
{
    match body {
        ClientBody::Hello { role } => Some(*role),
        _ => None,
    }
}

/// One request of a connected client, carried out. A second hello is a
/// client that has lost track of itself, and changes nothing.
pub open spec fn on_request(s: ServiceView, client: u64, body: ClientBody) -> (ServiceView, Seq<EffectView>) {
    match body {
        ClientBody::Hello { .. } => (s, Seq::empty()),
        ClientBody::Submit { id, text } => on_command(
            s,
            client,
            id@,
            RequestView::Prompt { message: text@, steer: s.state == Condition::Working },
        ),
        ClientBody::Abort { id } => on_command(s, client, id@, RequestView::Abort),
        ClientBody::GetState { id } => (
            s,
            send_to(s.clients, client, BodyView::State { id: Some(id@), state: s.state, detail: s.detail }),
        ),
        ClientBody::Debug { id } => on_debug(s, client, id@),
    }
}

impl Service {
    /// Carries out one request of a connected client.
    pub fn act(&mut self, client: u64, body: ClientBody) -> (effects: Vec<Effect>)
        requires
            coherent(old(self)@),
            body is Submit || body is Abort ==> old(self)@.commands < u64::MAX,
        ensures
            coherent(final(self)@),
            final(self)@ == on_request(old(self)@, client, body).0,
            effects_view(effects@) == on_request(old(self)@, client, body).1,
    {
        match body {
            ClientBody::Hello { .. } => nothing(),
            ClientBody::Submit { id, text } => self.submit(client, id, text),
            ClientBody::Abort { id } => self.abort(client, id),
            ClientBody::GetState { id } => self.report_state(client, id),
            ClientBody::Debug { id } => self.begin_debug(client, id),
        }
    }
}

} // verus!
