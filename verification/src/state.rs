//! Companion-local pill state machine.
//!
//! The machine owns every decision the interaction describes and produces the
//! actions the host must run. It holds no window, audio, socket, or file handle,
//! so the whole interaction is a function of the events it is handed.
use vstd::prelude::*;
use vstd::string::StringExecFns;

use crate::daemon::Condition;
use crate::notices::{notice_in, with_notice, Notice, NoticeState, NoticeView, Notices};
use crate::pending::Pending;
use crate::text::{decimal, push_decimal, trim, trimmed};

verus! {

/// What the companion shows the assistant is doing.
#[derive(Debug, Clone, Copy, PartialEq, Eq, Structural)]
pub enum Assistant {
    /// The agent is spawned and has not answered yet.
    Starting,
    /// The agent is up and no run is in progress.
    Idle,
    /// An agent run is in progress.
    Working,
    /// The companion is speaking an answer it was handed.
    Speaking,
    /// A debug lease is held, so the conversation is a terminal somebody else
    /// owns.
    Detached,
    /// The agent could not be kept running.
    Error,
}

/// The short stable name of an assistant state.
pub open spec fn assistant_name(a: Assistant) -> Seq<char> {
    match a {
        Assistant::Starting => "starting"@,
        Assistant::Idle => "idle"@,
        Assistant::Working => "working"@,
        Assistant::Speaking => "speaking"@,
        Assistant::Detached => "detached"@,
        Assistant::Error => "error"@,
    }
}

impl Assistant {
    /// Short stable name used by the pill and the tray.
    pub fn name(self) -> (r: &'static str)
        ensures
            r@ == assistant_name(self),
    {
        match self {
            Assistant::Starting => "starting",
            Assistant::Idle => "idle",
            Assistant::Working => "working",
            Assistant::Speaking => "speaking",
            Assistant::Detached => "detached",
            Assistant::Error => "error",
        }
    }
}

/// What the companion shows for what the service reports.
pub open spec fn assistant_of(state: Condition) -> Assistant {
    match state {
        Condition::Starting => Assistant::Starting,
        Condition::Idle => Assistant::Idle,
        Condition::Working => Assistant::Working,
        Condition::Detached => Assistant::Detached,
        Condition::Error => Assistant::Error,
    }
}

impl From<Condition> for Assistant {
    fn from(state: Condition) -> (r: Self) {
        match state {
            Condition::Starting => Assistant::Starting,
            Condition::Idle => Assistant::Idle,
            Condition::Working => Assistant::Working,
            Condition::Detached => Assistant::Detached,
            Condition::Error => Assistant::Error,
        }
    }
}

impl vstd::std_specs::convert::FromSpecImpl<Condition> for Assistant {
    open spec fn obeys_from_spec() -> bool {
        true
    }

    open spec fn from_spec(v: Condition) -> Assistant {
        assistant_of(v)
    }
}

/// Reason shown for a transcript recovered from a previous process.
pub const RESTORED_REASON: &'static str = "Recovered after a restart. Whether it was sent is unknown.";

/// Reason shown once the person has asked to send an uncertain transcript.
pub const FORCE_WARNING: &'static str = "This may already be in the conversation. Sending it again could repeat what it did. Press Enter again to send anyway, Ctrl+C to copy, Escape to discard.";

/// What an uncertain transcript offers instead of an ordinary retry.
pub const UNCERTAIN_CHOICES: &'static str = "Ctrl+C to copy, Escape to discard, Enter to send anyway.";

/// What a transcription that produced only white space is reported as.
pub const NOTHING_TRANSCRIBED: &'static str = "Nothing was transcribed.";

/// What the resting pill says while the service cannot be reached.
pub const UNAVAILABLE: &'static str = "The Scufris service is unavailable.";

/// How much is known about a retained transcript's fate.
#[derive(Debug, Clone, Copy, PartialEq, Eq, Structural)]
pub enum Delivery {
    /// The submission never left the companion, so editing it is safe.
    Refused,
    /// The submission may already be in the conversation, and may not be.
    Uncertain,
}

/// What the companion is doing with the microphone and the transcript.
#[derive(Debug, Clone, PartialEq, Eq)]
pub enum Phase {
    /// No interaction is running.
    Resting,
    /// The microphone is recording.
    Listening,
    /// Recording stopped and local transcription is running.
    Transcribing,
    /// An editable transcript is waiting for the user in the textbox.
    Editing {
        /// Current transcript text.
        transcript: String,
        /// Identifier this transcript keeps until it is acknowledged.
        id: String,
        /// Why the durable copy is missing, empty when it is present.
        notice: String,
    },
    /// A transcript was accepted and is on its way to the service.
    Sent {
        /// Exact text handed to the service.
        transcript: String,
        /// Submission identifier awaiting its acknowledgment.
        id: String,
        /// What was already known about these words before this send.
        prior: Delivery,
    },
    /// An accepted transcript that the service did not take.
    Retained {
        /// Transcript kept in the pill so it is never lost.
        transcript: String,
        /// Identifier reused by every retry.
        id: String,
        /// Why the submission did not land.
        reason: String,
        /// Whether the service might already hold this transcript.
        delivery: Delivery,
        /// True once the person has asked to send an uncertain transcript and
        /// has been told what that risks.
        warned: bool,
    },
    /// Recording or local transcription failed and nothing was submitted.
    Failed {
        /// Why no transcript was produced.
        reason: String,
    },
}

/// A phase, with its words as character sequences.
#[verifier::ext_equal]
pub enum PhaseView {
    Resting,
    Listening,
    Transcribing,
    Editing { transcript: Seq<char>, id: Seq<char>, notice: Seq<char> },
    Sent { transcript: Seq<char>, id: Seq<char>, prior: Delivery },
    Retained {
        transcript: Seq<char>,
        id: Seq<char>,
        reason: Seq<char>,
        delivery: Delivery,
        warned: bool,
    },
    Failed { reason: Seq<char> },
}

impl View for Phase {
    type V = PhaseView;

    open spec fn view(&self) -> PhaseView {
        match self {
            Phase::Resting => PhaseView::Resting,
            Phase::Listening => PhaseView::Listening,
            Phase::Transcribing => PhaseView::Transcribing,
            Phase::Editing { transcript, id, notice } => PhaseView::Editing {
                transcript: transcript@,
                id: id@,
                notice: notice@,
            },
            Phase::Sent { transcript, id, prior } => PhaseView::Sent {
                transcript: transcript@,
                id: id@,
                prior: *prior,
            },
            Phase::Retained { transcript, id, reason, delivery, warned } => PhaseView::Retained {
                transcript: transcript@,
                id: id@,
                reason: reason@,
                delivery: *delivery,
                warned: *warned,
            },
            Phase::Failed { reason } => PhaseView::Failed { reason: reason@ },
        }
    }
}

/// The short stable name of a phase. The transcript never appears in it.
pub open spec fn phase_name_of(p: PhaseView) -> Seq<char> {
    match p {
        PhaseView::Resting => "resting"@,
        PhaseView::Listening => "listening"@,
        PhaseView::Transcribing => "transcribing"@,
        PhaseView::Editing { .. } => "editing"@,
        PhaseView::Sent { .. } => "sent"@,
        PhaseView::Retained { .. } => "retained"@,
        PhaseView::Failed { .. } => "failed"@,
    }
}

impl Phase {
    /// Short stable name for logs. The transcript itself never appears in it.
    pub fn name(&self) -> (r: &'static str)
        ensures
            r@ == phase_name_of(self@),
    {
        match self {
            Phase::Resting => "resting",
            Phase::Listening => "listening",
            Phase::Transcribing => "transcribing",
            Phase::Editing { .. } => "editing",
            Phase::Sent { .. } => "sent",
            Phase::Retained { .. } => "retained",
            Phase::Failed { .. } => "failed",
        }
    }
}

/// One thing that happened to the companion.
#[derive(Debug, Clone, PartialEq, Eq)]
pub enum Event {
    /// The activation hotkey fired, or the tray asked for voice input.
    Activate,
    /// Escape was pressed.
    Escape,
    /// Escape, where there is a workspace on screen to go back to.
    Cancel,
    /// The person asked for the workspace, without asking to be heard.
    Reveal,
    /// The person asked for the workspace to go away.
    Dismiss,
    /// The stop key was pressed, or the tray was asked to stop Scufris.
    Stop,
    /// Enter was pressed in the textbox, carrying what is in the field.
    Enter {
        /// Text currently in the field, when it is one the person may edit.
        text: Option<String>,
    },
    /// Local transcription produced text.
    Transcribed(String),
    /// Local transcription failed.
    TranscriptionFailed(String),
    /// The microphone could not start, or an open capture stream failed.
    RecordingFailed(String),
    /// The transcript could not be written to durable storage.
    PersistFailed(String),
    /// A transcript the user discarded could not be removed or tombstoned.
    DiscardFailed(String),
    /// The service acknowledged a submission.
    Acknowledged(String),
    /// The submission never reached the service, or the service refused it.
    SubmissionFailed {
        /// Identifier of the submission this answers.
        id: String,
        /// Why it was not sent.
        reason: String,
    },
    /// The submission left the companion and nothing came back in time.
    SubmissionUncertain {
        /// Identifier of the submission this answers.
        id: String,
        /// Why its outcome is unknown.
        reason: String,
    },
    /// The transcript was asked to be copied to the clipboard.
    Copy,
}

/// An event, with its words as character sequences.
pub enum EventView {
    Activate,
    Escape,
    Cancel,
    Reveal,
    Dismiss,
    Stop,
    Enter { text: Option<Seq<char>> },
    Transcribed(Seq<char>),
    TranscriptionFailed(Seq<char>),
    RecordingFailed(Seq<char>),
    PersistFailed(Seq<char>),
    DiscardFailed(Seq<char>),
    Acknowledged(Seq<char>),
    SubmissionFailed { id: Seq<char>, reason: Seq<char> },
    SubmissionUncertain { id: Seq<char>, reason: Seq<char> },
    Copy,
}

impl View for Event {
    type V = EventView;

    open spec fn view(&self) -> EventView {
        match self {
            Event::Activate => EventView::Activate,
            Event::Escape => EventView::Escape,
            Event::Cancel => EventView::Cancel,
            Event::Reveal => EventView::Reveal,
            Event::Dismiss => EventView::Dismiss,
            Event::Stop => EventView::Stop,
            Event::Enter { text } => EventView::Enter {
                text: match text {
                    Some(t) => Some(t@),
                    None => None,
                },
            },
            Event::Transcribed(t) => EventView::Transcribed(t@),
            Event::TranscriptionFailed(r) => EventView::TranscriptionFailed(r@),
            Event::RecordingFailed(r) => EventView::RecordingFailed(r@),
            Event::PersistFailed(r) => EventView::PersistFailed(r@),
            Event::DiscardFailed(r) => EventView::DiscardFailed(r@),
            Event::Acknowledged(i) => EventView::Acknowledged(i@),
            Event::SubmissionFailed { id, reason } => EventView::SubmissionFailed {
                id: id@,
                reason: reason@,
            },
            Event::SubmissionUncertain { id, reason } => EventView::SubmissionUncertain {
                id: id@,
                reason: reason@,
            },
            Event::Copy => EventView::Copy,
        }
    }
}

/// One thing the host must do after a transition.
#[derive(Debug, Clone, PartialEq, Eq)]
pub enum Action {
    /// Start microphone capture.
    StartRecording,
    /// Stop microphone capture and transcribe the audio.
    StopRecording,
    /// Stop microphone capture and throw the audio away.
    DiscardRecording,
    /// Abandon an in-flight transcription.
    CancelTranscription,
    /// Write the transcript to durable storage before anything can lose it.
    PersistPending {
        /// Identifier this transcript keeps until it is acknowledged.
        id: String,
        /// Transcript text to keep.
        text: String,
    },
    /// Forget the durable transcript after the service acknowledged it.
    ClearPending,
    /// Throw away a transcript the user explicitly discarded.
    DiscardPending {
        /// Identifier of the transcript being thrown away.
        id: String,
    },
    /// End the agent's current run.
    Abort {
        /// Identifier the service's answer echoes.
        id: String,
    },
    /// Submit one accepted transcript to the service.
    Submit {
        /// Submission identifier the answer must echo.
        id: String,
        /// Accepted transcript text.
        text: String,
    },
    /// Put one transcript on the clipboard so it is not lost when the pill closes.
    CopyTranscript {
        /// Exact text to copy.
        text: String,
    },
}

/// An action, with its words as character sequences.
pub enum ActionView {
    StartRecording,
    StopRecording,
    DiscardRecording,
    CancelTranscription,
    PersistPending { id: Seq<char>, text: Seq<char> },
    ClearPending,
    DiscardPending { id: Seq<char> },
    Abort { id: Seq<char> },
    Submit { id: Seq<char>, text: Seq<char> },
    CopyTranscript { text: Seq<char> },
}

impl View for Action {
    type V = ActionView;

    open spec fn view(&self) -> ActionView {
        match self {
            Action::StartRecording => ActionView::StartRecording,
            Action::StopRecording => ActionView::StopRecording,
            Action::DiscardRecording => ActionView::DiscardRecording,
            Action::CancelTranscription => ActionView::CancelTranscription,
            Action::PersistPending { id, text } => ActionView::PersistPending {
                id: id@,
                text: text@,
            },
            Action::ClearPending => ActionView::ClearPending,
            Action::DiscardPending { id } => ActionView::DiscardPending { id: id@ },
            Action::Abort { id } => ActionView::Abort { id: id@ },
            Action::Submit { id, text } => ActionView::Submit { id: id@, text: text@ },
            Action::CopyTranscript { text } => ActionView::CopyTranscript { text: text@ },
        }
    }
}

/// The actions a host was handed, as views.
pub open spec fn actions_view(actions: Seq<Action>) -> Seq<ActionView> {
    actions.map_values(|a: Action| a@)
}

/// Everything the surfaces render, derived from the phase and the service
/// state.
#[derive(Debug, Clone, PartialEq, Eq)]
pub struct Presentation {
    /// Stable state name used by the pill and the tray.
    pub state: &'static str,
    /// Text the textbox shows, empty when there is none.
    pub text: String,
    /// Short explanation of an error or a retained transcript.
    pub detail: String,
    /// Whether the textbox field may be edited.
    pub editable: bool,
    /// Whether the pill shows the recording indicator and duration.
    pub recording: bool,
}

/// A presentation, with its words as character sequences.
#[verifier::ext_equal]
pub struct PresentationView {
    pub state: Seq<char>,
    pub text: Seq<char>,
    pub detail: Seq<char>,
    pub editable: bool,
    pub recording: bool,
}

impl View for Presentation {
    type V = PresentationView;

    open spec fn view(&self) -> PresentationView {
        PresentationView {
            state: self.state@,
            text: self.text@,
            detail: self.detail@,
            editable: self.editable,
            recording: self.recording,
        }
    }
}

/// Where the companion's windows belong for the current phase.
#[derive(Debug, Clone, Copy, PartialEq, Eq, Structural)]
pub enum Posture {
    /// The pill is up and the textbox stands over it with the keyboard.
    Editing,
    /// The pill is up and the phase waits for it; nothing holds the keyboard.
    Watched,
    /// The pill is up, reporting, and nothing waits on it.
    Passive,
    /// Off screen.
    Off,
}

impl Posture {
    /// Answers whether the phase may not run until its windows are on screen.
    pub fn waits(self) -> (r: bool)
        ensures
            r == (self == Posture::Editing || self == Posture::Watched),
    {
        match self {
            Posture::Editing | Posture::Watched => true,
            _ => false,
        }
    }

    /// Answers whether the pill belongs on screen.
    pub fn on_screen(self) -> (r: bool)
        ensures
            r == (self != Posture::Off),
    {
        self != Posture::Off
    }

    /// Answers whether the textbox belongs on screen with the keyboard.
    pub fn textbox(self) -> (r: bool)
        ensures
            r == (self == Posture::Editing),
    {
        self == Posture::Editing
    }
}

/// The companion's whole state, with its words as character sequences.
#[verifier::ext_equal]
pub struct CompanionView {
    pub phase: PhaseView,
    pub assistant: Assistant,
    pub assistant_detail: Seq<char>,
    /// Ambient notices, in the order of their identifiers.
    pub notices: Seq<NoticeView>,
    pub speaking: bool,
    pub connected: bool,
    pub prefix: Seq<char>,
    pub commands: nat,
    pub dismissed: bool,
    pub blind: Option<Seq<char>>,
}

/// The pill state machine.
#[derive(Debug)]
pub struct Companion {
    phase: Phase,
    assistant: Assistant,
    assistant_detail: String,
    /// Ambient notices last replayed by the service, keyed by their owner.
    notices: Notices,
    /// True while the companion is speaking an answer.
    speaking: bool,
    connected: bool,
    prefix: String,
    /// How many commands this companion has given the service.
    commands: u64,
    /// True while the person has the pill closed.
    dismissed: bool,
    /// Why the pill window is unusable, when the host could not put it where a
    /// phase needed it.
    blind: Option<String>,
}

impl View for Companion {
    type V = CompanionView;

    closed spec fn view(&self) -> CompanionView {
        CompanionView {
            phase: self.phase@,
            assistant: self.assistant,
            assistant_detail: self.assistant_detail@,
            notices: self.notices@,
            speaking: self.speaking,
            connected: self.connected,
            prefix: self.prefix@,
            commands: self.commands as nat,
            dismissed: self.dismissed,
            blind: match self.blind {
                Some(b) => Some(b@),
                None => None,
            },
        }
    }
}

// ----------------------------------------------------------------------------
// The machine, as a function of views.
// ----------------------------------------------------------------------------

/// The identifier the `n`th command of a companion with this prefix carries.
pub open spec fn command_id(prefix: Seq<char>, n: nat) -> Seq<char> {
    prefix + "-"@ + decimal(n)
}

/// A reason with the choices an uncertain transcript offers after it.
pub open spec fn with_choices(reason: Seq<char>) -> Seq<char> {
    reason + " "@ + UNCERTAIN_CHOICES@
}

/// The same companion in another phase.
pub open spec fn in_phase(c: CompanionView, p: PhaseView) -> CompanionView {
    CompanionView { phase: p, ..c }
}

/// Ends an interaction on the person's say-so. Without a workspace to go back
/// to, the pill goes away with it.
pub open spec fn closed(c: CompanionView, keep: bool) -> CompanionView {
    CompanionView { phase: PhaseView::Resting, dismissed: if keep { c.dismissed } else { true }, ..c }
}

/// Sends one accepted transcript: the persisted copy first, then the send.
pub open spec fn submitted(c: CompanionView, text: Seq<char>, id: Seq<char>, forced: bool) -> (
    CompanionView,
    Seq<ActionView>,
) {
    (
        in_phase(
            c,
            PhaseView::Sent {
                transcript: text,
                id,
                prior: if forced {
                    Delivery::Uncertain
                } else {
                    Delivery::Refused
                },
            },
        ),
        seq![ActionView::PersistPending { id, text }, ActionView::Submit { id, text }],
    )
}

/// What one event does to the phase, before `apply` brings the pill home.
///
/// `Cancel` is `Escape` that leaves the workspace standing: the phases answer
/// one verb and throw the same thing away.
pub open spec fn transition(c: CompanionView, event: EventView) -> (CompanionView, Seq<ActionView>) {
    let none = Seq::<ActionView>::empty();
    let keep = event is Cancel;
    match event {
        EventView::Activate => match c.phase {
            PhaseView::Resting | PhaseView::Failed { .. } => (
                in_phase(c, PhaseView::Listening),
                seq![ActionView::StartRecording],
            ),
            PhaseView::Listening => (
                in_phase(c, PhaseView::Transcribing),
                seq![ActionView::StopRecording],
            ),
            _ => (c, none),
        },
        EventView::Escape | EventView::Cancel => match c.phase {
            PhaseView::Listening => (closed(c, keep), seq![ActionView::DiscardRecording]),
            PhaseView::Transcribing => (closed(c, keep), seq![ActionView::CancelTranscription]),
            PhaseView::Editing { id, .. } => (
                closed(c, keep),
                seq![ActionView::DiscardPending { id }],
            ),
            PhaseView::Retained { id, .. } => (
                closed(c, keep),
                seq![ActionView::DiscardPending { id }],
            ),
            PhaseView::Failed { .. } => (closed(c, keep), none),
            PhaseView::Resting | PhaseView::Sent { .. } => (
                CompanionView { dismissed: if keep { c.dismissed } else { true }, ..c },
                none,
            ),
        },
        EventView::Reveal => (c, none),
        EventView::Dismiss => match c.phase {
            PhaseView::Resting | PhaseView::Sent { .. } => (
                CompanionView { dismissed: true, ..c },
                none,
            ),
            _ => (c, none),
        },
        EventView::Stop => if c.assistant == Assistant::Working {
            (
                CompanionView { commands: c.commands + 1, ..c },
                seq![ActionView::Abort { id: command_id(c.prefix, c.commands + 1) }],
            )
        } else {
            (c, none)
        },
        EventView::Enter { text } => match c.phase {
            PhaseView::Editing { transcript, id, .. } => {
                let accepted = trimmed(
                    match text {
                        Some(t) => t,
                        None => transcript,
                    },
                );
                if accepted.len() == 0 {
                    (c, none)
                } else {
                    submitted(c, accepted, id, false)
                }
            },
            PhaseView::Retained { transcript, id, delivery, warned, .. } => {
                if delivery == Delivery::Refused {
                    let accepted = trimmed(
                        match text {
                            Some(t) => t,
                            None => transcript,
                        },
                    );
                    if accepted.len() == 0 {
                        (c, none)
                    } else {
                        submitted(c, accepted, id, false)
                    }
                } else if !warned {
                    (
                        in_phase(
                            c,
                            PhaseView::Retained {
                                transcript,
                                id,
                                reason: FORCE_WARNING@,
                                delivery: Delivery::Uncertain,
                                warned: true,
                            },
                        ),
                        none,
                    )
                } else {
                    submitted(c, transcript, id, true)
                }
            },
            _ => (c, none),
        },
        EventView::Transcribed(words) => match c.phase {
            PhaseView::Transcribing => {
                let transcript = trimmed(words);
                if transcript.len() == 0 {
                    (in_phase(c, PhaseView::Failed { reason: NOTHING_TRANSCRIBED@ }), none)
                } else {
                    let id = command_id(c.prefix, c.commands + 1);
                    (
                        CompanionView {
                            phase: PhaseView::Editing { transcript, id, notice: Seq::empty() },
                            commands: c.commands + 1,
                            ..c
                        },
                        seq![ActionView::PersistPending { id, text: transcript }],
                    )
                }
            },
            _ => (c, none),
        },
        EventView::TranscriptionFailed(reason) => match c.phase {
            PhaseView::Transcribing => (in_phase(c, PhaseView::Failed { reason }), none),
            _ => (c, none),
        },
        EventView::RecordingFailed(reason) => match c.phase {
            PhaseView::Listening => (
                in_phase(c, PhaseView::Failed { reason }),
                seq![ActionView::DiscardRecording],
            ),
            PhaseView::Transcribing => (
                in_phase(c, PhaseView::Failed { reason }),
                seq![ActionView::CancelTranscription],
            ),
            _ => (c, none),
        },
        EventView::PersistFailed(reason) => match c.phase {
            PhaseView::Sent { transcript, id, prior } => (
                in_phase(
                    c,
                    PhaseView::Retained { transcript, id, reason, delivery: prior, warned: false },
                ),
                none,
            ),
            PhaseView::Editing { transcript, id, .. } => (
                in_phase(c, PhaseView::Editing { transcript, id, notice: reason }),
                none,
            ),
            PhaseView::Retained { transcript, id, delivery, warned, .. } => (
                in_phase(c, PhaseView::Retained { transcript, id, reason, delivery, warned }),
                none,
            ),
            _ => (c, none),
        },
        EventView::DiscardFailed(reason) => match c.phase {
            PhaseView::Resting => (in_phase(c, PhaseView::Failed { reason }), none),
            _ => (c, none),
        },
        EventView::Acknowledged(answered) => match c.phase {
            PhaseView::Sent { id, .. } | PhaseView::Retained { id, .. } => if id == answered {
                (in_phase(c, PhaseView::Resting), seq![ActionView::ClearPending])
            } else {
                (c, none)
            },
            _ => (c, none),
        },
        EventView::SubmissionFailed { id: failed, reason } => match c.phase {
            PhaseView::Sent { transcript, id, prior } => if id == failed {
                (
                    in_phase(
                        c,
                        PhaseView::Retained {
                            transcript,
                            id,
                            reason: if prior == Delivery::Refused {
                                reason
                            } else {
                                with_choices(reason)
                            },
                            delivery: prior,
                            warned: false,
                        },
                    ),
                    none,
                )
            } else {
                (c, none)
            },
            _ => (c, none),
        },
        EventView::SubmissionUncertain { id: uncertain, reason } => match c.phase {
            PhaseView::Sent { transcript, id, .. } => if id == uncertain {
                (
                    in_phase(
                        c,
                        PhaseView::Retained {
                            transcript,
                            id,
                            reason: with_choices(reason),
                            delivery: Delivery::Uncertain,
                            warned: false,
                        },
                    ),
                    none,
                )
            } else {
                (c, none)
            },
            _ => (c, none),
        },
        EventView::Copy => match c.phase {
            PhaseView::Editing { transcript, .. } | PhaseView::Retained { transcript, .. } => (
                c,
                seq![ActionView::CopyTranscript { text: transcript }],
            ),
            _ => (c, none),
        },
    }
}

/// What one event does: the two gestures that ask for the pill bring it home
/// and give the window another try, then the phase moves.
pub open spec fn applied(c: CompanionView, event: EventView) -> (CompanionView, Seq<ActionView>) {
    let c = if event is Activate || event is Reveal {
        CompanionView { blind: None, dismissed: false, ..c }
    } else {
        c
    };
    transition(c, event)
}

/// Where the companion's windows belong.
pub open spec fn posture_of(c: CompanionView) -> Posture {
    if c.blind is Some {
        Posture::Off
    } else {
        match c.phase {
            PhaseView::Resting | PhaseView::Sent { .. } => if c.dismissed {
                Posture::Off
            } else {
                Posture::Passive
            },
            PhaseView::Editing { .. } | PhaseView::Retained { .. } => Posture::Editing,
            _ => Posture::Watched,
        }
    }
}

/// The assistant state the companion shows, speech included.
pub open spec fn shown_assistant_of(c: CompanionView) -> Assistant {
    if c.speaking {
        Assistant::Speaking
    } else {
        c.assistant
    }
}

/// The state name a resting pill shows.
pub open spec fn resting_state_of(c: CompanionView) -> Seq<char> {
    if !c.connected {
        "disconnected"@
    } else {
        assistant_name(shown_assistant_of(c))
    }
}

/// The detail a resting pill shows.
pub open spec fn resting_detail_of(c: CompanionView) -> Seq<char> {
    if !c.connected {
        UNAVAILABLE@
    } else {
        c.assistant_detail
    }
}

/// A presentation with nothing in the textbox.
pub open spec fn plain(state: Seq<char>, detail: Seq<char>) -> PresentationView {
    PresentationView {
        state,
        text: Seq::empty(),
        detail,
        editable: false,
        recording: false,
    }
}

/// What the pill renders.
pub open spec fn presentation_of(c: CompanionView) -> PresentationView {
    match c.blind {
        Some(reason) => plain("error"@, reason),
        None => match c.phase {
            PhaseView::Resting => plain(resting_state_of(c), resting_detail_of(c)),
            PhaseView::Listening => PresentationView {
                recording: true,
                ..plain("listening"@, Seq::empty())
            },
            PhaseView::Transcribing => plain("transcribing"@, Seq::empty()),
            PhaseView::Editing { transcript, notice, .. } => PresentationView {
                state: "editing"@,
                text: transcript,
                detail: notice,
                editable: true,
                recording: false,
            },
            PhaseView::Sent { transcript, .. } => PresentationView {
                text: transcript,
                ..plain("sent"@, Seq::empty())
            },
            PhaseView::Retained { transcript, reason, delivery, .. } => PresentationView {
                state: if delivery == Delivery::Refused {
                    "retained"@
                } else {
                    "uncertain"@
                },
                text: transcript,
                detail: reason,
                editable: delivery == Delivery::Refused,
                recording: false,
            },
            PhaseView::Failed { reason } => plain("error"@, reason),
        },
    }
}

/// The tray's state name and detail.
pub open spec fn tray_of(c: CompanionView) -> (Seq<char>, Seq<char>) {
    match c.blind {
        Some(reason) => ("error"@, reason),
        None => match c.phase {
            PhaseView::Listening => ("listening"@, Seq::empty()),
            PhaseView::Transcribing => ("transcribing"@, Seq::empty()),
            PhaseView::Failed { reason } => ("error"@, reason),
            PhaseView::Retained { reason, .. } => ("attention"@, reason),
            _ => match notice_in(c.notices) {
                Some(n) => (
                    if n.state == NoticeState::Error {
                        "error"@
                    } else {
                        "attention"@
                    },
                    n.detail,
                ),
                None => (resting_state_of(c), resting_detail_of(c)),
            },
        },
    }
}

// ----------------------------------------------------------------------------
// The machine itself.
// ----------------------------------------------------------------------------

fn one(a: Action) -> (r: Vec<Action>)
    ensures
        actions_view(r@) == seq![a@],
{
    let mut v = Vec::new();
    v.push(a);
    proof {
        assert(actions_view(v@) =~= seq![a@]);
    }
    v
}

fn nothing() -> (r: Vec<Action>)
    ensures
        actions_view(r@) == Seq::<ActionView>::empty(),
{
    let v = Vec::new();
    proof {
        assert(actions_view(v@) =~= Seq::<ActionView>::empty());
    }
    v
}

fn with_choices_of(reason: String) -> (r: String)
    ensures
        r@ == with_choices(reason@),
{
    let mut r = reason;
    r.append(" ");
    r.append(UNCERTAIN_CHOICES);
    r
}

impl Companion {
    /// Creates a closed pill with an unreachable service.
    ///
    /// `prefix` must be unique per process: identifiers survive a restart, and
    /// they are how an answer is matched to the submission that asked.
    pub fn new(prefix: &str) -> (c: Self)
        ensures
            c@ == (CompanionView {
                phase: PhaseView::Resting,
                assistant: Assistant::Idle,
                assistant_detail: Seq::empty(),
                notices: Seq::empty(),
                speaking: false,
                connected: false,
                prefix: prefix@,
                commands: 0,
                dismissed: true,
                blind: None,
            }),
    {
        Companion {
            phase: Phase::Resting,
            assistant: Assistant::Idle,
            assistant_detail: String::new(),
            notices: Notices::new(),
            speaking: false,
            connected: false,
            prefix: prefix.to_owned(),
            commands: 0,
            dismissed: true,
            blind: None,
        }
    }

    /// Returns the current phase.
    pub fn phase(&self) -> (r: &Phase)
        ensures
            r@ == self@.phase,
    {
        &self.phase
    }

    /// Short stable name of the current phase, for logs.
    pub fn phase_name(&self) -> (r: &'static str)
        ensures
            r@ == phase_name_of(self@.phase),
    {
        self.phase.name()
    }

    /// Returns the assistant state last reported by the service.
    pub fn assistant(&self) -> (r: Assistant)
        ensures
            r == self@.assistant,
    {
        self.assistant
    }

    /// Returns true while this exact submission is still unacknowledged.
    pub fn awaiting(&self, submission: &str) -> (r: bool)
        ensures
            r == (self@.phase matches PhaseView::Sent { id, .. } && id == submission@),
    {
        match &self.phase {
            Phase::Sent { id, .. } => crate::text::same(id.as_str(), submission),
            _ => false,
        }
    }

    /// Returns true while an accepted transcript is still unsent.
    pub fn holds_unsent_transcript(&self) -> (r: bool)
        ensures
            r == (self@.phase is Editing || self@.phase is Sent || self@.phase is Retained),
    {
        match &self.phase {
            Phase::Editing { .. } | Phase::Sent { .. } | Phase::Retained { .. } => true,
            _ => false,
        }
    }

    /// Answers where the companion's windows belong right now.
    pub fn posture(&self) -> (r: Posture)
        ensures
            r == posture_of(self@),
    {
        if self.blind.is_some() {
            return Posture::Off;
        }
        match &self.phase {
            Phase::Resting | Phase::Sent { .. } => {
                if self.dismissed {
                    Posture::Off
                } else {
                    Posture::Passive
                }
            },
            Phase::Editing { .. } | Phase::Retained { .. } => Posture::Editing,
            Phase::Listening | Phase::Transcribing | Phase::Failed { .. } => Posture::Watched,
        }
    }

    /// Answers whether the pill belongs on screen, in any posture.
    pub fn on_screen(&self) -> (r: bool)
        ensures
            r == (posture_of(self@) != Posture::Off),
    {
        self.posture().on_screen()
    }

    /// Returns true while the host has no usable pill window.
    pub fn blinded(&self) -> (r: bool)
        ensures
            r == (self@.blind is Some),
    {
        self.blind.is_some()
    }

    /// Gives up an interaction whose pill could not be put on screen.
    ///
    /// An accepted transcript is already on disk and comes back on the next
    /// start, so nothing is thrown away here.
    pub fn abandon(&mut self, reason: String) -> (actions: Vec<Action>)
        ensures
            final(self)@ == (CompanionView {
                phase: PhaseView::Resting,
                blind: Some(reason@),
                ..old(self)@
            }),
            actions_view(actions@) == match old(self)@.phase {
                PhaseView::Listening => seq![ActionView::DiscardRecording],
                PhaseView::Transcribing => seq![ActionView::CancelTranscription],
                _ => Seq::<ActionView>::empty(),
            },
    {
        let actions = match &self.phase {
            Phase::Listening => one(Action::DiscardRecording),
            Phase::Transcribing => one(Action::CancelTranscription),
            _ => nothing(),
        };
        self.phase = Phase::Resting;
        self.blind = Some(reason);
        actions
    }

    /// Reports a durable-storage failure that has no transcript behind it.
    pub fn report_store_failure(&mut self, reason: String)
        ensures
            final(self)@ == if old(self)@.phase is Resting {
                in_phase(old(self)@, PhaseView::Failed { reason: reason@ })
            } else {
                old(self)@
            },
    {
        if !matches!(self.phase, Phase::Resting) {
            return;
        }
        self.phase = Phase::Failed { reason };
    }

    /// Reopens the pill on a transcript recovered from a previous process.
    ///
    /// Whether the previous process delivered it is unknowable here, so it is
    /// treated as possibly delivered: it cannot be edited, and nothing sends it
    /// again without the person saying so.
    pub fn restore(&mut self, pending: Pending)
        ensures
            final(self)@ == if old(self)@.phase is Resting {
                in_phase(
                    old(self)@,
                    PhaseView::Retained {
                        transcript: pending.text@,
                        id: pending.id@,
                        reason: with_choices(RESTORED_REASON@),
                        delivery: Delivery::Uncertain,
                        warned: false,
                    },
                )
            } else {
                old(self)@
            },
    {
        if !matches!(self.phase, Phase::Resting) {
            return;
        }
        let reason = with_choices_of(RESTORED_REASON.to_owned());
        self.phase = Phase::Retained {
            transcript: pending.text,
            id: pending.id,
            reason,
            delivery: Delivery::Uncertain,
            warned: false,
        };
    }

    /// Records whether the service connection is currently open.
    ///
    /// A new connection begins a new replay of notices; a lost one leaves the
    /// assistant idle with nothing to say.
    pub fn set_connected(&mut self, connected: bool)
        ensures
            final(self)@ == if connected {
                CompanionView { connected: true, notices: Seq::empty(), ..old(self)@ }
            } else {
                CompanionView {
                    connected: false,
                    assistant: Assistant::Idle,
                    assistant_detail: Seq::empty(),
                    ..old(self)@
                }
            },
    {
        self.connected = connected;
        if connected {
            self.notices = Notices::new();
        } else {
            self.assistant = Assistant::Idle;
            self.assistant_detail = String::new();
        }
    }

    /// Raises, replaces, or clears one identified ambient notice.
    pub fn set_notice(&mut self, id: String, state: NoticeState, detail: String)
        ensures
            final(self)@ == (CompanionView {
                notices: with_notice(old(self)@.notices, id@, state, detail@),
                ..old(self)@
            }),
    {
        self.notices.set(id, state, detail);
    }

    /// Returns true while the service connection is open.
    pub fn connected(&self) -> (r: bool)
        ensures
            r == self@.connected,
    {
        self.connected
    }

    /// Records the assistant state the service reported.
    pub fn set_assistant(&mut self, state: Assistant, detail: String)
        ensures
            final(self)@ == (CompanionView {
                assistant: state,
                assistant_detail: detail@,
                ..old(self)@
            }),
    {
        self.assistant = state;
        self.assistant_detail = detail;
    }

    /// Records whether the companion is speaking an answer.
    pub fn set_speaking(&mut self, speaking: bool)
        ensures
            final(self)@ == (CompanionView { speaking, ..old(self)@ }),
    {
        self.speaking = speaking;
    }

    /// Returns the assistant state the companion is showing, speech included.
    pub fn shown_assistant(&self) -> (r: Assistant)
        ensures
            r == shown_assistant_of(self@),
    {
        if self.speaking {
            Assistant::Speaking
        } else {
            self.assistant
        }
    }

    /// Applies one event and returns the actions the host must run.
    ///
    /// The person asking for the pill again is what tries a window that could
    /// not be opened again, and both gestures that ask for it bring a dismissed
    /// pill home.
    pub fn apply(&mut self, event: Event) -> (actions: Vec<Action>)
        requires
            event is Stop || event is Transcribed ==> old(self)@.commands < u64::MAX,
        ensures
            final(self)@ == applied(old(self)@, event@).0,
            actions_view(actions@) == applied(old(self)@, event@).1,
    {
        if matches!(event, Event::Activate | Event::Reveal) {
            self.blind = None;
            self.dismissed = false;
        }
        self.transition(event)
    }

    /// The next identifier for anything this companion asks the service for.
    fn next_id(&mut self) -> (id: String)
        requires
            old(self)@.commands < u64::MAX,
        ensures
            final(self)@ == (CompanionView { commands: old(self)@.commands + 1, ..old(self)@ }),
            id@ == command_id(old(self)@.prefix, old(self)@.commands + 1),
    {
        self.commands = self.commands + 1;
        let mut id = self.prefix.clone();
        id.append("-");
        push_decimal(&mut id, self.commands);
        id
    }

    /// Sends one transcript and records what was already known about it.
    fn submit(&mut self, transcript: String, id: String, forced: bool) -> (actions: Vec<Action>)
        ensures
            final(self)@ == submitted(old(self)@, transcript@, id@, forced).0,
            actions_view(actions@) == submitted(old(self)@, transcript@, id@, forced).1,
    {
        let mut actions = Vec::new();
        actions.push(Action::PersistPending { id: id.clone(), text: transcript.clone() });
        actions.push(Action::Submit { id: id.clone(), text: transcript.clone() });
        self.phase = Phase::Sent {
            transcript,
            id,
            prior: if forced {
                Delivery::Uncertain
            } else {
                Delivery::Refused
            },
        };
        proof {
            assert(actions_view(actions@) =~= submitted(old(self)@, transcript@, id@, forced).1);
        }
        actions
    }

    #[verifier::rlimit(60)]
    fn transition(&mut self, event: Event) -> (actions: Vec<Action>)
        requires
            event is Stop || event is Transcribed ==> old(self)@.commands < u64::MAX,
        ensures
            final(self)@ == transition(old(self)@, event@).0,
            actions_view(actions@) == transition(old(self)@, event@).1,
    {
        let keep = matches!(event, Event::Cancel);
        let ghost before = self@;
        let mut phase = Phase::Resting;
        std::mem::swap(&mut phase, &mut self.phase);
        match event {
            Event::Activate => match phase {
                Phase::Resting | Phase::Failed { .. } => {
                    self.phase = Phase::Listening;
                    one(Action::StartRecording)
                },
                Phase::Listening => {
                    self.phase = Phase::Transcribing;
                    one(Action::StopRecording)
                },
                other => {
                    self.phase = other;
                    nothing()
                },
            },
            Event::Escape | Event::Cancel => match phase {
                Phase::Listening => self.close(keep, one(Action::DiscardRecording)),
                Phase::Transcribing => self.close(keep, one(Action::CancelTranscription)),
                Phase::Editing { id, .. } => self.close(keep, one(Action::DiscardPending { id })),
                Phase::Retained { id, .. } => self.close(keep, one(Action::DiscardPending { id })),
                Phase::Failed { .. } => self.close(keep, nothing()),
                other => {
                    self.phase = other;
                    if !keep {
                        self.dismissed = true;
                    }
                    nothing()
                },
            },
            Event::Reveal => {
                self.phase = phase;
                nothing()
            },
            Event::Dismiss => {
                if matches!(phase, Phase::Resting | Phase::Sent { .. }) {
                    self.dismissed = true;
                }
                self.phase = phase;
                nothing()
            },
            Event::Stop => {
                self.phase = phase;
                if self.assistant != Assistant::Working {
                    return nothing();
                }
                let id = self.next_id();
                one(Action::Abort { id })
            },
            Event::Enter { text } => match phase {
                Phase::Editing { transcript, id, notice } => {
                    let accepted = match &text {
                        Some(t) => trim(t.as_str()),
                        None => trim(transcript.as_str()),
                    };
                    if accepted.as_str().is_empty() {
                        self.phase = Phase::Editing { transcript, id, notice };
                        return nothing();
                    }
                    self.submit(accepted, id, false)
                },
                Phase::Retained { transcript, id, reason, delivery, warned } => {
                    if delivery == Delivery::Refused {
                        let accepted = match &text {
                            Some(t) => trim(t.as_str()),
                            None => trim(transcript.as_str()),
                        };
                        if accepted.as_str().is_empty() {
                            self.phase = Phase::Retained { transcript, id, reason, delivery, warned };
                            return nothing();
                        }
                        self.submit(accepted, id, false)
                    } else if !warned {
                        self.phase = Phase::Retained {
                            transcript,
                            id,
                            reason: FORCE_WARNING.to_owned(),
                            delivery: Delivery::Uncertain,
                            warned: true,
                        };
                        nothing()
                    } else {
                        self.submit(transcript, id, true)
                    }
                },
                other => {
                    self.phase = other;
                    nothing()
                },
            },
            Event::Transcribed(words) => match phase {
                Phase::Transcribing => {
                    let transcript = trim(words.as_str());
                    if transcript.as_str().is_empty() {
                        self.phase = Phase::Failed { reason: NOTHING_TRANSCRIBED.to_owned() };
                        return nothing();
                    }
                    let id = self.next_id();
                    let persist = Action::PersistPending { id: id.clone(), text: transcript.clone() };
                    self.phase = Phase::Editing { transcript, id, notice: String::new() };
                    one(persist)
                },
                other => {
                    self.phase = other;
                    nothing()
                },
            },
            Event::TranscriptionFailed(reason) => match phase {
                Phase::Transcribing => {
                    self.phase = Phase::Failed { reason };
                    nothing()
                },
                other => {
                    self.phase = other;
                    nothing()
                },
            },
            Event::RecordingFailed(reason) => match phase {
                Phase::Listening => {
                    self.phase = Phase::Failed { reason };
                    one(Action::DiscardRecording)
                },
                Phase::Transcribing => {
                    self.phase = Phase::Failed { reason };
                    one(Action::CancelTranscription)
                },
                other => {
                    self.phase = other;
                    nothing()
                },
            },
            Event::PersistFailed(reason) => match phase {
                Phase::Sent { transcript, id, prior } => {
                    self.phase = Phase::Retained {
                        transcript,
                        id,
                        reason,
                        delivery: prior,
                        warned: false,
                    };
                    nothing()
                },
                Phase::Editing { transcript, id, .. } => {
                    self.phase = Phase::Editing { transcript, id, notice: reason };
                    nothing()
                },
                Phase::Retained { transcript, id, delivery, warned, .. } => {
                    self.phase = Phase::Retained { transcript, id, reason, delivery, warned };
                    nothing()
                },
                other => {
                    self.phase = other;
                    nothing()
                },
            },
            Event::DiscardFailed(reason) => match phase {
                Phase::Resting => {
                    self.phase = Phase::Failed { reason };
                    nothing()
                },
                other => {
                    self.phase = other;
                    nothing()
                },
            },
            Event::Acknowledged(answered) => {
                let matched = match &phase {
                    Phase::Sent { id, .. } | Phase::Retained { id, .. } => *id == answered,
                    _ => false,
                };
                if matched {
                    self.phase = Phase::Resting;
                    one(Action::ClearPending)
                } else {
                    self.phase = phase;
                    nothing()
                }
            },
            Event::SubmissionFailed { id: failed, reason } => match phase {
                Phase::Sent { transcript, id, prior } => {
                    if id == failed {
                        let reason = match prior {
                            Delivery::Refused => reason,
                            Delivery::Uncertain => with_choices_of(reason),
                        };
                        self.phase = Phase::Retained {
                            transcript,
                            id,
                            reason,
                            delivery: prior,
                            warned: false,
                        };
                    } else {
                        self.phase = Phase::Sent { transcript, id, prior };
                    }
                    nothing()
                },
                other => {
                    self.phase = other;
                    nothing()
                },
            },
            Event::SubmissionUncertain { id: uncertain, reason } => match phase {
                Phase::Sent { transcript, id, prior } => {
                    if id == uncertain {
                        self.phase = Phase::Retained {
                            transcript,
                            id,
                            reason: with_choices_of(reason),
                            delivery: Delivery::Uncertain,
                            warned: false,
                        };
                    } else {
                        self.phase = Phase::Sent { transcript, id, prior };
                    }
                    nothing()
                },
                other => {
                    self.phase = other;
                    nothing()
                },
            },
            Event::Copy => {
                let copied = match &phase {
                    Phase::Editing { transcript, .. } | Phase::Retained { transcript, .. } => one(
                        Action::CopyTranscript { text: transcript.clone() },
                    ),
                    _ => nothing(),
                };
                self.phase = phase;
                copied
            },
        }
    }

    /// Ends an interaction on the person's say-so, and says whether the pill
    /// stays.
    fn close(&mut self, keep: bool, actions: Vec<Action>) -> (r: Vec<Action>)
        ensures
            final(self)@ == closed(old(self)@, keep),
            r == actions,
    {
        self.phase = Phase::Resting;
        if !keep {
            self.dismissed = true;
        }
        actions
    }

    fn resting_state(&self) -> (r: &'static str)
        ensures
            r@ == resting_state_of(self@),
    {
        if !self.connected {
            return "disconnected";
        }
        self.shown_assistant().name()
    }

    fn resting_detail(&self) -> (r: String)
        ensures
            r@ == resting_detail_of(self@),
    {
        if !self.connected {
            return UNAVAILABLE.to_owned();
        }
        self.assistant_detail.clone()
    }

    /// Returns what the pill must render right now.
    pub fn presentation(&self) -> (r: Presentation)
        ensures
            r@ == presentation_of(self@),
    {
        if let Some(reason) = &self.blind {
            return Presentation {
                state: "error",
                text: String::new(),
                detail: reason.clone(),
                editable: false,
                recording: false,
            };
        }
        match &self.phase {
            Phase::Resting => Presentation {
                state: self.resting_state(),
                text: String::new(),
                detail: self.resting_detail(),
                editable: false,
                recording: false,
            },
            Phase::Listening => Presentation {
                state: "listening",
                text: String::new(),
                detail: String::new(),
                editable: false,
                recording: true,
            },
            Phase::Transcribing => Presentation {
                state: "transcribing",
                text: String::new(),
                detail: String::new(),
                editable: false,
                recording: false,
            },
            Phase::Editing { transcript, notice, .. } => Presentation {
                state: "editing",
                text: transcript.clone(),
                detail: notice.clone(),
                editable: true,
                recording: false,
            },
            Phase::Sent { transcript, .. } => Presentation {
                state: "sent",
                text: transcript.clone(),
                detail: String::new(),
                editable: false,
                recording: false,
            },
            Phase::Retained { transcript, reason, delivery, .. } => Presentation {
                state: match delivery {
                    Delivery::Refused => "retained",
                    Delivery::Uncertain => "uncertain",
                },
                text: transcript.clone(),
                detail: reason.clone(),
                editable: *delivery == Delivery::Refused,
                recording: false,
            },
            Phase::Failed { reason } => Presentation {
                state: "error",
                text: String::new(),
                detail: reason.clone(),
                editable: false,
                recording: false,
            },
        }
    }

    /// Returns the tray state and its own detail for the current companion.
    ///
    /// An error notice outranks an attention one, and among notices of one
    /// kind the one with the least identifier is shown.
    pub fn tray_presentation(&self) -> (r: (&'static str, String))
        ensures
            r.0@ == tray_of(self@).0,
            r.1@ == tray_of(self@).1,
    {
        if let Some(reason) = &self.blind {
            return ("error", reason.clone());
        }
        match &self.phase {
            Phase::Listening => return ("listening", String::new()),
            Phase::Transcribing => return ("transcribing", String::new()),
            Phase::Failed { reason } => return ("error", reason.clone()),
            Phase::Retained { reason, .. } => return ("attention", reason.clone()),
            _ => {},
        }
        match self.notices.shown() {
            Some(notice) => {
                let state = if notice.state == NoticeState::Error {
                    "error"
                } else {
                    "attention"
                };
                (state, notice.detail.clone())
            },
            None => (self.resting_state(), self.resting_detail()),
        }
    }

    /// Returns the tray state name for the current companion and service state.
    pub fn tray_state(&self) -> (r: &'static str)
        ensures
            r@ == tray_of(self@).0,
    {
        self.tray_presentation().0
    }
}

} // verus!
