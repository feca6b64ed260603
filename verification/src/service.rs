//! Scufris protocol v11 typed channels.
//!
//! Surface, agent, and control traffic use separate sockets and separate
//! enums. Each validator accepts only what its channel and direction may carry,
//! and names the first field that is out of bounds.
use vstd::prelude::*;

use crate::control::{
    bounded_text, identifier, is_bounded_text, is_identifier, runtime_socket, runtime_socket_path,
    MessageError, MAX_IDENTIFIER_LENGTH,
};
use crate::text::{byte_count, byte_len, control, has_char, is_control, same};

verus! {

pub const SERVICE_VERSION: u32 = 11;
pub const SURFACE_FILE_NAME: &'static str = "surface.sock";
pub const AGENT_FILE_NAME: &'static str = "agent.sock";
pub const CONTROL_FILE_NAME: &'static str = "control.sock";
pub const CONTENT_FILE_NAME: &'static str = "content.sock";
pub const CONVERSATION_ENTRIES: usize = 200;
/// The surface an unprompted answer carries when no surface has spoken yet.
/// No surface may register it.
pub const UNPROMPTED_SURFACE: &'static str = "unprompted";
/// Surface name a leased terminal's turns and answers are recorded under. No
/// surface may register it.
pub const TERMINAL_SURFACE: &'static str = "terminal";
/// Job-ownership token a conversation-owned job carries.
pub const FOREGROUND_OWNER: &'static str = "foreground";
pub const MAX_SURFACE_NAME_BYTES: usize = 256;
pub const MAX_TEXT_BYTES: usize = 8 * 1024;
pub const MAX_DETAILS_BYTES: usize = 32 * 1024;
pub const MAX_DETAIL_BYTES: usize = 4 * 1024;
pub const MAX_WIDGETS: usize = 32;
pub const MAX_WIDGET_DESCRIPTION_BYTES: usize = 2 * 1024;
pub const MAX_WIDGET_SCHEMA_BYTES: usize = 16 * 1024;
pub const MAX_WIDGET_ARGUMENTS_BYTES: usize = 16 * 1024;
pub const MAX_ATTACHMENTS: usize = 8;
pub const MAX_ATTACHMENT_NAME_BYTES: usize = 255;
pub const MAX_MEDIA_TYPE_BYTES: usize = 127;
pub const MAX_ATTACHMENT_BYTES: u64 = 16 * 1024 * 1024;
/// One citation group per job, and what a group may carry.
pub const MAX_CITATIONS: usize = 4;
pub const MAX_RECEIPTS: usize = 6;
pub const MAX_OFFERS: usize = 2;
pub const MAX_BADGE_BYTES: usize = 64;
/// How many job rows a surface is asked to draw at once.
pub const MAX_JOB_ROWS: usize = 8;
pub const MAX_JOB_SUMMARY_BYTES: usize = 512;
/// How many briefing generations a surface can be asked to draw.
pub const MAX_BRIEFING_ROWS: usize = 64;
pub const MAX_BRIEFING_SUMMARY_BYTES: usize = 256;
/// Canonical conversation entries one catch-up page may carry.
pub const MAX_CONVERSATION_PAGE: usize = 64;
/// Images one terminal turn may report having carried.
pub const MAX_TURN_IMAGES: u8 = 8;
/// Maximum accepted length of one filesystem path on the wire.
pub const MAX_PATH_BYTES: usize = 4 * 1024;

/// One JSON value, as the compact UTF-8 encoding serde_json writes for it.
///
/// The protocol carries schemas, arguments, and details without reading them;
/// what it bounds is their encoded size and whether they are objects.
#[derive(Debug, Clone, PartialEq, Eq)]
pub struct Json {
    pub encoded: Vec<u8>,
}

/// Whether a JSON value is an object: its compact encoding opens with a brace,
/// which no other kind of value's does.
pub open spec fn json_object(j: Json) -> bool {
    j.encoded@.len() > 0 && j.encoded@[0] == 123u8
}

impl Json {
    /// Answers whether the value is an object.
    pub fn is_object(&self) -> (r: bool)
        ensures
            r == json_object(*self),
    {
        self.encoded.len() > 0 && self.encoded[0] == 123u8
    }
}

#[derive(Debug, Clone, PartialEq, Eq)]
pub struct WidgetDefinition {
    pub name: String,
    pub description: String,
    pub input_schema: Json,
}

#[derive(Debug, Clone, PartialEq, Eq)]
pub struct WidgetCall {
    pub id: String,
    pub name: String,
    pub arguments: Json,
}

#[derive(Debug, Clone, PartialEq, Eq)]
pub struct AttachmentDescriptor {
    pub id: String,
    pub name: String,
    pub media_type: String,
    pub size: u64,
}

#[derive(Debug, Clone, PartialEq, Eq)]
pub struct SurfaceRegistration {
    pub id: String,
    pub name: String,
    pub widgets: Vec<WidgetDefinition>,
}

/// What one measured fact says, in the only four words a badge has.
#[derive(Debug, Clone, Copy, PartialEq, Eq, Structural)]
pub enum ReceiptState {
    /// The fact is true.
    Measured,
    /// The fact was measured and is false.
    Refuted,
    /// The worker said it and no fact backs it.
    Claimed,
    /// It could not be measured, and the receipt says why.
    Unknown,
}

/// One measured fact about one job, as a badge.
#[derive(Debug, Clone, PartialEq, Eq)]
pub struct Receipt {
    pub label: String,
    pub value: String,
    pub state: ReceiptState,
}

/// One thing the agent offers to do next about one job.
#[derive(Debug, Clone, PartialEq, Eq)]
pub struct Offer {
    pub id: String,
    pub label: String,
    pub taken: bool,
}

/// Every badge one message carries about one job.
#[derive(Debug, Clone, PartialEq, Eq)]
pub struct Citation {
    pub job_id: String,
    pub badges: Vec<Receipt>,
    pub offers: Vec<Offer>,
}

/// What a delegated job is doing, for the list at the foot of the chat.
#[derive(Debug, Clone, Copy, PartialEq, Eq, Structural)]
pub enum JobRowState {
    Working,
    Blocked,
    Done,
    Failed,
}

impl JobRowState {
    /// Whether the job has stopped. A stopped row is filed rather than ended.
    pub fn terminal(self) -> (r: bool)
        ensures
            r == (self == JobRowState::Done || self == JobRowState::Failed),
    {
        matches!(self, JobRowState::Done | JobRowState::Failed)
    }
}

/// One delegated job, as a row.
#[derive(Debug, Clone, PartialEq, Eq)]
pub struct JobRow {
    pub id: String,
    pub project: Option<String>,
    pub state: JobRowState,
    /// Unix seconds the job started, for the age the row shows.
    pub since: u64,
    pub summary: String,
}

/// What a surface asks of one job row.
#[derive(Debug, Clone, Copy, PartialEq, Eq, Structural)]
pub enum JobAction {
    Cancel,
    Archive,
}

/// The collection half of one briefing generation.
#[derive(Debug, Clone, Copy, PartialEq, Eq, Structural)]
pub enum BriefingCollectionState {
    Collecting,
    Collected,
    Failed,
}

/// The independent terminal-delivery half of one briefing generation.
#[derive(Debug, Clone, Copy, PartialEq, Eq, Structural)]
pub enum BriefingDeliveryState {
    Pending,
    InProgress,
    /// The service circuit breaker stopped automatic model turns.
    Failed,
    Delivered,
}

/// Quiet lifecycle state for one generation-fenced scheduled briefing.
#[derive(Debug, Clone, PartialEq, Eq)]
pub struct BriefingRow {
    /// Opaque generation identity. Date and profile are labels, not identity.
    pub id: String,
    pub date: String,
    pub profile: String,
    pub collection: BriefingCollectionState,
    pub delivery: BriefingDeliveryState,
    /// Unix seconds when collection began.
    pub since: u64,
    pub completed: u32,
    pub total: u32,
    pub failed: u32,
    pub summary: String,
}

/// A terminal collection that used at least one source failure.
pub open spec fn briefing_partial(row: BriefingRow) -> bool {
    row.collection == BriefingCollectionState::Collected && row.failed > 0
}

impl BriefingRow {
    /// Collection or terminal delivery still has work to do.
    pub fn active(&self) -> (r: bool)
        ensures
            r == (self.collection == BriefingCollectionState::Collecting || self.delivery
                == BriefingDeliveryState::Pending || self.delivery == BriefingDeliveryState::InProgress),
    {
        self.collection == BriefingCollectionState::Collecting || matches!(
            self.delivery,
            BriefingDeliveryState::Pending | BriefingDeliveryState::InProgress
        )
    }

    /// A terminal collection used at least one source failure. This uses only
    /// the measured collection state and failed-source count.
    pub fn partial(&self) -> (r: bool)
        ensures
            r == briefing_partial(*self),
    {
        self.collection == BriefingCollectionState::Collected && self.failed > 0
    }

    /// A delivered result that stays visible until presentation dismissal.
    pub fn requires_attention(&self) -> (r: bool)
        ensures
            r == (self.delivery == BriefingDeliveryState::Failed || (self.delivery
                == BriefingDeliveryState::Delivered && (self.collection
                == BriefingCollectionState::Failed || briefing_partial(*self)))),
    {
        self.delivery == BriefingDeliveryState::Failed || (self.delivery
            == BriefingDeliveryState::Delivered && (self.collection
            == BriefingCollectionState::Failed || self.partial()))
    }

    /// Whether a surface may dismiss this generation from presentation.
    pub fn dismissible(&self) -> (r: bool)
        ensures
            r == (self.collection != BriefingCollectionState::Collecting && self.delivery
                == BriefingDeliveryState::Delivered),
    {
        self.collection != BriefingCollectionState::Collecting && self.delivery
            == BriefingDeliveryState::Delivered
    }
}

/// The terminal model turn attached to a briefing update.
#[derive(Debug, Clone, PartialEq, Eq)]
pub struct BriefingWake {
    /// Stable across retries and service restarts.
    pub event_id: String,
    pub custom_type: String,
    pub text: String,
    pub details: Option<Json>,
}

#[derive(Debug, Clone, Copy, PartialEq, Eq, Structural)]
pub enum ConversationRole {
    User,
    Assistant,
}

#[derive(Debug, Clone, PartialEq, Eq)]
pub struct ConversationMessage {
    pub role: ConversationRole,
    pub surface: String,
    pub text: String,
    pub details: Option<String>,
    pub widgets: Option<Vec<WidgetCall>>,
    pub attachments: Vec<AttachmentDescriptor>,
    pub receipts: Vec<Citation>,
}

/// Which process is the agent right now.
#[derive(Debug, Clone, Copy, PartialEq, Eq, Structural)]
pub enum AgentHolder {
    /// The child the service started and can restart.
    Managed,
    Terminal,
}

impl AgentHolder {
    pub fn name(self) -> (r: &'static str)
        ensures
            r@ == (if self == AgentHolder::Managed {
                "managed"@
            } else {
                "terminal"@
            }),
    {
        match self {
            AgentHolder::Managed => "managed",
            AgentHolder::Terminal => "terminal",
        }
    }
}

/// What a terminal says about itself when it asks for the lease.
#[derive(Debug, Clone, PartialEq, Eq)]
pub struct LeaseHolder {
    pub pid: u32,
    /// The session file this terminal is writing, when it has one yet.
    pub session_file: Option<String>,
    pub cwd: String,
}

/// The Pi session one agent is writing, whichever agent it is.
#[derive(Debug, Clone, PartialEq, Eq)]
pub struct AgentSession {
    pub id: String,
    pub file: String,
    pub cwd: String,
    pub parent: Option<String>,
}

/// One canonical conversation entry, as a joining agent is handed it.
#[derive(Debug, Clone, PartialEq, Eq)]
pub struct ConversationEntry {
    pub sequence: u64,
    pub role: ConversationRole,
    pub surface: String,
    pub text: String,
}

#[derive(Debug, Clone, Copy, PartialEq, Eq, Structural)]
pub enum ScufrisState {
    Failed,
    Blocked,
    Working,
    Starting,
    Idle,
}

impl ScufrisState {
    pub fn name(self) -> (r: &'static str)
        ensures
            r@ == match self {
                ScufrisState::Failed => "failed"@,
                ScufrisState::Blocked => "blocked"@,
                ScufrisState::Working => "working"@,
                ScufrisState::Starting => "starting"@,
                ScufrisState::Idle => "idle"@,
            },
    {
        match self {
            ScufrisState::Failed => "failed",
            ScufrisState::Blocked => "blocked",
            ScufrisState::Working => "working",
            ScufrisState::Starting => "starting",
            ScufrisState::Idle => "idle",
        }
    }
}

/// Whether the holder is the one that costs no bytes on the wire.
pub fn is_managed(holder: &AgentHolder) -> (r: bool)
    ensures
        r == (*holder == AgentHolder::Managed),
{
    matches!(holder, AgentHolder::Managed)
}

/// Whether an image count is the one that costs no bytes on the wire.
pub fn is_zero(value: &u8) -> (r: bool)
    ensures
        r == (*value == 0),
{
    *value == 0
}

// ----------------------------------------------------------------------------
// Validation, as the first problem each message has.
// ----------------------------------------------------------------------------

/// A validation outcome agrees with the problem it should name.
pub open spec fn reports(r: Result<(), MessageError>, problem: Option<Seq<char>>) -> bool {
    match r {
        Ok(_) => problem is None,
        Err(MessageError::InvalidSubmission(field)) => problem == Some(field@),
        Err(_) => false,
    }
}

/// The first of two problems.
pub open spec fn or_else(first: Option<Seq<char>>, then: Option<Seq<char>>) -> Option<Seq<char>> {
    if first is Some {
        first
    } else {
        then
    }
}

/// A problem named `field` unless `ok`.
pub open spec fn unless(ok: bool, field: Seq<char>) -> Option<Seq<char>> {
    if ok {
        None
    } else {
        Some(field)
    }
}

/// The first problem among items `i` to `n`.
pub open spec fn first_problem(f: spec_fn(int) -> Option<Seq<char>>, i: int, n: int) -> Option<Seq<char>>
    decreases n - i,
{
    if i >= n {
        None
    } else if f(i) is Some {
        f(i)
    } else {
        first_problem(f, i + 1, n)
    }
}

fn invalid(field: &'static str) -> (r: Result<(), MessageError>)
    ensures
        reports(r, Some(field@)),
{
    Err(MessageError::InvalidSubmission(field))
}

fn text(value: &str, max: usize, field: &'static str, allow_empty: bool) -> (r: Result<(), MessageError>)
    ensures
        reports(r, unless(bounded_text(value@, max as nat, allow_empty), field@)),
{
    if is_bounded_text(value, max, allow_empty) {
        Ok(())
    } else {
        invalid(field)
    }
}

fn id(value: &str, field: &'static str) -> (r: Result<(), MessageError>)
    ensures
        reports(r, unless(identifier(value@), field@)),
{
    if is_identifier(value) {
        Ok(())
    } else {
        invalid(field)
    }
}

/// An absolute path carried for the record: bounded text that starts with a
/// slash and carries no line break.
pub open spec fn record_path(value: Seq<char>) -> bool {
    &&& bounded_text(value, MAX_PATH_BYTES as nat, false)
    &&& value.len() > 0 && value[0] == '/'
    &&& !value.contains('\n')
}

fn path(value: &str, field: &'static str) -> (r: Result<(), MessageError>)
    ensures
        reports(r, unless(record_path(value@), field@)),
{
    text(value, MAX_PATH_BYTES, field, false)?;
    if value.unicode_len() == 0 || value.get_char(0) != '/' || has_char(value, '\n') {
        return invalid(field);
    }
    Ok(())
}

/// The first problem with a Pi session an agent reports writing.
pub open spec fn session_problem(session: AgentSession) -> Option<Seq<char>> {
    or_else(
        unless(bounded_text(session.id@, MAX_IDENTIFIER_LENGTH as nat, false), "session id"@),
        or_else(
            unless(record_path(session.file@), "session file"@),
            or_else(
                unless(record_path(session.cwd@), "session cwd"@),
                match session.parent {
                    Some(parent) => unless(record_path(parent@), "session parent"@),
                    None => None,
                },
            ),
        ),
    )
}

/// Validates one Pi session an agent reports writing.
pub fn validate_agent_session(session: &AgentSession) -> (r: Result<(), MessageError>)
    ensures
        reports(r, session_problem(*session)),
{
    text(session.id.as_str(), MAX_IDENTIFIER_LENGTH, "session id", false)?;
    path(session.file.as_str(), "session file")?;
    path(session.cwd.as_str(), "session cwd")?;
    match &session.parent {
        Some(parent) => path(parent.as_str(), "session parent"),
        None => Ok(()),
    }
}

/// The problem with one canonical entry.
pub open spec fn entry_problem(entry: ConversationEntry) -> Option<Seq<char>> {
    or_else(
        unless(identifier(entry.surface@), "conversation surface"@),
        unless(bounded_text(entry.text@, MAX_TEXT_BYTES as nat, false), "conversation text"@),
    )
}

/// The first problem with a page of canonical entries.
pub open spec fn entries_problem(entries: Seq<ConversationEntry>) -> Option<Seq<char>> {
    if entries.len() > MAX_CONVERSATION_PAGE {
        Some("conversation entries"@)
    } else {
        first_problem(|i: int| entry_problem(entries[i]), 0, entries.len() as int)
    }
}

/// Validates one page of canonical entries against the bounds both ends hold.
fn conversation_entries(entries: &[ConversationEntry]) -> (r: Result<(), MessageError>)
    ensures
        reports(r, entries_problem(entries@)),
{
    if entries.len() > MAX_CONVERSATION_PAGE {
        return invalid("conversation entries");
    }
    let ghost f = |i: int| entry_problem(entries@[i]);
    let n = entries.len();
    let mut i: usize = 0;
    while i < n
        invariant
            n == entries@.len(),
            n <= MAX_CONVERSATION_PAGE,
            i <= n,
            f == (|i: int| entry_problem(entries@[i])),
            first_problem(f, 0, n as int) == first_problem(f, i as int, n as int),
        decreases n - i,
    {
        let entry = &entries[i];
        id(entry.surface.as_str(), "conversation surface")?;
        text(entry.text.as_str(), MAX_TEXT_BYTES, "conversation text", false)?;
        i = i + 1;
    }
    Ok(())
}


/// A character a media type's two halves may carry.
pub open spec fn media_char(c: char) -> bool {
    ('a' <= c && c <= 'z') || ('A' <= c && c <= 'Z') || ('0' <= c && c <= '9') || c == '!' || c
        == '#' || c == '$' || c == '&' || c == '^' || c == '_' || c == '.' || c == '+' || c == '-'
}

/// A media type: within [`MAX_MEDIA_TYPE_BYTES`], two non-empty halves of
/// media characters around the one slash.
pub open spec fn media_type(s: Seq<char>) -> bool {
    &&& byte_len(s) <= MAX_MEDIA_TYPE_BYTES
    &&& exists|k: int|
        0 < k < s.len() - 1 && s[k] == '/' && forall|i: int|
            0 <= i < s.len() && i != k ==> media_char(#[trigger] s[i])
}

fn is_media_char(c: char) -> (r: bool)
    ensures
        r == media_char(c),
{
    ('a' <= c && c <= 'z') || ('A' <= c && c <= 'Z') || ('0' <= c && c <= '9') || c == '!' || c
        == '#' || c == '$' || c == '&' || c == '^' || c == '_' || c == '.' || c == '+' || c == '-'
}

fn is_media_type(s: &str) -> (r: bool)
    ensures
        r == media_type(s@),
{
    if byte_count(s) > MAX_MEDIA_TYPE_BYTES {
        return false;
    }
    let n = s.unicode_len();
    let mut k: usize = 0;
    while k < n && s.get_char(k) != '/'
        invariant
            n == s@.len(),
            k <= n,
            forall|j: int| 0 <= j < k ==> s@[j] != '/',
        decreases n - k,
    {
        k = k + 1;
    }
    if k == n || k == 0 || k + 1 >= n {
        proof {
            assert forall|w: int| 0 < w < s@.len() - 1 && s@[w] == '/' implies !(forall|i: int|
                0 <= i < s@.len() && i != w ==> media_char(#[trigger] s@[i])) by {
                assert(k < n);
                assert(w != k ==> !media_char(s@[k as int]));
            }
        }
        return false;
    }
    let mut i: usize = 0;
    while i < n
        invariant
            n == s@.len(),
            0 < k < n - 1,
            s@[k as int] == '/',
            forall|j: int| 0 <= j < k ==> s@[j] != '/',
            i <= n,
            forall|j: int| 0 <= j < i && j != k ==> media_char(#[trigger] s@[j]),
        decreases n - i,
    {
        if i != k && !is_media_char(s.get_char(i)) {
            proof {
                assert forall|w: int| 0 < w < s@.len() - 1 && s@[w] == '/' implies !(forall|j: int|
                    0 <= j < s@.len() && j != w ==> media_char(#[trigger] s@[j])) by {
                    if w != k {
                        assert(!media_char(s@[k as int]));
                    }
                }
            }
            return false;
        }
        i = i + 1;
    }
    true
}

/// The first problem with one attachment descriptor.
pub open spec fn descriptor_problem(value: AttachmentDescriptor) -> Option<Seq<char>> {
    or_else(
        unless(identifier(value.id@), "attachment id"@),
        or_else(
            unless(
                bounded_text(value.name@, MAX_ATTACHMENT_NAME_BYTES as nat, false),
                "attachment name"@,
            ),
            unless(
                !value.name@.contains('/') && !value.name@.contains('\\') && (forall|i: int|
                    0 <= i < value.name@.len() ==> !is_control(#[trigger] value.name@[i]))
                    && media_type(value.media_type@) && value.size != 0 && value.size
                    <= MAX_ATTACHMENT_BYTES,
                "attachment"@,
            ),
        ),
    )
}

fn has_control(s: &str) -> (r: bool)
    ensures
        r == exists|i: int| 0 <= i < s@.len() && is_control(#[trigger] s@[i]),
{
    let n = s.unicode_len();
    let mut i: usize = 0;
    while i < n
        invariant
            n == s@.len(),
            i <= n,
            forall|j: int| 0 <= j < i ==> !is_control(#[trigger] s@[j]),
        decreases n - i,
    {
        if control(s.get_char(i)) {
            return true;
        }
        i = i + 1;
    }
    false
}

/// Validates one attachment descriptor.
pub fn validate_attachment_descriptor(value: &AttachmentDescriptor) -> (r: Result<(), MessageError>)
    ensures
        reports(r, descriptor_problem(*value)),
{
    id(value.id.as_str(), "attachment id")?;
    text(value.name.as_str(), MAX_ATTACHMENT_NAME_BYTES, "attachment name", false)?;
    let valid_media_type = is_media_type(value.media_type.as_str());
    if has_char(value.name.as_str(), '/') || has_char(value.name.as_str(), '\\') || has_control(
        value.name.as_str(),
    ) || !valid_media_type || value.size == 0 || value.size > MAX_ATTACHMENT_BYTES {
        return invalid("attachment");
    }
    Ok(())
}

/// Whether an earlier item among the first `i` has the same key as item `i`.
pub open spec fn repeats(keys: Seq<Seq<char>>, i: int) -> bool {
    exists|j: int| 0 <= j < i && keys[j] == keys[i]
}

/// The first problem with a message's attachment descriptors.
pub open spec fn descriptors_problem(value: Seq<AttachmentDescriptor>) -> Option<Seq<char>> {
    if value.len() > MAX_ATTACHMENTS {
        Some("attachments"@)
    } else {
        first_problem(
            |i: int|
                or_else(
                    descriptor_problem(value[i]),
                    unless(
                        !repeats(value.map_values(|d: AttachmentDescriptor| d.id@), i),
                        "attachments"@,
                    ),
                ),
            0,
            value.len() as int,
        )
    }
}

fn repeated_descriptor(value: &[AttachmentDescriptor], i: usize) -> (r: bool)
    requires
        i < value@.len(),
    ensures
        r == repeats(value@.map_values(|d: AttachmentDescriptor| d.id@), i as int),
{
    let ghost keys = value@.map_values(|d: AttachmentDescriptor| d.id@);
    let mut j: usize = 0;
    while j < i
        invariant
            i < value@.len(),
            j <= i,
            keys == value@.map_values(|d: AttachmentDescriptor| d.id@),
            forall|m: int| 0 <= m < j ==> keys[m] != keys[i as int],
        decreases i - j,
    {
        if same(value[j].id.as_str(), value[i].id.as_str()) {
            proof {
                assert(keys[j as int] == keys[i as int]);
            }
            return true;
        }
        j = j + 1;
    }
    false
}

fn attachment_descriptors(value: &[AttachmentDescriptor]) -> (r: Result<(), MessageError>)
    ensures
        reports(r, descriptors_problem(value@)),
{
    if value.len() > MAX_ATTACHMENTS {
        return invalid("attachments");
    }
    let ghost f = |i: int|
        or_else(
            descriptor_problem(value@[i]),
            unless(!repeats(value@.map_values(|d: AttachmentDescriptor| d.id@), i), "attachments"@),
        );
    let n = value.len();
    let mut i: usize = 0;
    while i < n
        invariant
            n == value@.len(),
            n <= MAX_ATTACHMENTS,
            i <= n,
            f == (|i: int|
                or_else(
                    descriptor_problem(value@[i]),
                    unless(
                        !repeats(value@.map_values(|d: AttachmentDescriptor| d.id@), i),
                        "attachments"@,
                    ),
                )),
            first_problem(f, 0, n as int) == first_problem(f, i as int, n as int),
        decreases n - i,
    {
        validate_attachment_descriptor(&value[i])?;
        if repeated_descriptor(value, i) {
            return invalid("attachments");
        }
        i = i + 1;
    }
    Ok(())
}

/// The first problem with a message's attachment references.
pub open spec fn attachment_ids_problem(value: Seq<String>) -> Option<Seq<char>> {
    if value.len() > MAX_ATTACHMENTS {
        Some("attachments"@)
    } else {
        first_problem(
            |i: int|
                or_else(
                    unless(identifier(value[i]@), "attachment id"@),
                    unless(!repeats(value.map_values(|s: String| s@), i), "attachments"@),
                ),
            0,
            value.len() as int,
        )
    }
}

fn repeated_text(value: &[String], i: usize) -> (r: bool)
    requires
        i < value@.len(),
    ensures
        r == repeats(value@.map_values(|s: String| s@), i as int),
{
    let ghost keys = value@.map_values(|s: String| s@);
    let mut j: usize = 0;
    while j < i
        invariant
            i < value@.len(),
            j <= i,
            keys == value@.map_values(|s: String| s@),
            forall|m: int| 0 <= m < j ==> keys[m] != keys[i as int],
        decreases i - j,
    {
        if same(value[j].as_str(), value[i].as_str()) {
            proof {
                assert(keys[j as int] == keys[i as int]);
            }
            return true;
        }
        j = j + 1;
    }
    false
}

fn attachment_ids(value: &[String]) -> (r: Result<(), MessageError>)
    ensures
        reports(r, attachment_ids_problem(value@)),
{
    if value.len() > MAX_ATTACHMENTS {
        return invalid("attachments");
    }
    let ghost f = |i: int|
        or_else(
            unless(identifier(value@[i]@), "attachment id"@),
            unless(!repeats(value@.map_values(|s: String| s@), i), "attachments"@),
        );
    let n = value.len();
    let mut i: usize = 0;
    while i < n
        invariant
            n == value@.len(),
            n <= MAX_ATTACHMENTS,
            i <= n,
            f == (|i: int|
                or_else(
                    unless(identifier(value@[i]@), "attachment id"@),
                    unless(!repeats(value@.map_values(|s: String| s@), i), "attachments"@),
                )),
            first_problem(f, 0, n as int) == first_problem(f, i as int, n as int),
        decreases n - i,
    {
        id(value[i].as_str(), "attachment id")?;
        if repeated_text(value, i) {
            return invalid("attachments");
        }
        i = i + 1;
    }
    Ok(())
}


/// The encoded size of a JSON value, in bytes.
pub open spec fn json_bytes(j: Json) -> nat {
    j.encoded@.len()
}

/// The first problem with one widget definition.
pub open spec fn definition_problem(widget: WidgetDefinition) -> Option<Seq<char>> {
    or_else(
        unless(identifier(widget.name@), "widget name"@),
        or_else(
            unless(
                bounded_text(widget.description@, MAX_WIDGET_DESCRIPTION_BYTES as nat, true),
                "widget description"@,
            ),
            unless(
                json_object(widget.input_schema) && json_bytes(widget.input_schema)
                    <= MAX_WIDGET_SCHEMA_BYTES,
                "widget schema"@,
            ),
        ),
    )
}

/// The first problem with the widgets a surface offers.
pub open spec fn definitions_problem(value: Seq<WidgetDefinition>) -> Option<Seq<char>> {
    if value.len() > MAX_WIDGETS {
        Some("widgets"@)
    } else {
        first_problem(|i: int| definition_problem(value[i]), 0, value.len() as int)
    }
}

fn widgets(definitions: &[WidgetDefinition]) -> (r: Result<(), MessageError>)
    ensures
        reports(r, definitions_problem(definitions@)),
{
    if definitions.len() > MAX_WIDGETS {
        return invalid("widgets");
    }
    let ghost f = |i: int| definition_problem(definitions@[i]);
    let n = definitions.len();
    let mut i: usize = 0;
    while i < n
        invariant
            n == definitions@.len(),
            n <= MAX_WIDGETS,
            i <= n,
            f == (|i: int| definition_problem(definitions@[i])),
            first_problem(f, 0, n as int) == first_problem(f, i as int, n as int),
        decreases n - i,
    {
        let widget = &definitions[i];
        id(widget.name.as_str(), "widget name")?;
        text(widget.description.as_str(), MAX_WIDGET_DESCRIPTION_BYTES, "widget description", true)?;
        if !widget.input_schema.is_object() || widget.input_schema.encoded.len()
            > MAX_WIDGET_SCHEMA_BYTES {
            return invalid("widget schema");
        }
        i = i + 1;
    }
    Ok(())
}

/// The first problem with one widget call.
pub open spec fn call_problem(call: WidgetCall) -> Option<Seq<char>> {
    or_else(
        unless(identifier(call.id@), "widget call id"@),
        or_else(
            unless(identifier(call.name@), "widget call name"@),
            unless(json_bytes(call.arguments) <= MAX_WIDGET_ARGUMENTS_BYTES, "widget arguments"@),
        ),
    )
}

/// The first problem with the widget calls a message carries.
pub open spec fn calls_problem(value: Option<Vec<WidgetCall>>) -> Option<Seq<char>> {
    match value {
        None => None,
        Some(calls) => if calls@.len() > MAX_WIDGETS {
            Some("widget calls"@)
        } else {
            first_problem(|i: int| call_problem(calls@[i]), 0, calls@.len() as int)
        },
    }
}

fn calls(value: &Option<Vec<WidgetCall>>) -> (r: Result<(), MessageError>)
    ensures
        reports(r, calls_problem(*value)),
{
    let list = match value {
        Some(list) => list,
        None => return Ok(()),
    };
    if list.len() > MAX_WIDGETS {
        return invalid("widget calls");
    }
    let ghost f = |i: int| call_problem(list@[i]);
    let n = list.len();
    let mut i: usize = 0;
    while i < n
        invariant
            *value == Some(*list),
            n == list@.len(),
            n <= MAX_WIDGETS,
            i <= n,
            f == (|i: int| call_problem(list@[i])),
            first_problem(f, 0, n as int) == first_problem(f, i as int, n as int),
        decreases n - i,
    {
        let call = &list[i];
        id(call.id.as_str(), "widget call id")?;
        id(call.name.as_str(), "widget call name")?;
        if call.arguments.encoded.len() > MAX_WIDGET_ARGUMENTS_BYTES {
            return invalid("widget arguments");
        }
        i = i + 1;
    }
    Ok(())
}

/// The first problem with one proactive wake, whichever channel carries it.
pub open spec fn wake_problem(custom_type: Seq<char>, body: Seq<char>, details: Option<Json>) -> Option<Seq<char>> {
    or_else(
        unless(identifier(custom_type), "wake custom type"@),
        or_else(
            unless(bounded_text(body, MAX_TEXT_BYTES as nat, false), "wake text"@),
            match details {
                Some(d) => unless(json_object(d) && json_bytes(d) <= MAX_DETAILS_BYTES, "wake details"@),
                None => None,
            },
        ),
    )
}

/// Validates one proactive wake independently of its channel, so what the
/// control socket accepts is exactly what the agent is handed.
fn wake(custom_type: &str, body: &str, details: &Option<Json>) -> (r: Result<(), MessageError>)
    ensures
        reports(r, wake_problem(custom_type@, body@, *details)),
{
    id(custom_type, "wake custom type")?;
    text(body, MAX_TEXT_BYTES, "wake text", false)?;
    if let Some(details) = details {
        if !details.is_object() || details.encoded.len() > MAX_DETAILS_BYTES {
            return invalid("wake details");
        }
    }
    Ok(())
}

/// The first problem with one badge.
pub open spec fn badge_problem(badge: Receipt) -> Option<Seq<char>> {
    or_else(
        unless(bounded_text(badge.label@, MAX_BADGE_BYTES as nat, false), "receipt label"@),
        unless(bounded_text(badge.value@, MAX_BADGE_BYTES as nat, false), "receipt value"@),
    )
}

/// The first problem with one offer.
pub open spec fn offer_problem(offer: Offer) -> Option<Seq<char>> {
    or_else(
        unless(identifier(offer.id@), "offer id"@),
        unless(bounded_text(offer.label@, MAX_BADGE_BYTES as nat, false), "offer label"@),
    )
}

/// The first problem with citation `i` of a message, on its own and against
/// the groups before it.
pub open spec fn citation_problem(value: Seq<Citation>, i: int) -> Option<Seq<char>> {
    let citation = value[i];
    or_else(
        unless(identifier(citation.job_id@), "citation job id"@),
        or_else(
            unless(!repeats(value.map_values(|c: Citation| c.job_id@), i), "receipts"@),
            or_else(
                unless(
                    citation.badges@.len() <= MAX_RECEIPTS && citation.offers@.len() <= MAX_OFFERS,
                    "receipts"@,
                ),
                or_else(
                    first_problem(
                        |k: int| badge_problem(citation.badges@[k]),
                        0,
                        citation.badges@.len() as int,
                    ),
                    first_problem(
                        |k: int| offer_problem(citation.offers@[k]),
                        0,
                        citation.offers@.len() as int,
                    ),
                ),
            ),
        ),
    )
}

/// Every offer identifier of the first `i` citations, in order.
pub open spec fn offer_ids(value: Seq<Citation>, i: int) -> Seq<Seq<char>>
    decreases i,
{
    if i <= 0 {
        Seq::empty()
    } else {
        offer_ids(value, i - 1) + value[i - 1].offers@.map_values(|o: Offer| o.id@)
    }
}

/// No two entries are the same.
pub open spec fn distinct(keys: Seq<Seq<char>>) -> bool {
    forall|i: int, j: int| 0 <= i < j < keys.len() ==> keys[i] != keys[j]
}

/// The first problem with the badges a message carries, grouped by job.
pub open spec fn citations_problem(value: Seq<Citation>) -> Option<Seq<char>> {
    if value.len() > MAX_CITATIONS {
        Some("receipts"@)
    } else {
        or_else(
            first_problem(|i: int| citation_problem(value, i), 0, value.len() as int),
            unless(distinct(offer_ids(value, value.len() as int)), "offers"@),
        )
    }
}

fn repeated_job(value: &[Citation], i: usize) -> (r: bool)
    requires
        i < value@.len(),
    ensures
        r == repeats(value@.map_values(|c: Citation| c.job_id@), i as int),
{
    let ghost keys = value@.map_values(|c: Citation| c.job_id@);
    let mut j: usize = 0;
    while j < i
        invariant
            i < value@.len(),
            j <= i,
            keys == value@.map_values(|c: Citation| c.job_id@),
            forall|m: int| 0 <= m < j ==> keys[m] != keys[i as int],
        decreases i - j,
    {
        if same(value[j].job_id.as_str(), value[i].job_id.as_str()) {
            proof {
                assert(keys[j as int] == keys[i as int]);
            }
            return true;
        }
        j = j + 1;
    }
    false
}

#[verifier::loop_isolation(false)]
fn citation(value: &[Citation], i: usize) -> (r: Result<(), MessageError>)
    requires
        i < value@.len(),
    ensures
        reports(r, citation_problem(value@, i as int)),
{
    let citation = &value[i];
    id(citation.job_id.as_str(), "citation job id")?;
    if repeated_job(value, i) {
        return invalid("receipts");
    }
    if citation.badges.len() > MAX_RECEIPTS || citation.offers.len() > MAX_OFFERS {
        return invalid("receipts");
    }
    let ghost fb = |k: int| badge_problem(citation.badges@[k]);
    let nb = citation.badges.len();
    let mut k: usize = 0;
    while k < nb
        invariant
            nb == citation.badges@.len(),
            k <= nb,
            fb == (|k: int| badge_problem(citation.badges@[k])),
            first_problem(fb, 0, nb as int) == first_problem(fb, k as int, nb as int),
        decreases nb - k,
    {
        let badge = &citation.badges[k];
        text(badge.label.as_str(), MAX_BADGE_BYTES, "receipt label", false)?;
        text(badge.value.as_str(), MAX_BADGE_BYTES, "receipt value", false)?;
        k = k + 1;
    }
    let ghost fo = |k: int| offer_problem(citation.offers@[k]);
    let no = citation.offers.len();
    let mut k: usize = 0;
    while k < no
        invariant
            no == citation.offers@.len(),
            k <= no,
            fo == (|k: int| offer_problem(citation.offers@[k])),
            first_problem(fo, 0, no as int) == first_problem(fo, k as int, no as int),
        decreases no - k,
    {
        let offer = &citation.offers[k];
        id(offer.id.as_str(), "offer id")?;
        text(offer.label.as_str(), MAX_BADGE_BYTES, "offer label", false)?;
        k = k + 1;
    }
    Ok(())
}

fn seen_before(seen: &Vec<String>, key: &str) -> (r: bool)
    ensures
        r == seen@.map_values(|s: String| s@).contains(key@),
{
    let ghost keys = seen@.map_values(|s: String| s@);
    let mut j: usize = 0;
    while j < seen.len()
        invariant
            j <= seen@.len(),
            keys == seen@.map_values(|s: String| s@),
            forall|m: int| 0 <= m < j ==> keys[m] != key@,
        decreases seen@.len() - j,
    {
        if same(seen[j].as_str(), key) {
            proof {
                assert(keys[j as int] == key@);
            }
            return true;
        }
        j = j + 1;
    }
    false
}

/// Validates the badges one message carries, grouped by job, with every offer
/// identifier naming one offer in the whole message.
fn citations(value: &[Citation]) -> (r: Result<(), MessageError>)
    ensures
        reports(r, citations_problem(value@)),
{
    if value.len() > MAX_CITATIONS {
        return invalid("receipts");
    }
    let ghost f = |i: int| citation_problem(value@, i);
    let n = value.len();
    let mut i: usize = 0;
    while i < n
        invariant
            n == value@.len(),
            n <= MAX_CITATIONS,
            i <= n,
            f == (|i: int| citation_problem(value@, i)),
            first_problem(f, 0, n as int) == first_problem(f, i as int, n as int),
        decreases n - i,
    {
        citation(value, i)?;
        i = i + 1;
    }
    let mut seen: Vec<String> = Vec::new();
    let mut i: usize = 0;
    proof {
        assert(seen@.map_values(|s: String| s@) =~= offer_ids(value@, 0));
    }
    while i < n
        invariant
            n == value@.len(),
            n <= MAX_CITATIONS,
            i <= n,
            f == (|i: int| citation_problem(value@, i)),
            first_problem(f, 0, n as int) is None,
            seen@.map_values(|s: String| s@) == offer_ids(value@, i as int),
            distinct(seen@.map_values(|s: String| s@)),
        decreases n - i,
    {
        let offers = &value[i].offers;
        let ghost before = seen@.map_values(|s: String| s@);
        let m = offers.len();
        let mut k: usize = 0;
        while k < m
            invariant
                n == value@.len(),
                n <= MAX_CITATIONS,
                i < n,
                f == (|i: int| citation_problem(value@, i)),
                first_problem(f, 0, n as int) is None,
                before == offer_ids(value@, i as int),
                offers == value@[i as int].offers,
                m == offers@.len(),
                k <= m,
                seen@.map_values(|s: String| s@) == before + offers@.subrange(0, k as int).map_values(|o: Offer| o.id@),
                distinct(seen@.map_values(|s: String| s@)),
            decreases m - k,
        {
            let key = offers[k].id.as_str();
            if seen_before(&seen, key) {
                proof {
                    let all = offer_ids(value@, n as int);
                    lemma_offer_ids_prefix(value@, i as int + 1, n as int);
                    let here = before + offers@.subrange(0, k as int).map_values(|o: Offer| o.id@);
                    let j = choose|j: int| 0 <= j < here.len() && here[j] == key@;
                    let full = offer_ids(value@, i as int + 1);
                    assert(full == before + offers@.map_values(|o: Offer| o.id@));
                    assert(full[j] == here[j]);
                    assert(full[before.len() + k] == key@);
                    assert(all[j] == full[j]);
                    assert(all[before.len() + k] == full[before.len() + k]);
                }
                return invalid("offers");
            }
            let ghost was = seen@.map_values(|s: String| s@);
            seen.push(offers[k].id.clone());
            proof {
                assert(offers@.subrange(0, k + 1).map_values(|o: Offer| o.id@) =~= offers@.subrange(0, k as int).map_values(|o: Offer| o.id@).push(offers@[k as int].id@));
                assert(seen@.map_values(|s: String| s@) =~= was.push(key@));
            }
            k = k + 1;
        }
        proof {
            assert(offers@.subrange(0, m as int) =~= offers@);
            assert(offer_ids(value@, i + 1) == before + offers@.map_values(|o: Offer| o.id@));
        }
        i = i + 1;
    }
    Ok(())
}

/// The offer identifiers of fewer citations lead the identifiers of more.
proof fn lemma_offer_ids_prefix(value: Seq<Citation>, i: int, n: int)
    requires
        0 <= i <= n,
    ensures
        offer_ids(value, i).len() <= offer_ids(value, n).len(),
        forall|j: int| 0 <= j < offer_ids(value, i).len() ==> offer_ids(value, n)[j] == offer_ids(value, i)[j],
    decreases n - i,
{
    if i < n {
        lemma_offer_ids_prefix(value, i, n - 1);
    }
}


/// The first problem with job row `i`, on its own and against the rows before it.
pub open spec fn job_problem(value: Seq<JobRow>, i: int) -> Option<Seq<char>> {
    let row = value[i];
    or_else(
        unless(identifier(row.id@), "job id"@),
        or_else(
            unless(!repeats(value.map_values(|r: JobRow| r.id@), i), "jobs"@),
            or_else(
                match row.project {
                    Some(project) => unless(
                        bounded_text(project@, MAX_IDENTIFIER_LENGTH as nat, false),
                        "job project"@,
                    ),
                    None => None,
                },
                unless(bounded_text(row.summary@, MAX_JOB_SUMMARY_BYTES as nat, true), "job summary"@),
            ),
        ),
    )
}

/// The first problem with a list of job rows.
pub open spec fn jobs_problem(value: Seq<JobRow>) -> Option<Seq<char>> {
    if value.len() > MAX_JOB_ROWS {
        Some("jobs"@)
    } else {
        first_problem(|i: int| job_problem(value, i), 0, value.len() as int)
    }
}

fn repeated_row(value: &[JobRow], i: usize) -> (r: bool)
    requires
        i < value@.len(),
    ensures
        r == repeats(value@.map_values(|r: JobRow| r.id@), i as int),
{
    let ghost keys = value@.map_values(|r: JobRow| r.id@);
    let mut j: usize = 0;
    while j < i
        invariant
            i < value@.len(),
            j <= i,
            keys == value@.map_values(|r: JobRow| r.id@),
            forall|m: int| 0 <= m < j ==> keys[m] != keys[i as int],
        decreases i - j,
    {
        if same(value[j].id.as_str(), value[i].id.as_str()) {
            proof {
                assert(keys[j as int] == keys[i as int]);
            }
            return true;
        }
        j = j + 1;
    }
    false
}

fn job_rows(value: &[JobRow]) -> (r: Result<(), MessageError>)
    ensures
        reports(r, jobs_problem(value@)),
{
    if value.len() > MAX_JOB_ROWS {
        return invalid("jobs");
    }
    let ghost f = |i: int| job_problem(value@, i);
    let n = value.len();
    let mut i: usize = 0;
    while i < n
        invariant
            n == value@.len(),
            n <= MAX_JOB_ROWS,
            i <= n,
            f == (|i: int| job_problem(value@, i)),
            first_problem(f, 0, n as int) == first_problem(f, i as int, n as int),
        decreases n - i,
    {
        let row = &value[i];
        id(row.id.as_str(), "job id")?;
        if repeated_row(value, i) {
            return invalid("jobs");
        }
        if let Some(project) = &row.project {
            text(project.as_str(), MAX_IDENTIFIER_LENGTH, "job project", false)?;
        }
        text(row.summary.as_str(), MAX_JOB_SUMMARY_BYTES, "job summary", true)?;
        i = i + 1;
    }
    Ok(())
}

/// A briefing date: ten characters, digits with dashes at positions four and
/// seven, as in `2026-09-10`.
pub open spec fn briefing_date(date: Seq<char>) -> bool {
    date.len() == 10 && forall|i: int|
        0 <= i < 10 ==> if i == 4 || i == 7 {
            #[trigger] date[i] == '-'
        } else {
            '0' <= date[i] && date[i] <= '9'
        }
}

/// The first problem with one briefing row.
pub open spec fn briefing_problem(row: BriefingRow) -> Option<Seq<char>> {
    or_else(
        unless(identifier(row.id@), "briefing id"@),
        or_else(
            unless(briefing_date(row.date@), "briefing date"@),
            or_else(
                unless(identifier(row.profile@), "briefing profile"@),
                or_else(
                    unless(row.completed <= row.total && row.failed <= row.completed, "briefing counts"@),
                    unless(
                        bounded_text(row.summary@, MAX_BRIEFING_SUMMARY_BYTES as nat, true) && forall|i: int|
                            0 <= i < row.summary@.len() ==> !is_control(#[trigger] row.summary@[i]),
                        "briefing summary"@,
                    ),
                ),
            ),
        ),
    )
}

fn is_briefing_date(date: &str) -> (r: bool)
    ensures
        r == briefing_date(date@),
{
    if date.unicode_len() != 10 {
        return false;
    }
    let mut i: usize = 0;
    while i < 10
        invariant
            date@.len() == 10,
            i <= 10,
            forall|k: int|
                0 <= k < i ==> if k == 4 || k == 7 {
                    #[trigger] date@[k] == '-'
                } else {
                    '0' <= date@[k] && date@[k] <= '9'
                },
        decreases 10 - i,
    {
        let c = date.get_char(i);
        let fits = if i == 4 || i == 7 {
            c == '-'
        } else {
            '0' <= c && c <= '9'
        };
        if !fits {
            return false;
        }
        i = i + 1;
    }
    true
}

/// Validates one briefing row.
///
/// The date is a label of exactly ten ASCII characters, which makes it bounded
/// text as well; the counts are consistent; the summary is one line.
pub fn validate_briefing_row(row: &BriefingRow) -> (r: Result<(), MessageError>)
    ensures
        reports(r, briefing_problem(*row)),
{
    id(row.id.as_str(), "briefing id")?;
    if !is_briefing_date(row.date.as_str()) {
        return invalid("briefing date");
    }
    id(row.profile.as_str(), "briefing profile")?;
    if row.completed > row.total || row.failed > row.completed {
        return invalid("briefing counts");
    }
    text(row.summary.as_str(), MAX_BRIEFING_SUMMARY_BYTES, "briefing summary", true)?;
    if has_control(row.summary.as_str()) {
        return invalid("briefing summary");
    }
    Ok(())
}

/// The first problem with a list of briefing generations.
pub open spec fn briefings_problem(value: Seq<BriefingRow>) -> Option<Seq<char>> {
    if value.len() > MAX_BRIEFING_ROWS {
        Some("briefings"@)
    } else {
        first_problem(
            |i: int|
                or_else(
                    briefing_problem(value[i]),
                    unless(!repeats(value.map_values(|r: BriefingRow| r.id@), i), "briefings"@),
                ),
            0,
            value.len() as int,
        )
    }
}

fn repeated_briefing(value: &[BriefingRow], i: usize) -> (r: bool)
    requires
        i < value@.len(),
    ensures
        r == repeats(value@.map_values(|r: BriefingRow| r.id@), i as int),
{
    let ghost keys = value@.map_values(|r: BriefingRow| r.id@);
    let mut j: usize = 0;
    while j < i
        invariant
            i < value@.len(),
            j <= i,
            keys == value@.map_values(|r: BriefingRow| r.id@),
            forall|m: int| 0 <= m < j ==> keys[m] != keys[i as int],
        decreases i - j,
    {
        if same(value[j].id.as_str(), value[i].id.as_str()) {
            proof {
                assert(keys[j as int] == keys[i as int]);
            }
            return true;
        }
        j = j + 1;
    }
    false
}

fn briefing_rows(value: &[BriefingRow]) -> (r: Result<(), MessageError>)
    ensures
        reports(r, briefings_problem(value@)),
{
    if value.len() > MAX_BRIEFING_ROWS {
        return invalid("briefings");
    }
    let ghost f = |i: int|
        or_else(
            briefing_problem(value@[i]),
            unless(!repeats(value@.map_values(|r: BriefingRow| r.id@), i), "briefings"@),
        );
    let n = value.len();
    let mut i: usize = 0;
    while i < n
        invariant
            n == value@.len(),
            n <= MAX_BRIEFING_ROWS,
            i <= n,
            f == (|i: int|
                or_else(
                    briefing_problem(value@[i]),
                    unless(!repeats(value@.map_values(|r: BriefingRow| r.id@), i), "briefings"@),
                )),
            first_problem(f, 0, n as int) == first_problem(f, i as int, n as int),
        decreases n - i,
    {
        validate_briefing_row(&value[i])?;
        if repeated_briefing(value, i) {
            return invalid("briefings");
        }
        i = i + 1;
    }
    Ok(())
}

/// The first problem with the terminal turn attached to a briefing update.
pub open spec fn briefing_wake_problem(value: BriefingWake) -> Option<Seq<char>> {
    or_else(
        unless(identifier(value.event_id@), "briefing event id"@),
        wake_problem(value.custom_type@, value.text@, value.details),
    )
}

/// Validates the terminal turn attached to a briefing update.
pub fn validate_briefing_wake(value: &BriefingWake) -> (r: Result<(), MessageError>)
    ensures
        reports(r, briefing_wake_problem(*value)),
{
    id(value.event_id.as_str(), "briefing event id")?;
    wake(value.custom_type.as_str(), value.text.as_str(), &value.details)
}

/// The first problem with a surface's registration. No surface may take the
/// names the unprompted answer and the terminal are recorded under.
pub open spec fn registration_problem(surface: SurfaceRegistration) -> Option<Seq<char>> {
    or_else(
        unless(identifier(surface.id@), "surface id"@),
        or_else(
            unless(surface.id@ != UNPROMPTED_SURFACE@ && surface.id@ != TERMINAL_SURFACE@, "surface id"@),
            or_else(
                unless(bounded_text(surface.name@, MAX_SURFACE_NAME_BYTES as nat, false), "surface name"@),
                definitions_problem(surface.widgets@),
            ),
        ),
    )
}

fn validate_registration(surface: &SurfaceRegistration) -> (r: Result<(), MessageError>)
    ensures
        reports(r, registration_problem(*surface)),
{
    id(surface.id.as_str(), "surface id")?;
    if same(surface.id.as_str(), UNPROMPTED_SURFACE) || same(surface.id.as_str(), TERMINAL_SURFACE) {
        return invalid("surface id");
    }
    text(surface.name.as_str(), MAX_SURFACE_NAME_BYTES, "surface name", false)?;
    widgets(surface.widgets.as_slice())
}

/// The first problem with one canonical conversation message.
pub open spec fn message_problem(
    surface: Seq<char>,
    text: Seq<char>,
    details: Option<String>,
    widgets: Option<Vec<WidgetCall>>,
    attachments: Seq<AttachmentDescriptor>,
    receipts: Seq<Citation>,
) -> Option<Seq<char>> {
    or_else(
        unless(identifier(surface), "surface id"@),
        or_else(
            unless(bounded_text(text, MAX_TEXT_BYTES as nat, false), "message text"@),
            or_else(
                match details {
                    Some(d) => unless(bounded_text(d@, MAX_DETAILS_BYTES as nat, false), "message details"@),
                    None => None,
                },
                or_else(
                    calls_problem(widgets),
                    or_else(descriptors_problem(attachments), citations_problem(receipts)),
                ),
            ),
        ),
    )
}

fn message(
    surface: &str,
    body: &str,
    details: &Option<String>,
    widgets: &Option<Vec<WidgetCall>>,
    attachments: &[AttachmentDescriptor],
    receipts: &[Citation],
) -> (r: Result<(), MessageError>)
    ensures
        reports(r, message_problem(surface@, body@, *details, *widgets, attachments@, receipts@)),
{
    id(surface, "surface id")?;
    text(body, MAX_TEXT_BYTES, "message text", false)?;
    if let Some(details) = details {
        text(details.as_str(), MAX_DETAILS_BYTES, "message details", false)?;
    }
    calls(widgets)?;
    attachment_descriptors(attachments)?;
    citations(receipts)
}

/// Validates one canonical conversation message independently of its channel,
/// so a state file cannot restore a message no surface would accept.
pub fn validate_conversation_message(message: &ConversationMessage) -> (r: Result<(), MessageError>)
    ensures
        reports(
            r,
            message_problem(
                message.surface@,
                message.text@,
                message.details,
                message.widgets,
                message.attachments@,
                message.receipts@,
            ),
        ),
{
    self::message(
        message.surface.as_str(),
        message.text.as_str(),
        &message.details,
        &message.widgets,
        message.attachments.as_slice(),
        message.receipts.as_slice(),
    )
}


// ----------------------------------------------------------------------------
// The six messages, one per channel and direction.
// ----------------------------------------------------------------------------

#[derive(Debug, Clone, PartialEq, Eq)]
pub struct SurfaceRequest {
    pub v: u32,
    pub body: SurfaceRequestBody,
}

impl SurfaceRequest {
    pub fn new(body: SurfaceRequestBody) -> (r: Self)
        ensures
            r.v == SERVICE_VERSION,
            r.body == body,
    {
        SurfaceRequest { v: SERVICE_VERSION, body }
    }
}

#[derive(Debug, Clone, PartialEq, Eq)]
pub enum SurfaceRequestBody {
    Hello { surface: SurfaceRegistration },
    Message { id: String, text: String, attachments: Vec<String> },
    Abort { id: String },
    /// Stop or file one job row.
    JobCommand { id: String, action: JobAction },
    /// Dismiss one terminal, delivered briefing from surface presentation.
    BriefingDismiss { id: String },
    /// Take one offer the agent made.
    OfferTake { id: String },
}

#[derive(Debug, Clone, PartialEq, Eq)]
pub struct SurfaceResponse {
    pub v: u32,
    pub body: SurfaceResponseBody,
}

impl SurfaceResponse {
    pub fn new(body: SurfaceResponseBody) -> (r: Self)
        ensures
            r.v == SERVICE_VERSION,
            r.body == body,
    {
        SurfaceResponse { v: SERVICE_VERSION, body }
    }
}

#[derive(Debug, Clone, PartialEq, Eq)]
pub enum SurfaceResponseBody {
    Message {
        role: ConversationRole,
        surface: String,
        text: String,
        details: Option<String>,
        widgets: Option<Vec<WidgetCall>>,
        attachments: Vec<AttachmentDescriptor>,
        receipts: Vec<Citation>,
    },
    MessageAck { id: String },
    Aborted { id: String },
    State { state: ScufrisState, detail: String, holder: AgentHolder },
    /// Every job row at once, replacing whatever the surface holds.
    Jobs { jobs: Vec<JobRow> },
    /// Every durable briefing generation, replacing the surface's list.
    Briefings { briefings: Vec<BriefingRow> },
    /// One offer has been taken, and is not on offer again.
    OfferTaken { id: String },
    Ready { surface: String },
    Rejected { id: Option<String>, operation: String, code: String, detail: String },
}

/// The surface message carrying one canonical conversation message.
impl From<ConversationMessage> for SurfaceResponseBody {
    fn from(message: ConversationMessage) -> (r: Self) {
        SurfaceResponseBody::Message {
            role: message.role,
            surface: message.surface,
            text: message.text,
            details: message.details,
            widgets: message.widgets,
            attachments: message.attachments,
            receipts: message.receipts,
        }
    }
}

impl vstd::std_specs::convert::FromSpecImpl<ConversationMessage> for SurfaceResponseBody {
    open spec fn obeys_from_spec() -> bool {
        true
    }

    open spec fn from_spec(v: ConversationMessage) -> SurfaceResponseBody {
        SurfaceResponseBody::Message {
            role: v.role,
            surface: v.surface,
            text: v.text,
            details: v.details,
            widgets: v.widgets,
            attachments: v.attachments,
            receipts: v.receipts,
        }
    }
}

#[derive(Debug, Clone, PartialEq, Eq)]
pub struct AgentRequest {
    pub v: u32,
    pub body: AgentRequestBody,
}

impl AgentRequest {
    pub fn new(body: AgentRequestBody) -> (r: Self)
        ensures
            r.v == SERVICE_VERSION,
            r.body == body,
    {
        AgentRequest { v: SERVICE_VERSION, body }
    }
}

#[derive(Debug, Clone, PartialEq, Eq)]
pub enum AgentRequestBody {
    /// `lease` is the writer fence; `session` is the Pi session this agent is
    /// writing.
    Hello { lease: Option<u64>, session: Option<AgentSession> },
    /// This agent is now writing a different session file.
    Session { id: String, file: String, cwd: String, parent: Option<String> },
    /// One user turn typed into the terminal that holds the lease.
    Turn { id: String, text: String, images: u8 },
    /// Whether the leased terminal is working.
    Activity { working: bool },
    /// Pi delivered one exact queued custom message and started its turn.
    ProactiveStarted { proactive_id: String },
    /// That exact Pi turn settled.
    ProactiveSettled { proactive_id: String },
    Response {
        text: String,
        proactive_id: Option<String>,
        turn_id: Option<String>,
        details: Option<String>,
        widgets: Option<Vec<WidgetCall>>,
        attachments: Vec<String>,
        receipts: Vec<Citation>,
    },
    /// Every delegated job the agent owns, whole.
    Jobs { jobs: Vec<JobRow> },
}

#[derive(Debug, Clone, PartialEq, Eq)]
pub struct AgentResponse {
    pub v: u32,
    pub body: AgentResponseBody,
}

impl AgentResponse {
    pub fn new(body: AgentResponseBody) -> (r: Self)
        ensures
            r.v == SERVICE_VERSION,
            r.body == body,
    {
        AgentResponse { v: SERVICE_VERSION, body }
    }
}

#[derive(Debug, Clone, PartialEq, Eq)]
pub enum AgentResponseBody {
    Ready,
    Message {
        id: String,
        text: String,
        widgets: Vec<WidgetDefinition>,
        attachments: Vec<AttachmentDescriptor>,
    },
    /// A proactive message from outside the agent process.
    Wake { proactive_id: Option<String>, custom_type: String, text: String, details: Option<Json> },
    Abort { id: String },
    /// A surface asked something of one job row.
    JobCommand { id: String, action: JobAction },
    /// A surface took one offer.
    OfferTake { id: String },
    /// One terminal turn was recorded, at that sequence.
    TurnAck { id: String, sequence: u64 },
    /// The service is about to hand the agent to the other holder.
    Handoff { generation: u64, next: AgentHolder },
    /// Every canonical entry this agent has not seen.
    CatchUp { since: u64, entries: Vec<ConversationEntry> },
    Rejected { id: Option<String>, code: String, detail: String },
}

#[derive(Debug, Clone, PartialEq, Eq)]
pub struct ControlRequest {
    pub v: u32,
    pub body: ControlRequestBody,
}

impl ControlRequest {
    pub fn new(body: ControlRequestBody) -> (r: Self)
        ensures
            r.v == SERVICE_VERSION,
            r.body == body,
    {
        ControlRequest { v: SERVICE_VERSION, body }
    }
}

#[derive(Debug, Clone, PartialEq, Eq)]
pub enum ControlRequestBody {
    Hello,
    State { id: String },
    /// Deliver one proactive message to the foreground conversation.
    Wake { id: String, custom_type: String, text: String, details: Option<Json> },
    /// Upsert one generation-fenced briefing lifecycle event.
    Briefing { id: String, briefing: BriefingRow, wake: Option<BriefingWake> },
    /// Take the agent away from the service.
    LeaseAcquire { id: String, holder: LeaseHolder, abort_working: bool },
    /// The holder is still alive.
    LeasePing { id: String },
    /// Give the agent back before the connection closes.
    LeaseRelease { id: String },
    /// Read the canonical conversation from a sequence onwards.
    Conversation { id: String, since: u64 },
}

#[derive(Debug, Clone, PartialEq, Eq)]
pub struct ControlResponse {
    pub v: u32,
    pub body: ControlResponseBody,
}

impl ControlResponse {
    pub fn new(body: ControlResponseBody) -> (r: Self)
        ensures
            r.v == SERVICE_VERSION,
            r.body == body,
    {
        ControlResponse { v: SERVICE_VERSION, body }
    }
}

#[derive(Debug, Clone, PartialEq, Eq)]
pub enum ControlResponseBody {
    Ready,
    State {
        id: String,
        state: ScufrisState,
        detail: String,
        holder: AgentHolder,
        generation: Option<u64>,
        session_dir: String,
        lineage_file: Option<String>,
    },
    WakeAck { id: String },
    BriefingAck { id: String },
    /// The lease was granted.
    Lease {
        id: String,
        generation: u64,
        session_dir: String,
        lineage_file: Option<String>,
        sequence: u64,
        owner: String,
    },
    LeasePong { id: String, generation: u64 },
    LeaseReleased { id: String },
    /// One page of canonical entries, oldest first.
    ConversationEntries { id: String, entries: Vec<ConversationEntry>, more: bool },
    Rejected { id: String, code: String, detail: String },
}

/// An optional identifier is either absent or an identifier.
pub open spec fn optional_id(value: Option<String>, field: Seq<char>) -> Option<Seq<char>> {
    match value {
        Some(v) => unless(identifier(v@), field),
        None => None,
    }
}

/// An optional path is either absent or a path carried for the record.
pub open spec fn optional_path(value: Option<String>, field: Seq<char>) -> Option<Seq<char>> {
    match value {
        Some(v) => unless(record_path(v@), field),
        None => None,
    }
}

/// The first problem with a request a surface sends.
pub open spec fn surface_request_problem(message: SurfaceRequest) -> Option<Seq<char>> {
    match message.body {
        SurfaceRequestBody::Hello { surface } => registration_problem(surface),
        SurfaceRequestBody::Message { id, text, attachments } => or_else(
            unless(identifier(id@), "message id"@),
            or_else(
                unless(bounded_text(text@, MAX_TEXT_BYTES as nat, false), "message text"@),
                attachment_ids_problem(attachments@),
            ),
        ),
        SurfaceRequestBody::Abort { id } => unless(identifier(id@), "abort id"@),
        SurfaceRequestBody::JobCommand { id, .. } => unless(identifier(id@), "job id"@),
        SurfaceRequestBody::BriefingDismiss { id } => unless(identifier(id@), "briefing id"@),
        SurfaceRequestBody::OfferTake { id } => unless(identifier(id@), "offer id"@),
    }
}

/// Validates a request a surface sends.
pub fn validate_surface_request(message: &SurfaceRequest) -> (r: Result<(), MessageError>)
    ensures
        reports(r, surface_request_problem(*message)),
{
    match &message.body {
        SurfaceRequestBody::Hello { surface } => validate_registration(surface),
        SurfaceRequestBody::Message { id: one, text: body, attachments } => {
            id(one.as_str(), "message id")?;
            text(body.as_str(), MAX_TEXT_BYTES, "message text", false)?;
            attachment_ids(attachments.as_slice())
        },
        SurfaceRequestBody::Abort { id: one } => id(one.as_str(), "abort id"),
        SurfaceRequestBody::JobCommand { id: one, .. } => id(one.as_str(), "job id"),
        SurfaceRequestBody::BriefingDismiss { id: one } => id(one.as_str(), "briefing id"),
        SurfaceRequestBody::OfferTake { id: one } => id(one.as_str(), "offer id"),
    }
}

/// The first problem with a response a surface is sent.
pub open spec fn surface_response_problem(message: SurfaceResponse) -> Option<Seq<char>> {
    match message.body {
        SurfaceResponseBody::Message { surface, text, details, widgets, attachments, receipts, .. } =>
            message_problem(surface@, text@, details, widgets, attachments@, receipts@),
        SurfaceResponseBody::MessageAck { id } => unless(identifier(id@), "response id"@),
        SurfaceResponseBody::Aborted { id } => unless(identifier(id@), "response id"@),
        SurfaceResponseBody::State { detail, .. } => unless(
            bounded_text(detail@, MAX_DETAIL_BYTES as nat, true),
            "state detail"@,
        ),
        SurfaceResponseBody::Jobs { jobs } => jobs_problem(jobs@),
        SurfaceResponseBody::Briefings { briefings } => briefings_problem(briefings@),
        SurfaceResponseBody::OfferTaken { id } => unless(identifier(id@), "offer id"@),
        SurfaceResponseBody::Ready { surface } => unless(identifier(surface@), "surface id"@),
        SurfaceResponseBody::Rejected { id, operation, code, detail } => or_else(
            optional_id(id, "rejection id"@),
            or_else(
                unless(identifier(operation@), "operation"@),
                or_else(
                    unless(identifier(code@), "rejection code"@),
                    unless(bounded_text(detail@, MAX_DETAIL_BYTES as nat, true), "rejection detail"@),
                ),
            ),
        ),
    }
}

/// Validates a response a surface is sent.
pub fn validate_surface_response(message: &SurfaceResponse) -> (r: Result<(), MessageError>)
    ensures
        reports(r, surface_response_problem(*message)),
{
    match &message.body {
        SurfaceResponseBody::Message { surface, text: body, details, widgets, attachments, receipts, .. } =>
            self::message(
            surface.as_str(),
            body.as_str(),
            details,
            widgets,
            attachments.as_slice(),
            receipts.as_slice(),
        ),
        SurfaceResponseBody::MessageAck { id: one } => id(one.as_str(), "response id"),
        SurfaceResponseBody::Aborted { id: one } => id(one.as_str(), "response id"),
        SurfaceResponseBody::State { detail, .. } => text(detail.as_str(), MAX_DETAIL_BYTES, "state detail", true),
        SurfaceResponseBody::Jobs { jobs } => job_rows(jobs.as_slice()),
        SurfaceResponseBody::Briefings { briefings } => briefing_rows(briefings.as_slice()),
        SurfaceResponseBody::OfferTaken { id: one } => id(one.as_str(), "offer id"),
        SurfaceResponseBody::Ready { surface } => id(surface.as_str(), "surface id"),
        SurfaceResponseBody::Rejected { id: one, operation, code, detail } => {
            if let Some(one) = one {
                id(one.as_str(), "rejection id")?;
            }
            id(operation.as_str(), "operation")?;
            id(code.as_str(), "rejection code")?;
            text(detail.as_str(), MAX_DETAIL_BYTES, "rejection detail", true)
        },
    }
}

/// The first problem with a request an agent sends.
pub open spec fn agent_request_problem(message: AgentRequest) -> Option<Seq<char>> {
    match message.body {
        AgentRequestBody::Hello { session, .. } => match session {
            Some(session) => session_problem(session),
            None => None,
        },
        AgentRequestBody::Session { id, file, cwd, parent } => session_problem(
            AgentSession { id, file, cwd, parent },
        ),
        AgentRequestBody::Turn { id, text, images } => or_else(
            unless(identifier(id@), "turn id"@),
            or_else(
                unless(bounded_text(text@, MAX_TEXT_BYTES as nat, false), "turn text"@),
                unless(images <= MAX_TURN_IMAGES, "turn images"@),
            ),
        ),
        AgentRequestBody::Activity { .. } => None,
        AgentRequestBody::ProactiveStarted { proactive_id } => unless(identifier(proactive_id@), "proactive id"@),
        AgentRequestBody::ProactiveSettled { proactive_id } => unless(identifier(proactive_id@), "proactive id"@),
        AgentRequestBody::Response { text, proactive_id, turn_id, details, widgets, attachments, receipts } =>
            or_else(
            optional_id(proactive_id, "proactive id"@),
            or_else(
                optional_id(turn_id, "turn id"@),
                or_else(
                    unless(bounded_text(text@, MAX_TEXT_BYTES as nat, false), "response text"@),
                    or_else(
                        match details {
                            Some(d) => unless(
                                bounded_text(d@, MAX_DETAILS_BYTES as nat, false),
                                "response details"@,
                            ),
                            None => None,
                        },
                        or_else(
                            calls_problem(widgets),
                            or_else(attachment_ids_problem(attachments@), citations_problem(receipts@)),
                        ),
                    ),
                ),
            ),
        ),
        AgentRequestBody::Jobs { jobs } => jobs_problem(jobs@),
    }
}

/// Validates a request an agent sends.
pub fn validate_agent_request(message: &AgentRequest) -> (r: Result<(), MessageError>)
    ensures
        reports(r, agent_request_problem(*message)),
{
    match &message.body {
        AgentRequestBody::Hello { session, .. } => match session {
            Some(session) => validate_agent_session(session),
            None => Ok(()),
        },
        AgentRequestBody::Session { id: one, file, cwd, parent } => {
            text(one.as_str(), MAX_IDENTIFIER_LENGTH, "session id", false)?;
            path(file.as_str(), "session file")?;
            path(cwd.as_str(), "session cwd")?;
            match parent {
                Some(parent) => path(parent.as_str(), "session parent"),
                None => Ok(()),
            }
        },
        AgentRequestBody::Turn { id: one, text: body, images } => {
            id(one.as_str(), "turn id")?;
            text(body.as_str(), MAX_TEXT_BYTES, "turn text", false)?;
            if *images > MAX_TURN_IMAGES {
                return invalid("turn images");
            }
            Ok(())
        },
        AgentRequestBody::Activity { .. } => Ok(()),
        AgentRequestBody::ProactiveStarted { proactive_id } => id(proactive_id.as_str(), "proactive id"),
        AgentRequestBody::ProactiveSettled { proactive_id } => id(proactive_id.as_str(), "proactive id"),
        AgentRequestBody::Response { text: body, proactive_id, turn_id, details, widgets, attachments, receipts } => {
            if let Some(one) = proactive_id {
                id(one.as_str(), "proactive id")?;
            }
            if let Some(one) = turn_id {
                id(one.as_str(), "turn id")?;
            }
            text(body.as_str(), MAX_TEXT_BYTES, "response text", false)?;
            if let Some(details) = details {
                text(details.as_str(), MAX_DETAILS_BYTES, "response details", false)?;
            }
            calls(widgets)?;
            attachment_ids(attachments.as_slice())?;
            citations(receipts.as_slice())
        },
        AgentRequestBody::Jobs { jobs } => job_rows(jobs.as_slice()),
    }
}

/// The first problem with a response an agent is sent.
pub open spec fn agent_response_problem(message: AgentResponse) -> Option<Seq<char>> {
    match message.body {
        AgentResponseBody::Ready => None,
        AgentResponseBody::Message { id, text, widgets, attachments } => or_else(
            unless(identifier(id@), "message id"@),
            or_else(
                unless(bounded_text(text@, MAX_TEXT_BYTES as nat, false), "message text"@),
                or_else(definitions_problem(widgets@), descriptors_problem(attachments@)),
            ),
        ),
        AgentResponseBody::Wake { proactive_id, custom_type, text, details } => or_else(
            optional_id(proactive_id, "proactive id"@),
            wake_problem(custom_type@, text@, details),
        ),
        AgentResponseBody::Abort { id } => unless(identifier(id@), "abort id"@),
        AgentResponseBody::JobCommand { id, .. } => unless(identifier(id@), "job id"@),
        AgentResponseBody::OfferTake { id } => unless(identifier(id@), "offer id"@),
        AgentResponseBody::TurnAck { id, .. } => unless(identifier(id@), "turn id"@),
        AgentResponseBody::Handoff { .. } => None,
        AgentResponseBody::CatchUp { entries, .. } => entries_problem(entries@),
        AgentResponseBody::Rejected { id, code, detail } => or_else(
            optional_id(id, "turn id"@),
            or_else(
                unless(identifier(code@), "rejection code"@),
                unless(bounded_text(detail@, MAX_DETAIL_BYTES as nat, true), "rejection detail"@),
            ),
        ),
    }
}

/// Validates a response an agent is sent.
pub fn validate_agent_response(message: &AgentResponse) -> (r: Result<(), MessageError>)
    ensures
        reports(r, agent_response_problem(*message)),
{
    match &message.body {
        AgentResponseBody::Ready => Ok(()),
        AgentResponseBody::Message { id: one, text: body, widgets: definitions, attachments } => {
            id(one.as_str(), "message id")?;
            text(body.as_str(), MAX_TEXT_BYTES, "message text", false)?;
            widgets(definitions.as_slice())?;
            attachment_descriptors(attachments.as_slice())
        },
        AgentResponseBody::Wake { proactive_id, custom_type, text: body, details } => {
            if let Some(one) = proactive_id {
                id(one.as_str(), "proactive id")?;
            }
            wake(custom_type.as_str(), body.as_str(), details)
        },
        AgentResponseBody::Abort { id: one } => id(one.as_str(), "abort id"),
        AgentResponseBody::JobCommand { id: one, .. } => id(one.as_str(), "job id"),
        AgentResponseBody::OfferTake { id: one } => id(one.as_str(), "offer id"),
        AgentResponseBody::TurnAck { id: one, .. } => id(one.as_str(), "turn id"),
        AgentResponseBody::Handoff { .. } => Ok(()),
        AgentResponseBody::CatchUp { entries, .. } => conversation_entries(entries.as_slice()),
        AgentResponseBody::Rejected { id: one, code, detail } => {
            if let Some(one) = one {
                id(one.as_str(), "turn id")?;
            }
            id(code.as_str(), "rejection code")?;
            text(detail.as_str(), MAX_DETAIL_BYTES, "rejection detail", true)
        },
    }
}

/// The first problem with a request a control client sends.
pub open spec fn control_request_problem(message: ControlRequest) -> Option<Seq<char>> {
    match message.body {
        ControlRequestBody::Hello => None,
        ControlRequestBody::State { id } => unless(identifier(id@), "state id"@),
        ControlRequestBody::Wake { id, custom_type, text, details } => or_else(
            unless(identifier(id@), "wake id"@),
            wake_problem(custom_type@, text@, details),
        ),
        ControlRequestBody::Briefing { id, briefing, wake } => or_else(
            unless(identifier(id@), "briefing request id"@),
            or_else(
                briefing_problem(briefing),
                match wake {
                    Some(w) => briefing_wake_problem(w),
                    None => None,
                },
            ),
        ),
        ControlRequestBody::LeaseAcquire { id, holder, .. } => or_else(
            unless(identifier(id@), "lease request id"@),
            or_else(
                optional_path(holder.session_file, "holder session file"@),
                unless(record_path(holder.cwd@), "holder cwd"@),
            ),
        ),
        ControlRequestBody::LeasePing { id } => unless(identifier(id@), "lease request id"@),
        ControlRequestBody::LeaseRelease { id } => unless(identifier(id@), "lease request id"@),
        ControlRequestBody::Conversation { id, .. } => unless(identifier(id@), "lease request id"@),
    }
}

/// Validates a request a control client sends.
pub fn validate_control_request(message: &ControlRequest) -> (r: Result<(), MessageError>)
    ensures
        reports(r, control_request_problem(*message)),
{
    match &message.body {
        ControlRequestBody::Hello => Ok(()),
        ControlRequestBody::State { id: one } => id(one.as_str(), "state id"),
        ControlRequestBody::Wake { id: one, custom_type, text: body, details } => {
            id(one.as_str(), "wake id")?;
            wake(custom_type.as_str(), body.as_str(), details)
        },
        ControlRequestBody::Briefing { id: one, briefing, wake: terminal } => {
            id(one.as_str(), "briefing request id")?;
            validate_briefing_row(briefing)?;
            if let Some(terminal) = terminal {
                validate_briefing_wake(terminal)?;
            }
            Ok(())
        },
        ControlRequestBody::LeaseAcquire { id: one, holder, .. } => {
            id(one.as_str(), "lease request id")?;
            if let Some(file) = &holder.session_file {
                path(file.as_str(), "holder session file")?;
            }
            path(holder.cwd.as_str(), "holder cwd")
        },
        ControlRequestBody::LeasePing { id: one } => id(one.as_str(), "lease request id"),
        ControlRequestBody::LeaseRelease { id: one } => id(one.as_str(), "lease request id"),
        ControlRequestBody::Conversation { id: one, .. } => id(one.as_str(), "lease request id"),
    }
}

/// The first problem with a response a control client is sent.
pub open spec fn control_response_problem(message: ControlResponse) -> Option<Seq<char>> {
    match message.body {
        ControlResponseBody::Ready => None,
        ControlResponseBody::State { id, detail, session_dir, lineage_file, .. } => or_else(
            unless(identifier(id@), "state id"@),
            or_else(
                unless(record_path(session_dir@), "state session dir"@),
                or_else(
                    optional_path(lineage_file, "lineage file"@),
                    unless(bounded_text(detail@, MAX_DETAIL_BYTES as nat, true), "state detail"@),
                ),
            ),
        ),
        ControlResponseBody::WakeAck { id } => unless(identifier(id@), "wake id"@),
        ControlResponseBody::BriefingAck { id } => unless(identifier(id@), "briefing request id"@),
        ControlResponseBody::Lease { id, session_dir, lineage_file, owner, .. } => or_else(
            unless(identifier(id@), "lease request id"@),
            or_else(
                unless(record_path(session_dir@), "lease session dir"@),
                or_else(
                    optional_path(lineage_file, "lease lineage file"@),
                    unless(identifier(owner@), "lease owner"@),
                ),
            ),
        ),
        ControlResponseBody::LeasePong { id, .. } => unless(identifier(id@), "lease request id"@),
        ControlResponseBody::LeaseReleased { id } => unless(identifier(id@), "lease request id"@),
        ControlResponseBody::ConversationEntries { id, entries, .. } => or_else(
            unless(identifier(id@), "lease request id"@),
            entries_problem(entries@),
        ),
        ControlResponseBody::Rejected { id, code, detail } => or_else(
            unless(identifier(id@), "rejection id"@),
            or_else(
                unless(identifier(code@), "rejection code"@),
                unless(bounded_text(detail@, MAX_DETAIL_BYTES as nat, true), "rejection detail"@),
            ),
        ),
    }
}

/// Validates a response a control client is sent.
pub fn validate_control_response(message: &ControlResponse) -> (r: Result<(), MessageError>)
    ensures
        reports(r, control_response_problem(*message)),
{
    match &message.body {
        ControlResponseBody::Ready => Ok(()),
        ControlResponseBody::State { id: one, detail, session_dir, lineage_file, .. } => {
            id(one.as_str(), "state id")?;
            path(session_dir.as_str(), "state session dir")?;
            if let Some(file) = lineage_file {
                path(file.as_str(), "lineage file")?;
            }
            text(detail.as_str(), MAX_DETAIL_BYTES, "state detail", true)
        },
        ControlResponseBody::WakeAck { id: one } => id(one.as_str(), "wake id"),
        ControlResponseBody::BriefingAck { id: one } => id(one.as_str(), "briefing request id"),
        ControlResponseBody::Lease { id: one, session_dir, lineage_file, owner, .. } => {
            id(one.as_str(), "lease request id")?;
            path(session_dir.as_str(), "lease session dir")?;
            if let Some(file) = lineage_file {
                path(file.as_str(), "lease lineage file")?;
            }
            id(owner.as_str(), "lease owner")
        },
        ControlResponseBody::LeasePong { id: one, .. } => id(one.as_str(), "lease request id"),
        ControlResponseBody::LeaseReleased { id: one } => id(one.as_str(), "lease request id"),
        ControlResponseBody::ConversationEntries { id: one, entries, .. } => {
            id(one.as_str(), "lease request id")?;
            conversation_entries(entries.as_slice())
        },
        ControlResponseBody::Rejected { id: one, code, detail } => {
            id(one.as_str(), "rejection id")?;
            id(code.as_str(), "rejection code")?;
            text(detail.as_str(), MAX_DETAIL_BYTES, "rejection detail", true)
        },
    }
}

/// The version one line says it is encoded in: its `v` cut to 32 bits when
/// that is a whole number that is not negative, and otherwise 0.
pub open spec fn line_version(v: Option<u64>) -> u32 {
    match v {
        Some(n) => n as u32,
        None => 0u32,
    }
}

/// What reading one line as a message of a channel comes to: refused when it
/// names another version, refused as not JSON of the channel when it did not
/// decode as one of its messages, and otherwise the message, or the first
/// field it carries outside what the protocol allows.
pub open spec fn read_as<T>(version: Option<u64>, decoded: Result<T, String>, problem: Option<Seq<char>>, r: Result<T, MessageError>) -> bool {
    if line_version(version) != SERVICE_VERSION {
        r == Err::<T, MessageError>(MessageError::UnsupportedVersion(line_version(version)))
    } else {
        match decoded {
            Err(why) => r matches Err(MessageError::InvalidJson(w)) && w@ == why@,
            Ok(m) => match problem {
                None => r == Ok::<T, MessageError>(m),
                Some(field) => r matches Err(MessageError::InvalidSubmission(f)) && f@ == field,
            },
        }
    }
}

/// Refuses a line that names a version this end does not speak.
pub fn accepted_version(version: Option<u64>) -> (r: Result<(), MessageError>)
    ensures
        line_version(version) == SERVICE_VERSION ==> r is Ok,
        line_version(version) != SERVICE_VERSION ==> r == Err::<(), MessageError>(
            MessageError::UnsupportedVersion(line_version(version)),
        ),
{
    let v: u32 = match version {
        Some(n) => n as u32,
        None => 0,
    };
    if v != SERVICE_VERSION {
        return Err(MessageError::UnsupportedVersion(v));
    }
    Ok(())
}

/// Reads one line as a request a surface sends, from the version it names and
/// what it decoded to.
pub fn read_surface_request(version: Option<u64>, decoded: Result<SurfaceRequest, String>) -> (r: Result<SurfaceRequest, MessageError>)
    ensures
        read_as(version, decoded, match decoded {
            Ok(m) => surface_request_problem(m),
            Err(_) => None,
        }, r),
{
    accepted_version(version)?;
    let message = match decoded {
        Ok(m) => m,
        Err(why) => return Err(MessageError::InvalidJson(why)),
    };
    match validate_surface_request(&message) {
        Ok(()) => Ok(message),
        Err(e) => Err(e),
    }
}

/// Reads one line as an answer a surface is sent.
pub fn read_surface_response(version: Option<u64>, decoded: Result<SurfaceResponse, String>) -> (r: Result<SurfaceResponse, MessageError>)
    ensures
        read_as(version, decoded, match decoded {
            Ok(m) => surface_response_problem(m),
            Err(_) => None,
        }, r),
{
    accepted_version(version)?;
    let message = match decoded {
        Ok(m) => m,
        Err(why) => return Err(MessageError::InvalidJson(why)),
    };
    match validate_surface_response(&message) {
        Ok(()) => Ok(message),
        Err(e) => Err(e),
    }
}

/// Reads one line as a request an agent sends.
pub fn read_agent_request(version: Option<u64>, decoded: Result<AgentRequest, String>) -> (r: Result<AgentRequest, MessageError>)
    ensures
        read_as(version, decoded, match decoded {
            Ok(m) => agent_request_problem(m),
            Err(_) => None,
        }, r),
{
    accepted_version(version)?;
    let message = match decoded {
        Ok(m) => m,
        Err(why) => return Err(MessageError::InvalidJson(why)),
    };
    match validate_agent_request(&message) {
        Ok(()) => Ok(message),
        Err(e) => Err(e),
    }
}

/// Reads one line as an answer an agent is sent.
pub fn read_agent_response(version: Option<u64>, decoded: Result<AgentResponse, String>) -> (r: Result<AgentResponse, MessageError>)
    ensures
        read_as(version, decoded, match decoded {
            Ok(m) => agent_response_problem(m),
            Err(_) => None,
        }, r),
{
    accepted_version(version)?;
    let message = match decoded {
        Ok(m) => m,
        Err(why) => return Err(MessageError::InvalidJson(why)),
    };
    match validate_agent_response(&message) {
        Ok(()) => Ok(message),
        Err(e) => Err(e),
    }
}

/// Reads one line as a request a control client sends.
pub fn read_control_request(version: Option<u64>, decoded: Result<ControlRequest, String>) -> (r: Result<ControlRequest, MessageError>)
    ensures
        read_as(version, decoded, match decoded {
            Ok(m) => control_request_problem(m),
            Err(_) => None,
        }, r),
{
    accepted_version(version)?;
    let message = match decoded {
        Ok(m) => m,
        Err(why) => return Err(MessageError::InvalidJson(why)),
    };
    match validate_control_request(&message) {
        Ok(()) => Ok(message),
        Err(e) => Err(e),
    }
}

/// Reads one line as an answer a control client is sent.
pub fn read_control_response(version: Option<u64>, decoded: Result<ControlResponse, String>) -> (r: Result<ControlResponse, MessageError>)
    ensures
        read_as(version, decoded, match decoded {
            Ok(m) => control_response_problem(m),
            Err(_) => None,
        }, r),
{
    accepted_version(version)?;
    let message = match decoded {
        Ok(m) => m,
        Err(why) => return Err(MessageError::InvalidJson(why)),
    };
    match validate_control_response(&message) {
        Ok(()) => Ok(message),
        Err(e) => Err(e),
    }
}

/// Where one socket is below a session runtime directory.
fn socket_path(runtime: &str, name: &str) -> (r: Option<String>)
    ensures
        match r {
            Some(p) => runtime_socket_path(runtime@, name@) == Some(p@),
            None => runtime_socket_path(runtime@, name@) is None,
        },
{
    runtime_socket(runtime, name)
}

/// Returns where the surface socket is below a session runtime directory.
pub fn surface_socket_path(runtime: &str) -> (r: Option<String>)
    ensures
        match r {
            Some(p) => runtime_socket_path(runtime@, SURFACE_FILE_NAME@) == Some(p@),
            None => runtime_socket_path(runtime@, SURFACE_FILE_NAME@) is None,
        },
{
    socket_path(runtime, SURFACE_FILE_NAME)
}

/// Returns where the agent socket is below a session runtime directory.
pub fn agent_socket_path(runtime: &str) -> (r: Option<String>)
    ensures
        match r {
            Some(p) => runtime_socket_path(runtime@, AGENT_FILE_NAME@) == Some(p@),
            None => runtime_socket_path(runtime@, AGENT_FILE_NAME@) is None,
        },
{
    socket_path(runtime, AGENT_FILE_NAME)
}

/// Returns where the control socket is below a session runtime directory.
pub fn control_socket_path(runtime: &str) -> (r: Option<String>)
    ensures
        match r {
            Some(p) => runtime_socket_path(runtime@, CONTROL_FILE_NAME@) == Some(p@),
            None => runtime_socket_path(runtime@, CONTROL_FILE_NAME@) is None,
        },
{
    socket_path(runtime, CONTROL_FILE_NAME)
}

/// Returns where the content socket is below a session runtime directory.
pub fn content_socket_path(runtime: &str) -> (r: Option<String>)
    ensures
        match r {
            Some(p) => runtime_socket_path(runtime@, CONTENT_FILE_NAME@) == Some(p@),
            None => runtime_socket_path(runtime@, CONTENT_FILE_NAME@) is None,
        },
{
    socket_path(runtime, CONTENT_FILE_NAME)
}

} // verus!
