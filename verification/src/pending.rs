//! Durable storage for an accepted transcript that has not been acknowledged.
//!
//! The companion and the backend must fail independently without losing text
//! the user already accepted. An accepted transcript lives on disk from the
//! moment it exists until a discard or an acknowledgment retires it. What is
//! decided about a record, before it is written and after it is read back, is
//! here; the file itself is the runtime's.
use vstd::prelude::*;
use vstd::string::StringExecFns;

use crate::control::{identifier, is_identifier, is_submission_text, submission_text};

verus! {

/// Largest pending record the companion will read back, in bytes.
pub const MAX_PENDING_BYTES: u64 = 64 * 1024;

/// Record format version. An unknown version is a corrupt record, not a guess.
pub const VERSION: u32 = 1;

/// One accepted transcript waiting for its acknowledgment.
#[derive(Debug, Clone, PartialEq, Eq)]
pub struct Pending {
    /// Identifier every retry of this transcript reuses.
    pub id: String,
    /// Accepted transcript text.
    pub text: String,
}

/// Failure to read or write the durable transcript.
#[derive(Debug, Clone, PartialEq, Eq)]
pub enum PendingError {
    /// The file exists but does not hold a usable record.
    Corrupt,
    /// The transcript is outside the bounds this store can read back.
    Unbounded,
    /// The filesystem refused the operation: what was being attempted, and
    /// why it failed.
    Io { operation: &'static str, reason: String },
}

/// The sentence one storage failure reads as.
pub open spec fn pending_error_message(e: PendingError) -> Seq<char> {
    match e {
        PendingError::Corrupt => "the saved transcript is unreadable"@,
        PendingError::Unbounded => "the transcript is too long to keep"@,
        PendingError::Io { operation, reason } => "the saved transcript could not be "@ + operation@ + ": "@
            + reason@,
    }
}

impl PendingError {
    /// A failure of the filesystem while attempting `operation`.
    pub fn io(operation: &'static str, reason: String) -> (r: Self)
        ensures
            r == (PendingError::Io { operation, reason }),
    {
        PendingError::Io { operation, reason }
    }

    /// Returns the sentence this failure reads as.
    pub fn message(&self) -> (r: String)
        ensures
            r@ == pending_error_message(*self),
    {
        match self {
            PendingError::Corrupt => "the saved transcript is unreadable".to_owned(),
            PendingError::Unbounded => "the transcript is too long to keep".to_owned(),
            PendingError::Io { operation, reason } => {
                let mut out = "the saved transcript could not be ".to_owned();
                out.append(operation);
                out.append(": ");
                out.append(reason.as_str());
                out
            },
        }
    }
}

/// One record of the file, as written and as read back. A discarded record is
/// a tombstone: it exists so a removal that could not happen still prevents
/// the text coming back.
#[derive(Debug, Clone, PartialEq, Eq)]
pub struct Record {
    pub version: u32,
    pub id: String,
    pub text: String,
    pub discarded: bool,
}

/// What one read of the file gives back: nothing usable when what stands at
/// the path is not a regular file, when the record is oversized, did not decode, names an unknown version or a malformed
/// identifier, or holds text that could never have been submitted; nothing at
/// all for a tombstone; and otherwise the transcript.
pub open spec fn restored(regular: bool, length: nat, record: Option<Record>) -> Result<
    Option<(Seq<char>, Seq<char>)>,
    PendingError,
> {
    if !regular || length > MAX_PENDING_BYTES {
        Err(PendingError::Corrupt)
    } else {
        match record {
            None => Err(PendingError::Corrupt),
            Some(r) => if r.version != VERSION || !identifier(r.id@) {
                Err(PendingError::Corrupt)
            } else if r.discarded {
                Ok(None)
            } else if !submission_text(r.text@) {
                Err(PendingError::Corrupt)
            } else {
                Ok(Some((r.id@, r.text@)))
            },
        }
    }
}

/// Decides what one read of the file gives back, from whether what stands at
/// the path is a regular file, how many bytes it held and the record they
/// decoded to, if they decoded.
pub fn read_back(regular: bool, length: u64, record: Option<Record>) -> (r: Result<Option<Pending>, PendingError>)
    ensures
        match r {
            Ok(Some(p)) => restored(regular, length as nat, record) == Ok::<Option<(Seq<char>, Seq<char>)>, PendingError>(Some((p.id@, p.text@))),
            Ok(None) => restored(regular, length as nat, record) == Ok::<Option<(Seq<char>, Seq<char>)>, PendingError>(None),
            Err(e) => restored(regular, length as nat, record) == Err::<Option<(Seq<char>, Seq<char>)>, PendingError>(e),
        },
{
    if !regular || length > MAX_PENDING_BYTES {
        return Err(PendingError::Corrupt);
    }
    let record = match record {
        Some(record) => record,
        None => return Err(PendingError::Corrupt),
    };
    if record.version != VERSION || !is_identifier(record.id.as_str()) {
        return Err(PendingError::Corrupt);
    }
    if record.discarded {
        return Ok(None);
    }
    if !is_submission_text(record.text.as_str()) {
        return Err(PendingError::Corrupt);
    }
    Ok(Some(Pending { id: record.id, text: record.text }))
}

/// Returns the record that keeps one transcript, or refuses what a read would
/// later call corrupt: writing it would lose the transcript at exactly the
/// moment it is needed.
pub fn record_of(pending: &Pending) -> (r: Result<Record, PendingError>)
    ensures
        match r {
            Ok(record) => identifier(pending.id@) && submission_text(pending.text@) && record.version == VERSION
                && record.id@ == pending.id@ && record.text@ == pending.text@ && !record.discarded,
            Err(e) => e == PendingError::Unbounded && !(identifier(pending.id@) && submission_text(pending.text@)),
        },
{
    if !is_identifier(pending.id.as_str()) || !is_submission_text(pending.text.as_str()) {
        return Err(PendingError::Unbounded);
    }
    Ok(Record { version: VERSION, id: pending.id.clone(), text: pending.text.clone(), discarded: false })
}

/// Returns the tombstone for one transcript: the marker that stops discarded
/// words reappearing after a restart.
pub fn tombstone_of(id: &str) -> (r: Record)
    ensures
        r.version == VERSION,
        r.id@ == id@,
        r.text@.len() == 0,
        r.discarded,
{
    Record { version: VERSION, id: id.to_owned(), text: String::new(), discarded: true }
}

/// A store backed by one private file. The file is created on first save.
#[derive(Debug, Clone, PartialEq, Eq)]
pub struct FilePendingStore {
    path: String,
}

impl View for FilePendingStore {
    type V = Seq<char>;

    closed spec fn view(&self) -> Seq<char> {
        self.path@
    }
}

impl FilePendingStore {
    /// Creates a store over `path`.
    pub fn new(path: String) -> (r: Self)
        ensures
            r@ == path@,
    {
        FilePendingStore { path }
    }

    /// Returns the file this store owns.
    pub fn path(&self) -> (r: &str)
        ensures
            r@ == self@,
    {
        self.path.as_str()
    }
}

} // verus!
