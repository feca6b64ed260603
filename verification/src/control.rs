//! What both ends of every Scufris socket agree a word and a message are.
use vstd::prelude::*;

use crate::text::{byte_count, byte_len, has_char, join_path, joined_path, trim, trimmed};

verus! {

/// Longest identifier, in bytes.
pub const MAX_IDENTIFIER_LENGTH: usize = 128;

/// Longest accepted submission text, in bytes.
pub const MAX_SUBMISSION_BYTES: usize = 8 * 1024;

/// Largest frame one line on a socket may carry, in bytes.
pub const MAX_MESSAGE_BYTES: usize = 64 * 1024;

/// Directory below the session runtime directory that every socket lives in.
pub const SOCKET_DIRECTORY_NAME: &'static str = "scufris";

/// A character an identifier may carry.
pub open spec fn identifier_char(c: char) -> bool {
    ('a' <= c && c <= 'z') || ('A' <= c && c <= 'Z') || ('0' <= c && c <= '9') || c == '-' || c
        == '_' || c == '.'
}

/// A protocol identifier: one to [`MAX_IDENTIFIER_LENGTH`] letters, digits,
/// dashes, underscores, and dots. Never a path separator, never white space.
pub open spec fn identifier(s: Seq<char>) -> bool {
    0 < s.len() <= MAX_IDENTIFIER_LENGTH && forall|i: int| 0 <= i < s.len() ==> identifier_char(#[trigger] s[i])
}

/// Answers whether one text is a protocol identifier.
pub fn is_identifier(value: &str) -> (r: bool)
    ensures
        r == identifier(value@),
{
    let n = value.unicode_len();
    if n == 0 || n > MAX_IDENTIFIER_LENGTH {
        return false;
    }
    let mut i: usize = 0;
    while i < n
        invariant
            n == value@.len(),
            i <= n,
            forall|k: int| 0 <= k < i ==> identifier_char(#[trigger] value@[k]),
        decreases n - i,
    {
        let c = value.get_char(i);
        if !(('a' <= c && c <= 'z') || ('A' <= c && c <= 'Z') || ('0' <= c && c <= '9') || c == '-'
            || c == '_' || c == '.') {
            return false;
        }
        i = i + 1;
    }
    true
}

/// Bounded text: within `max` bytes, with no NUL or carriage return, and not
/// blank unless blank is allowed.
pub open spec fn bounded_text(s: Seq<char>, max: nat, allow_empty: bool) -> bool {
    &&& allow_empty || trimmed(s).len() > 0
    &&& byte_len(s) <= max
    &&& !s.contains('\0')
    &&& !s.contains('\r')
}

/// Answers whether one text is bounded text.
pub fn is_bounded_text(value: &str, max: usize, allow_empty: bool) -> (r: bool)
    ensures
        r == bounded_text(value@, max as nat, allow_empty),
{
    if !allow_empty && trim(value).as_str().is_empty() {
        return false;
    }
    byte_count(value) <= max && !has_char(value, '\0') && !has_char(value, '\r')
}

/// Words the person accepted for submission: not blank, within
/// [`MAX_SUBMISSION_BYTES`], with no NUL or carriage return.
pub open spec fn submission_text(s: Seq<char>) -> bool {
    bounded_text(s, MAX_SUBMISSION_BYTES as nat, false)
}

/// Answers whether one text may be submitted.
pub fn is_submission_text(value: &str) -> (r: bool)
    ensures
        r == submission_text(value@),
{
    is_bounded_text(value, MAX_SUBMISSION_BYTES, false)
}

/// The socket one file name is at below a session runtime directory: every
/// socket sits in [`SOCKET_DIRECTORY_NAME`] there. An empty runtime directory
/// is no runtime directory, and places nothing.
pub open spec fn runtime_socket_path(runtime: Seq<char>, name: Seq<char>) -> Option<Seq<char>> {
    if runtime.len() > 0 {
        Some(joined_path(joined_path(runtime, SOCKET_DIRECTORY_NAME@), name))
    } else {
        None
    }
}

/// Places one socket below a session runtime directory, if there is one.
pub fn runtime_socket(runtime: &str, name: &str) -> (r: Option<String>)
    ensures
        match r {
            Some(path) => runtime_socket_path(runtime@, name@) == Some(path@),
            None => runtime_socket_path(runtime@, name@) is None,
        },
{
    if runtime.unicode_len() == 0 {
        return None;
    }
    let directory = join_path(runtime, SOCKET_DIRECTORY_NAME);
    Some(join_path(directory.as_str(), name))
}

/// Why one line on a socket was not a message.
#[derive(Debug, Clone, PartialEq, Eq)]
pub enum MessageError {
    /// The connection closed before a line arrived.
    Empty,
    /// The line was longer than [`MAX_MESSAGE_BYTES`].
    TooLarge,
    /// The line was not JSON, or not a message of this channel.
    InvalidJson(String),
    /// The message named a protocol version this end does not speak.
    UnsupportedVersion(u32),
    /// A field of the message is outside what the protocol allows, named.
    InvalidSubmission(&'static str),
}

} // verus!
