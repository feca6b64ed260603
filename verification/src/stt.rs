//! What goes to the transcription endpoint and what comes back from it.
//!
//! The companion owns the audio and the request. Nothing is submitted when
//! transcription fails, so every failure is a short sentence the pill shows
//! instead of a transcript.
use vstd::prelude::*;
use vstd::string::StringExecFns;

use crate::text::{byte_count, byte_len, push_decimal, trim, trimmed, decimal};

verus! {

/// Multipart boundary used for every transcription request.
pub const BOUNDARY: &'static str = "scufris-desktop-boundary";

/// Longest a single transcription may take, in seconds.
pub const TRANSCRIPTION_TIMEOUT_SECONDS: u64 = 60;

/// Longest transcript the companion accepts from the endpoint, in bytes.
pub const MAX_TRANSCRIPT_BYTES: usize = 8 * 1024;

/// Failure to turn a recording into text.
#[derive(Debug, Clone, PartialEq, Eq)]
pub enum TranscriptionError {
    /// The endpoint could not be reached or did not answer in time.
    Unreachable,
    /// The endpoint answered with a failure status.
    Status(u16),
    /// The endpoint answered with something other than a bounded transcript.
    Unusable,
}

/// The sentence the pill shows for one failure.
pub open spec fn error_message(e: TranscriptionError) -> Seq<char> {
    match e {
        TranscriptionError::Unreachable => "Speech recognition is unreachable."@,
        TranscriptionError::Status(code) => "Speech recognition failed with status "@ + decimal(code as nat) + "."@,
        TranscriptionError::Unusable => "Speech recognition returned no usable text."@,
    }
}

impl TranscriptionError {
    /// Returns the short user-facing sentence for this failure.
    pub fn message(&self) -> (r: String)
        ensures
            r@ == error_message(*self),
    {
        match self {
            TranscriptionError::Unreachable => "Speech recognition is unreachable.".to_owned(),
            TranscriptionError::Status(code) => {
                let mut out = "Speech recognition failed with status ".to_owned();
                push_decimal(&mut out, *code as u64);
                out.append(".");
                out
            },
            TranscriptionError::Unusable => "Speech recognition returned no usable text.".to_owned(),
        }
    }
}

/// The multipart content type header value for transcription requests.
pub open spec fn content_type_text() -> Seq<char> {
    "multipart/form-data; boundary="@ + BOUNDARY@
}

/// Returns the multipart content type header value for transcription requests.
pub fn content_type() -> (r: String)
    ensures
        r@ == content_type_text(),
{
    let mut out = "multipart/form-data; boundary=".to_owned();
    out.append(BOUNDARY);
    out
}

/// The UTF-8 bytes of a text.
pub open spec fn utf8(s: Seq<char>) -> Seq<u8> {
    vstd::utf8::encode_utf8(s)
}

/// The multipart body carrying one WAV recording: the response format, the
/// temperature, the recording as `recording.wav`, and the closing boundary.
pub open spec fn multipart(wav: Seq<u8>) -> Seq<u8> {
    utf8("--"@) + utf8(BOUNDARY@) + utf8("\r\n"@)
        + utf8("Content-Disposition: form-data; name=\"response_format\"\r\n\r\n"@) + utf8("json"@)
        + utf8("\r\n"@) + utf8("--"@) + utf8(BOUNDARY@) + utf8("\r\n"@)
        + utf8("Content-Disposition: form-data; name=\"temperature\"\r\n\r\n"@) + utf8("0.0"@)
        + utf8("\r\n"@) + utf8("--"@) + utf8(BOUNDARY@) + utf8("\r\n"@)
        + utf8("Content-Disposition: form-data; name=\"file\"; filename=\"recording.wav\"\r\n"@)
        + utf8("Content-Type: audio/wav\r\n\r\n"@) + wav + utf8("\r\n"@) + utf8("--"@) + utf8(BOUNDARY@)
        + utf8("--\r\n"@)
}

fn put(body: &mut Vec<u8>, text: &str)
    ensures
        final(body)@ == old(body)@ + utf8(text@),
{
    let bytes = text.as_bytes();
    let mut i: usize = 0;
    let ghost start = body@;
    while i < bytes.len()
        invariant
            i <= bytes@.len(),
            bytes@ == utf8(text@),
            body@ == start + bytes@.subrange(0, i as int),
        decreases bytes@.len() - i,
    {
        body.push(bytes[i]);
        proof {
            assert(bytes@.subrange(0, i + 1) =~= bytes@.subrange(0, i as int).push(bytes@[i as int]));
        }
        i = i + 1;
    }
    proof {
        assert(bytes@.subrange(0, bytes@.len() as int) =~= bytes@);
    }
}

fn put_bytes(body: &mut Vec<u8>, bytes: &[u8])
    ensures
        final(body)@ == old(body)@ + bytes@,
{
    let mut i: usize = 0;
    let ghost start = body@;
    while i < bytes.len()
        invariant
            i <= bytes@.len(),
            body@ == start + bytes@.subrange(0, i as int),
        decreases bytes@.len() - i,
    {
        body.push(bytes[i]);
        proof {
            assert(bytes@.subrange(0, i + 1) =~= bytes@.subrange(0, i as int).push(bytes@[i as int]));
        }
        i = i + 1;
    }
    proof {
        assert(bytes@.subrange(0, bytes@.len() as int) =~= bytes@);
    }
}

/// Builds the multipart body carrying one WAV recording.
pub fn multipart_body(wav: &[u8]) -> (r: Vec<u8>)
    ensures
        r@ == multipart(wav@),
{
    let mut body: Vec<u8> = Vec::new();
    put(&mut body, "--");
    put(&mut body, BOUNDARY);
    put(&mut body, "\r\n");
    put(&mut body, "Content-Disposition: form-data; name=\"response_format\"\r\n\r\n");
    put(&mut body, "json");
    put(&mut body, "\r\n");
    put(&mut body, "--");
    put(&mut body, BOUNDARY);
    put(&mut body, "\r\n");
    put(&mut body, "Content-Disposition: form-data; name=\"temperature\"\r\n\r\n");
    put(&mut body, "0.0");
    put(&mut body, "\r\n");
    put(&mut body, "--");
    put(&mut body, BOUNDARY);
    put(&mut body, "\r\n");
    put(&mut body, "Content-Disposition: form-data; name=\"file\"; filename=\"recording.wav\"\r\n");
    put(&mut body, "Content-Type: audio/wav\r\n\r\n");
    put_bytes(&mut body, wav);
    put(&mut body, "\r\n");
    put(&mut body, "--");
    put(&mut body, BOUNDARY);
    put(&mut body, "--\r\n");
    proof {
        assert(body@ =~= multipart(wav@));
    }
    body
}

/// What the endpoint's transcript field becomes: trimmed, and refused when it
/// is missing, blank, or longer than [`MAX_TRANSCRIPT_BYTES`].
pub open spec fn transcript_of(text: Option<Seq<char>>) -> Option<Seq<char>> {
    match text {
        None => None,
        Some(t) => if trimmed(t).len() == 0 || byte_len(trimmed(t)) > MAX_TRANSCRIPT_BYTES {
            None
        } else {
            Some(trimmed(t))
        },
    }
}

/// Reads the transcript out of the endpoint's `text` field.
pub fn transcript(text: Option<String>) -> (r: Result<String, TranscriptionError>)
    ensures
        match r {
            Ok(t) => transcript_of(
                match text {
                    Some(s) => Some(s@),
                    None => None,
                },
            ) == Some(t@),
            Err(e) => e == TranscriptionError::Unusable && transcript_of(
                match text {
                    Some(s) => Some(s@),
                    None => None,
                },
            ) is None,
        },
{
    let text = match text {
        Some(text) => text,
        None => return Err(TranscriptionError::Unusable),
    };
    let text = trim(text.as_str());
    if text.as_str().is_empty() || byte_count(text.as_str()) > MAX_TRANSCRIPT_BYTES {
        return Err(TranscriptionError::Unusable);
    }
    Ok(text)
}

/// Turns one endpoint answer into a transcript: a failure status is reported
/// as itself, and a body that is not a transcript payload is unusable.
///
/// `text` is the payload's `text` field, `Err` when the body was not a
/// transcript payload at all.
pub fn answered(status: u16, text: Result<Option<String>, ()>) -> (r: Result<String, TranscriptionError>)
    ensures
        !(200 <= status <= 299) ==> r == Err::<String, TranscriptionError>(TranscriptionError::Status(status)),
        (200 <= status <= 299 && text is Err) ==> r == Err::<String, TranscriptionError>(TranscriptionError::Unusable),
        (200 <= status <= 299 && text is Ok) ==> match r {
            Ok(t) => transcript_of(
                match text {
                    Ok(Some(s)) => Some(s@),
                    _ => None,
                },
            ) == Some(t@),
            Err(e) => e == TranscriptionError::Unusable && transcript_of(
                match text {
                    Ok(Some(s)) => Some(s@),
                    _ => None,
                },
            ) is None,
        },
{
    if status < 200 || status > 299 {
        return Err(TranscriptionError::Status(status));
    }
    match text {
        Ok(text) => transcript(text),
        Err(()) => Err(TranscriptionError::Unusable),
    }
}

} // verus!
