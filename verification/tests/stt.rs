//! What goes to the transcription endpoint and what comes back from it.

use scufris::stt::{answered, content_type, multipart_body, TranscriptionError, MAX_TRANSCRIPT_BYTES};

#[test]
fn the_body_carries_the_recording_and_the_requested_format() {
    let body = multipart_body(b"RIFFfake");
    let text = String::from_utf8_lossy(&body);
    assert!(text.contains("name=\"response_format\"\r\n\r\njson"));
    assert!(text.contains("filename=\"recording.wav\""));
    assert!(text.contains("Content-Type: audio/wav"));
    assert!(text.contains("RIFFfake"));
    assert!(text.ends_with("--scufris-desktop-boundary--\r\n"));
    assert_eq!(
        content_type(),
        "multipart/form-data; boundary=scufris-desktop-boundary"
    );
}

#[test]
fn failures_read_as_short_user_facing_sentences() {
    assert_eq!(
        TranscriptionError::Unreachable.message(),
        "Speech recognition is unreachable."
    );
    assert_eq!(
        TranscriptionError::Status(503).message(),
        "Speech recognition failed with status 503."
    );
}

#[test]
fn a_transcript_field_is_trimmed_and_bounded() {
    assert_eq!(
        scufris::stt::transcript(Some("  open the widget \n".into())),
        Ok("open the widget".to_string())
    );
    assert_eq!(
        scufris::stt::transcript(Some("   ".into())),
        Err(TranscriptionError::Unusable)
    );
    assert_eq!(scufris::stt::transcript(None), Err(TranscriptionError::Unusable));
    let oversized = "x".repeat(scufris::stt::MAX_TRANSCRIPT_BYTES + 1);
    assert_eq!(
        scufris::stt::transcript(Some(oversized)),
        Err(TranscriptionError::Unusable)
    );
    let exact = "x".repeat(scufris::stt::MAX_TRANSCRIPT_BYTES);
    assert_eq!(scufris::stt::transcript(Some(exact.clone())), Ok(exact));
}

#[test]
fn an_endpoint_answer_is_a_status_a_payload_or_unusable() {
    assert_eq!(
        answered(503, Ok(Some("hello".into()))),
        Err(TranscriptionError::Status(503))
    );
    assert_eq!(answered(200, Err(())), Err(TranscriptionError::Unusable));
    assert_eq!(answered(200, Ok(None)), Err(TranscriptionError::Unusable));
    assert_eq!(answered(204, Ok(Some(" hi ".into()))), Ok("hi".to_string()));
    assert_eq!(
        TranscriptionError::Unusable.message(),
        "Speech recognition returned no usable text."
    );
}

/// One endpoint body read the way the runtime reads it: the JSON is decoded
/// there, and the `text` field is handed to the library.
fn parse_transcript(body: &str) -> Result<String, TranscriptionError> {
    let text = match serde_json::from_str::<serde_json::Value>(body) {
        Ok(payload) => Ok(payload.get("text").and_then(|text| text.as_str()).map(String::from)),
        Err(_) => Err(()),
    };
    answered(200, text)
}

#[test]
fn a_transcript_is_trimmed_and_bounded() {
    assert_eq!(
        parse_transcript("{\"text\":\"  open the widget \\n\"}").unwrap(),
        "open the widget"
    );
    assert!(matches!(
        parse_transcript("{\"text\":\"   \"}"),
        Err(TranscriptionError::Unusable)
    ));
    assert!(matches!(parse_transcript("{}"), Err(TranscriptionError::Unusable)));
    assert!(matches!(parse_transcript("not json"), Err(TranscriptionError::Unusable)));
    let oversized = format!("{{\"text\":\"{}\"}}", "x".repeat(MAX_TRANSCRIPT_BYTES + 1));
    assert!(matches!(parse_transcript(&oversized), Err(TranscriptionError::Unusable)));
}
