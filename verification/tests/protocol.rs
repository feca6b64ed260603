//! What both ends of every Scufris socket agree a word and a message are.

use scufris::command::{
    answer, read_verb, Acting, Answer, Command, Outcome, Verb, COMMAND_FILE_NAME, COMMAND_VERSION,
};
use scufris::control::{
    is_identifier, is_submission_text, runtime_socket, MessageError, MAX_IDENTIFIER_LENGTH,
    MAX_SUBMISSION_BYTES,
};
use scufris::service::{
    read_surface_request, validate_conversation_message, BriefingCollectionState,
    BriefingDeliveryState, BriefingRow, ConversationMessage, ConversationRole, JobAction,
    SurfaceRegistration, SurfaceRequest, SurfaceRequestBody, SurfaceResponseBody, AGENT_FILE_NAME, CONTENT_FILE_NAME,
    CONTROL_FILE_NAME, MAX_DETAILS_BYTES, SERVICE_VERSION, SURFACE_FILE_NAME, UNPROMPTED_SURFACE,
};

#[test]
fn protocol_paths_are_three_distinct_files() {
    assert_ne!(SURFACE_FILE_NAME, AGENT_FILE_NAME);
    assert_ne!(SURFACE_FILE_NAME, CONTROL_FILE_NAME);
    assert_ne!(AGENT_FILE_NAME, CONTROL_FILE_NAME);
    assert_ne!(CONTENT_FILE_NAME, SURFACE_FILE_NAME);
    assert_ne!(CONTENT_FILE_NAME, AGENT_FILE_NAME);
    assert_ne!(CONTENT_FILE_NAME, CONTROL_FILE_NAME);
}

#[test]
fn briefing_attention_uses_only_measured_terminal_fields() {
    let row = BriefingRow {
        id: "generation-a".into(),
        date: "2026-09-10".into(),
        profile: "morning".into(),
        collection: BriefingCollectionState::Collected,
        delivery: BriefingDeliveryState::Delivered,
        since: 1_757_000_000,
        completed: 3,
        total: 3,
        failed: 1,
        summary: "Summary prose does not classify this row.".into(),
    };
    assert!(row.partial());
    assert!(row.requires_attention());
    assert!(row.dismissible());
    assert!(!row.active());

    let successful = BriefingRow {
        failed: 0,
        ..row.clone()
    };
    assert!(!successful.partial());
    assert!(!successful.requires_attention());
    assert!(successful.dismissible());

    let collecting = BriefingRow {
        collection: BriefingCollectionState::Collecting,
        delivery: BriefingDeliveryState::Pending,
        ..row
    };
    assert!(collecting.active());
    assert!(!collecting.partial());
    assert!(!collecting.requires_attention());
    assert!(!collecting.dismissible());

    let stopped = BriefingRow {
        collection: BriefingCollectionState::Collected,
        delivery: BriefingDeliveryState::Failed,
        ..collecting
    };
    assert!(!stopped.active());
    assert!(stopped.requires_attention());
    assert!(!stopped.dismissible());
}

#[test]
fn canonical_details_are_optional_bounded_markdown_data() {
    let message = ConversationMessage {
        role: ConversationRole::Assistant,
        surface: "desk".into(),
        text: "Literal **plain** text.".into(),
        details: Some(
            "# Result\n\n- **Passed**\n- [Report](https://example.com/report)\n\n```rs\nlet answer = 42;\n```"
                .into(),
        ),
        widgets: None,
        attachments: vec![],
        receipts: vec![],
    };
    assert!(validate_conversation_message(&message).is_ok());
    assert!(validate_conversation_message(&ConversationMessage {
        details: None,
        ..message.clone()
    })
    .is_ok());
    for malformed in [
        String::new(),
        "  \n".into(),
        "bad\rline".into(),
        "bad\0line".into(),
        "x".repeat(MAX_DETAILS_BYTES + 1),
    ] {
        assert!(validate_conversation_message(&ConversationMessage {
            details: Some(malformed),
            ..message.clone()
        })
        .is_err());
    }
}

fn hello(id: &str) -> SurfaceRequest {
    SurfaceRequest::new(SurfaceRequestBody::Hello {
        surface: SurfaceRegistration {
            id: id.into(),
            name: "Desk".into(),
            widgets: vec![],
        },
    })
}

#[test]
fn no_surface_may_register_the_name_an_unprompted_answer_carries() {
    assert!(read_surface_request(Some(u64::from(SERVICE_VERSION)), Ok(hello("desk"))).is_ok());
    assert!(matches!(
        read_surface_request(Some(u64::from(SERVICE_VERSION)), Ok(hello(UNPROMPTED_SURFACE))),
        Err(MessageError::InvalidSubmission("surface id"))
    ));
}

#[test]
fn every_wrong_version_is_identified_before_body_decode() {
    for version in [0, 5, 6, u32::MAX] {
        assert!(matches!(
            read_surface_request(Some(u64::from(version)), Err("unknown variant".into())),
            Err(MessageError::UnsupportedVersion(v)) if v == version
        ));
    }
    assert!(matches!(
        read_surface_request(None, Ok(hello("desk"))),
        Err(MessageError::UnsupportedVersion(0))
    ));
    assert!(matches!(
        read_surface_request(Some(u64::from(SERVICE_VERSION)), Err("unknown variant".into())),
        Err(MessageError::InvalidJson(why)) if why == "unknown variant"
    ));
}

#[test]
fn a_briefing_dismissal_names_an_identifier_and_nothing_else() {
    let dismiss = |id: &str| {
        SurfaceRequest::new(SurfaceRequestBody::BriefingDismiss { id: id.into() })
    };
    assert!(read_surface_request(Some(u64::from(SERVICE_VERSION)), Ok(dismiss("generation-a"))).is_ok());
    assert!(matches!(
        read_surface_request(Some(u64::from(SERVICE_VERSION)), Ok(dismiss("../generation"))),
        Err(MessageError::InvalidSubmission("briefing id"))
    ));
    let job = SurfaceRequest::new(SurfaceRequestBody::JobCommand {
        id: "3f81c204b1e9".into(),
        action: JobAction::Cancel,
    });
    assert!(read_surface_request(Some(u64::from(SERVICE_VERSION)), Ok(job)).is_ok());
}

#[test]
fn identifiers_and_submissions_are_bounded_and_plain() {
    assert!(is_identifier("pill-1"));
    assert!(is_identifier("a.b_c-D9"));
    assert!(!is_identifier(""));
    assert!(!is_identifier("../etc"));
    assert!(!is_identifier("two words"));
    assert!(is_identifier(&"x".repeat(MAX_IDENTIFIER_LENGTH)));
    assert!(!is_identifier(&"x".repeat(MAX_IDENTIFIER_LENGTH + 1)));
    assert!(is_submission_text("remember the milk"));
    assert!(!is_submission_text("   "));
    assert!(!is_submission_text("bad\rline"));
    assert!(!is_submission_text("bad\0line"));
    assert!(is_submission_text(&"x".repeat(MAX_SUBMISSION_BYTES)));
    assert!(!is_submission_text(&"x".repeat(MAX_SUBMISSION_BYTES + 1)));
}

#[test]
fn every_verb_survives_the_round_trip_by_the_name_it_is_typed_with() {
    for word in ["open", "hud"] {
        let verb = Verb::named(word).expect("the word names a verb");
        assert_eq!(verb.name(), word);
        let command = Command::new(verb);
        let mut fields = serde_json::Map::new();
        fields.insert("v".to_string(), serde_json::Value::from(command.v));
        fields.insert("verb".to_string(), serde_json::Value::from(command.verb.name()));
        let line = serde_json::to_string(&serde_json::Value::Object(fields)).expect("it encodes");
        let decoded: serde_json::Value = serde_json::from_str(&line).expect("it decodes");
        let read = Command {
            v: decoded["v"].as_u64().expect("a version") as u32,
            verb: Verb::named(decoded["verb"].as_str().expect("a verb")).expect("a verb it knows"),
        };
        assert_eq!(read, Command::new(verb));
        assert!(line.contains(&format!("\"verb\":\"{word}\"")), "{line}");
    }
    // Two verbs and two windows. A binding that sends one must never get
    // the other: the pill opens the microphone and the HUD does not.
    assert_ne!(Verb::Open, Verb::Hud);

    assert_eq!(Verb::named("quit"), None);
    assert_eq!(Verb::named("accept"), None);
    assert_eq!(Verb::named("cancel"), None);
}

#[test]
fn the_workspace_verbs_are_named_by_the_words_they_are_typed_with() {
    for word in ["show", "hide"] {
        let verb = Verb::named(word).expect("the word names a verb");
        assert_eq!(verb.name(), word);
    }
    assert_ne!(Verb::Show, Verb::Hide);
}

#[test]
fn an_answer_says_which_of_the_two_things_happened() {
    assert_eq!(Answer::new(Outcome::Taken).v, COMMAND_VERSION);
    let refused = Answer::new(Outcome::Refused {
        detail: "the pill is not up".into(),
    });
    assert_eq!(
        refused.outcome,
        Outcome::Refused {
            detail: "the pill is not up".into()
        }
    );
}

#[test]
fn a_command_in_another_version_is_refused_with_both_versions_named() {
    assert_eq!(read_verb(&Command::new(Verb::Open)), Ok(Verb::Open));
    assert_eq!(
        read_verb(&Command {
            v: 7,
            verb: Verb::Hud
        }),
        Err("this companion speaks command version 1, not 7".to_string())
    );
}

#[test]
fn the_command_socket_sits_beside_the_service_socket_and_is_not_it() {
    let command = runtime_socket("/run/user/1000", COMMAND_FILE_NAME).expect("the runtime directory is set");
    let service = runtime_socket("/run/user/1000", SURFACE_FILE_NAME).expect("the runtime directory is set");
    assert_eq!(command, "/run/user/1000/scufris/desktop.sock");
    assert_eq!(service, "/run/user/1000/scufris/surface.sock");
    assert_ne!(command, service);
    assert!(command.ends_with(COMMAND_FILE_NAME));
}

#[test]
fn a_session_with_no_runtime_directory_has_no_command_socket() {
    assert!(runtime_socket("", COMMAND_FILE_NAME).is_none());
    assert_eq!(
        scufris::service::control_socket_path("/run/user/1000/"),
        Some("/run/user/1000/scufris/control.sock".to_string())
    );
    assert_eq!(scufris::service::agent_socket_path(""), None);
}

#[test]
fn a_conversation_message_is_carried_to_a_surface_as_it_is() {
    let message = ConversationMessage {
        role: ConversationRole::User,
        surface: "desk".into(),
        text: "hello".into(),
        details: None,
        widgets: None,
        attachments: vec![],
        receipts: vec![],
    };
    assert_eq!(
        SurfaceResponseBody::from(message.clone()),
        SurfaceResponseBody::Message {
            role: message.role,
            surface: message.surface,
            text: message.text,
            details: message.details,
            widgets: message.widgets,
            attachments: message.attachments,
            receipts: message.receipts,
        }
    );
}

/// A pill that records every verb that reached it.
#[derive(Default)]
struct Pill {
    reached: Vec<Verb>,
}

impl Acting for Pill {
    fn acted(&self) -> vstd::seq::Seq<Verb> {
        vstd::seq::Seq::empty()
    }

    fn outcome_of(&self, _verb: Verb) -> Outcome {
        Outcome::Taken
    }

    fn act(&mut self, verb: Verb) -> Outcome {
        self.reached.push(verb);
        self.outcome_of(verb)
    }
}

#[test]
fn a_line_that_is_not_a_command_is_answered_without_reaching_the_pill() {
    let mut pill = Pill::default();
    let refused = answer(read_verb(&Command { v: 99, verb: Verb::Open }), &mut pill);
    assert_eq!(
        refused,
        Answer {
            v: COMMAND_VERSION,
            outcome: Outcome::Refused {
                detail: "this companion speaks command version 1, not 99".to_string()
            }
        }
    );
    assert!(pill.reached.is_empty());
    let taken = answer(read_verb(&Command::new(Verb::Open)), &mut pill);
    assert_eq!(taken, Answer::new(Outcome::Taken));
    assert_eq!(pill.reached, [Verb::Open]);
}
