//! What a message may carry about jobs and attachments, checked the way the
//! service reads it once the line has been decoded.

use scufris::control::MessageError;
use scufris::service::{
    validate_agent_request, validate_agent_response, validate_surface_request, AgentRequest,
    AgentRequestBody, AgentResponse, AgentResponseBody, AttachmentDescriptor, Citation, Offer,
    Receipt, ReceiptState, SurfaceRequest, SurfaceRequestBody, MAX_ATTACHMENT_BYTES, MAX_OFFERS,
    MAX_RECEIPTS,
};

fn cited(job_id: &str) -> Citation {
    Citation {
        job_id: job_id.into(),
        badges: vec![Receipt {
            label: "landed".into(),
            value: "yes".into(),
            state: ReceiptState::Measured,
        }],
        offers: vec![Offer {
            id: format!("offer-{job_id}"),
            label: "push master".into(),
            taken: false,
        }],
    }
}

fn response(text: &str, receipts: Vec<Citation>) -> AgentRequest {
    AgentRequest::new(AgentRequestBody::Response {
        proactive_id: None,
        turn_id: None,
        text: text.into(),
        details: None,
        widgets: None,
        attachments: vec![],
        receipts,
    })
}

#[test]
fn badges_are_grouped_by_job_and_one_job_gets_one_group() {
    let both = response(
        "Both jobs finished.",
        vec![cited("750a4de8a80d"), cited("01ccbac98b97")],
    );
    assert_eq!(validate_agent_request(&both), Ok(()));
    let doubled = response(
        "One job, twice.",
        vec![cited("750a4de8a80d"), cited("750a4de8a80d")],
    );
    assert_eq!(
        validate_agent_request(&doubled),
        Err(MessageError::InvalidSubmission("receipts"))
    );
}

#[test]
fn an_offer_identifier_names_one_offer_in_the_whole_message() {
    let mut second = cited("01ccbac98b97");
    second.offers[0].id = cited("750a4de8a80d").offers[0].id.clone();
    let clashing = response("Two offers, one name.", vec![cited("750a4de8a80d"), second]);
    assert_eq!(
        validate_agent_request(&clashing),
        Err(MessageError::InvalidSubmission("offers"))
    );
}

#[test]
fn a_citation_is_bounded_the_way_a_strip_is_read() {
    let badge = Receipt {
        label: "landed".into(),
        value: "yes".into(),
        state: ReceiptState::Measured,
    };
    let group = |badges: usize, offers: usize| {
        validate_agent_request(&response(
            "Done.",
            vec![Citation {
                job_id: "750a4de8a80d".into(),
                badges: vec![badge.clone(); badges],
                offers: (0..offers)
                    .map(|index| Offer {
                        id: format!("offer-{index}"),
                        label: "push master".into(),
                        taken: false,
                    })
                    .collect(),
            }],
        ))
    };
    assert!(group(MAX_RECEIPTS, MAX_OFFERS).is_ok());
    assert!(group(MAX_RECEIPTS + 1, 0).is_err());
    assert!(group(1, MAX_OFFERS + 1).is_err());
}

#[test]
fn attachment_references_and_descriptors_are_strict_and_bounded() {
    let descriptor = AttachmentDescriptor {
        id: "att_0123456789".into(),
        name: "diagram.png".into(),
        media_type: "image/png".into(),
        size: 184_223,
    };
    let message = |attachment: AttachmentDescriptor| {
        AgentResponse::new(AgentResponseBody::Message {
            id: "message-1".into(),
            text: "See the diagram.".into(),
            widgets: vec![],
            attachments: vec![attachment],
        })
    };
    assert_eq!(validate_agent_response(&message(descriptor.clone())), Ok(()));
    for invalid in [
        AttachmentDescriptor {
            name: "../secret".into(),
            ..descriptor.clone()
        },
        AttachmentDescriptor {
            media_type: "image png".into(),
            ..descriptor.clone()
        },
        AttachmentDescriptor {
            size: MAX_ATTACHMENT_BYTES + 1,
            ..descriptor.clone()
        },
    ] {
        assert!(validate_agent_response(&message(invalid)).is_err());
    }
    let duplicate = SurfaceRequest::new(SurfaceRequestBody::Message {
        id: "message-1".into(),
        text: "See it.".into(),
        attachments: vec![descriptor.id.clone(), descriptor.id],
    });
    assert!(validate_surface_request(&duplicate).is_err());
}
