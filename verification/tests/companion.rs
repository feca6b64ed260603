//! The pill's state machine, driven the way the runtime drives it.

use scufris::notices::NoticeState;
use scufris::pending::Pending;
use scufris::state::{Action, Assistant, Companion, Event, Phase, Posture, RESTORED_REASON};
#[test]
fn phase_names_are_stable_and_free_of_transcripts() {
    assert_eq!(Phase::Resting.name(), "resting");
    assert_eq!(Phase::Listening.name(), "listening");
    assert_eq!(
        Phase::Editing {
            transcript: "secret words".into(),
            id: "pill-1".into(),
            notice: String::new(),
        }
        .name(),
        "editing"
    );
    let mut companion = Companion::new("pill");
    assert_eq!(companion.phase_name(), "resting");
    companion.set_connected(true);
    companion.apply(Event::Activate);
    assert_eq!(companion.phase_name(), "listening");
}

fn opened() -> Companion {
    let mut companion = Companion::new("pill");
    companion.set_connected(true);
    assert_eq!(
        companion.apply(Event::Activate),
        vec![Action::StartRecording]
    );
    assert!(companion.on_screen());
    companion
}

/// A companion whose recording is transcribed and waiting in the textbox.
///
/// Two presses to get here, and that is the whole interaction now: the
/// activation key opens the microphone and the same key closes it, and
/// what was said lands in a window the person reads before Enter sends it.
fn drafted(words: &str) -> Companion {
    let mut companion = opened();
    assert_eq!(
        companion.apply(Event::Activate),
        vec![Action::StopRecording]
    );
    assert_eq!(
        companion.apply(Event::Transcribed(words.into())),
        vec![persist("pill-1", words)]
    );
    companion
}

/// A companion whose submission was just acknowledged: resting, up.
fn handed_off() -> Companion {
    let mut companion = drafted("open the tasks widget");
    companion.apply(Event::Enter { text: None });
    companion.apply(Event::Acknowledged("pill-1".into()));
    assert_eq!(companion.phase(), &Phase::Resting);
    companion
}

/// The pill is an indicator and nothing else. Every phase that wants the
/// keyboard wants it for words, and words live in the textbox.
#[test]
fn only_the_phases_with_words_in_them_ask_for_the_keyboard() {
    let mut companion = opened();
    assert_eq!(companion.posture(), Posture::Watched);
    assert!(!companion.posture().textbox());
    companion.apply(Event::Activate);
    assert_eq!(companion.posture(), Posture::Watched);
    companion.apply(Event::Transcribed("draft".into()));
    assert_eq!(companion.posture(), Posture::Editing);
    assert!(companion.posture().textbox());
    // Handed over: the words are the service's, so the keyboard is the
    // person's again while the pill goes on reporting.
    companion.apply(Event::Enter { text: None });
    assert_eq!(companion.posture(), Posture::Passive);
    assert!(!companion.posture().textbox());
    assert!(!companion.posture().waits());
    // And a refusal brings the words back, so it brings the textbox back.
    companion.apply(refused("pill-1", "offline"));
    assert_eq!(companion.posture(), Posture::Editing);
}

#[test]
fn the_pill_rests_on_screen_through_and_after_a_turn() {
    let mut companion = handed_off();
    // The service picks the turn up: the pill reports it, passively.
    companion.set_assistant(Assistant::Working, String::new());
    assert_eq!(companion.posture(), Posture::Passive);
    assert_eq!(companion.presentation().state, "working");
    companion.set_assistant(Assistant::Speaking, String::new());
    assert_eq!(companion.posture(), Posture::Passive);
    assert_eq!(companion.presentation().state, "speaking");
    // The pill is a resident HUD: an idle assistant is something to show,
    // not a reason to leave.
    companion.set_assistant(Assistant::Idle, String::new());
    assert_eq!(companion.posture(), Posture::Passive);
    assert_eq!(companion.presentation().state, "idle");
    // A turn started somewhere else is shown like any other.
    companion.set_assistant(Assistant::Working, String::new());
    assert_eq!(companion.posture(), Posture::Passive);
    assert_eq!(companion.presentation().state, "working");
}

/// Stop belongs to the assistant, not to the phase. It ends the run and
/// leaves whatever the person was in the middle of exactly where it was.
#[test]
fn stopping_a_run_ends_it_and_leaves_the_words_alone() {
    let mut companion = drafted("open the tasks widget");
    companion.set_assistant(Assistant::Working, String::new());
    assert_eq!(
        companion.apply(Event::Stop),
        vec![Action::Abort {
            id: "pill-2".into()
        }],
        "the run was not stopped"
    );
    // An identifier of its own, so the service's answer to the stop can
    // never be read as the answer to the words still on screen.
    assert_eq!(
        companion.phase(),
        &Phase::Editing {
            transcript: "open the tasks widget".into(),
            id: "pill-1".into(),
            notice: String::new(),
        }
    );
    assert_eq!(companion.posture(), Posture::Editing);
}

/// Nothing to stop is not a mistake worth reporting. Whatever the person
/// meant to stop - the speaker, or a run that settled while they reached
/// for the key - has stopped.
#[test]
fn stopping_a_settled_assistant_asks_the_service_for_nothing() {
    let mut companion = handed_off();
    for state in [
        Assistant::Starting,
        Assistant::Idle,
        Assistant::Detached,
        Assistant::Error,
    ] {
        companion.set_assistant(state, String::new());
        assert_eq!(
            companion.apply(Event::Stop),
            Vec::new(),
            "{state:?} was taken for a run"
        );
    }
    assert!(companion.on_screen(), "stopping put the pill away");
}

#[test]
fn assistant_activity_never_raises_a_dismissed_pill() {
    let mut companion = Companion::new("pill");
    companion.set_connected(true);
    companion.set_assistant(Assistant::Working, String::new());
    assert_eq!(companion.posture(), Posture::Off);
    companion.set_assistant(Assistant::Error, "the agent stopped".into());
    assert_eq!(companion.posture(), Posture::Off);
}

#[test]
fn only_the_persons_escape_dismisses_the_resting_pill() {
    let mut companion = handed_off();
    companion.set_assistant(Assistant::Working, String::new());
    assert_eq!(companion.posture(), Posture::Passive);
    // The socket closing is something the resident pill reports, not a
    // reason for it to leave.
    companion.set_connected(false);
    assert_eq!(companion.posture(), Posture::Passive);
    assert_eq!(companion.presentation().state, "disconnected");
    companion.set_connected(true);
    companion.set_assistant(Assistant::Working, String::new());
    assert_eq!(companion.posture(), Posture::Passive);

    // Escape is the one road off the screen, and the next activation is
    // the one road back.
    companion.apply(Event::Activate);
    assert_eq!(companion.posture(), Posture::Watched);
    companion.apply(Event::Escape);
    assert_eq!(companion.posture(), Posture::Off);
    companion.set_assistant(Assistant::Speaking, String::new());
    assert_eq!(
        companion.posture(),
        Posture::Off,
        "a dismissed pill stays dismissed whatever the assistant does"
    );
    companion.apply(Event::Activate);
    assert_eq!(companion.posture(), Posture::Watched);
}

fn persist(id: &str, text: &str) -> Action {
    Action::PersistPending {
        id: id.into(),
        text: text.into(),
    }
}

fn submit(id: &str, text: &str) -> Action {
    Action::Submit {
        id: id.into(),
        text: text.into(),
    }
}

fn refused(id: &str, reason: &str) -> Event {
    Event::SubmissionFailed {
        id: id.into(),
        reason: reason.into(),
    }
}

fn uncertain(id: &str, reason: &str) -> Event {
    Event::SubmissionUncertain {
        id: id.into(),
        reason: reason.into(),
    }
}

/// Every voice submission passes through the textbox. There is no key that
/// sends a transcript nobody has read: the second activation stops the
/// microphone, the words arrive in a window, and Enter is what sends them.
#[test]
fn a_transcript_is_read_in_the_textbox_before_anything_is_sent() {
    let mut companion = opened();
    assert_eq!(
        companion.apply(Event::Activate),
        vec![Action::StopRecording]
    );
    assert_eq!(
        companion.apply(Event::Transcribed("  open the tasks widget \n".into())),
        vec![persist("pill-1", "open the tasks widget")],
        "the words were sent without the person seeing them"
    );
    let presentation = companion.presentation();
    assert_eq!(presentation.state, "editing");
    assert!(presentation.editable);
    assert_eq!(presentation.text, "open the tasks widget");
    assert_eq!(companion.posture(), Posture::Editing);

    // The person corrects them and sends.
    assert_eq!(
        companion.apply(Event::Enter {
            text: Some("open the tasks panel".into())
        }),
        vec![
            persist("pill-1", "open the tasks panel"),
            submit("pill-1", "open the tasks panel"),
        ]
    );
    assert_eq!(
        companion.posture(),
        Posture::Passive,
        "the keyboard was not given back"
    );
    // The desktop is already back; the acknowledgment only retires the
    // durable copy.
    assert_eq!(
        companion.apply(Event::Acknowledged("pill-1".into())),
        vec![Action::ClearPending]
    );
    assert_eq!(companion.phase(), &Phase::Resting);
}

#[test]
fn escape_discards_the_recording_and_the_draft_and_closes_the_pill() {
    let mut companion = opened();
    assert_eq!(
        companion.apply(Event::Escape),
        vec![Action::DiscardRecording]
    );
    assert!(!companion.on_screen(), "the pill stayed up after a cancel");

    let mut companion = drafted("draft");
    // Discarding a drafted transcript is explicit, so the durable copy goes
    // with it under the stronger discard rules.
    assert_eq!(
        companion.apply(Event::Escape),
        vec![Action::DiscardPending {
            id: "pill-1".into()
        }]
    );
    assert!(!companion.on_screen());
    assert!(!companion.holds_unsent_transcript());
}

#[test]
fn failed_transcription_submits_nothing_and_reports_the_reason() {
    let mut companion = opened();
    companion.apply(Event::Activate);
    assert_eq!(
        companion.apply(Event::TranscriptionFailed("Whisper is unreachable.".into())),
        Vec::new()
    );
    let presentation = companion.presentation();
    assert_eq!(presentation.state, "error");
    assert_eq!(presentation.detail, "Whisper is unreachable.");
    assert!(!companion.holds_unsent_transcript());
    assert_eq!(
        companion.apply(Event::Activate),
        vec![Action::StartRecording]
    );
}

#[test]
fn a_microphone_that_never_starts_leaves_no_recording_indicator() {
    let mut companion = opened();
    assert_eq!(companion.presentation().state, "listening");
    assert_eq!(
        companion.apply(Event::RecordingFailed("no microphone is available".into())),
        vec![Action::DiscardRecording]
    );
    let presentation = companion.presentation();
    assert_eq!(presentation.state, "error");
    assert!(!presentation.recording);
    assert_eq!(presentation.detail, "no microphone is available");
    assert_eq!(companion.tray_state(), "error");
}

#[test]
fn a_capture_stream_that_fails_mid_recording_reports_the_same_way() {
    let mut companion = opened();
    companion.apply(Event::Activate);
    assert_eq!(companion.presentation().state, "transcribing");
    assert_eq!(
        companion.apply(Event::RecordingFailed("microphone capture failed".into())),
        vec![Action::CancelTranscription]
    );
    assert_eq!(companion.presentation().state, "error");
    assert!(!companion.holds_unsent_transcript());
}

#[test]
fn the_desktop_comes_back_when_the_words_are_handed_off() {
    let mut companion = drafted("open the tasks widget");
    // Handing the words to the service is where the keyboard comes back. It
    // must not be held until an acknowledgment that can take a whole turn
    // to arrive, or never arrive at all. The pill itself stays, passive,
    // to report the turn it started.
    assert_eq!(
        companion.apply(Event::Enter { text: None }),
        vec![
            persist("pill-1", "open the tasks widget"),
            submit("pill-1", "open the tasks widget"),
        ]
    );
    assert_eq!(companion.posture(), Posture::Passive);

    // Nothing gives it the keyboard while the submission is outstanding.
    assert_eq!(companion.apply(Event::Copy), Vec::new());
    assert_eq!(companion.posture(), Posture::Passive);
    // The acknowledgment retires the durable copy. The pill stays, at
    // rest, until the person dismisses it.
    assert_eq!(
        companion.apply(Event::Acknowledged("pill-1".into())),
        vec![Action::ClearPending]
    );
    assert_eq!(companion.posture(), Posture::Passive);
}

#[test]
fn a_handed_off_transcript_brings_the_textbox_back_when_it_goes_wrong() {
    for (event, expected) in [
        (refused("pill-1", "The backend is unavailable."), "retained"),
        (
            uncertain("pill-1", "The backend did not confirm delivery."),
            "uncertain",
        ),
    ] {
        let mut companion = drafted("book the flight");
        companion.apply(Event::Enter { text: None });
        assert_eq!(companion.posture(), Posture::Passive);
        assert_eq!(companion.apply(event), Vec::new());
        assert_eq!(
            companion.posture(),
            Posture::Editing,
            "the textbox did not take the keyboard back for {expected}"
        );
        assert_eq!(companion.presentation().state, expected);
        assert_eq!(companion.presentation().text, "book the flight");
    }
}

#[test]
fn an_undeliverable_transcript_is_retained_and_resubmittable() {
    let mut companion = drafted("remember the milk");
    companion.apply(Event::Enter { text: None });
    // The pill went passive at the handoff, so a refusal has to bring the
    // textbox back to say so.
    assert_eq!(
        companion.apply(refused("pill-1", "The backend is unavailable.")),
        Vec::new()
    );
    assert!(companion.on_screen());
    let presentation = companion.presentation();
    assert_eq!(presentation.state, "retained");
    assert_eq!(presentation.text, "remember the milk");
    // The send was refused outright, so the service never saw it and the
    // text is still safe to change.
    assert!(presentation.editable);
    assert!(companion.holds_unsent_transcript());
    assert_eq!(
        companion.apply(Event::Enter { text: None }),
        vec![
            persist("pill-1", "remember the milk"),
            submit("pill-1", "remember the milk"),
        ]
    );
    assert_eq!(companion.posture(), Posture::Passive);
}

/// The pill is the recording privacy indicator and the textbox is the only
/// place a transcript can be read or corrected. A phase that cannot have a
/// window has nothing left to offer, so it stops rather than carrying on
/// unseen.
#[test]
fn a_pill_that_cannot_be_opened_stops_the_recording_and_says_so_on_the_tray() {
    let mut companion = opened();
    assert_eq!(
        companion.abandon("the pill did not come up".into()),
        vec![Action::DiscardRecording]
    );
    assert!(!companion.on_screen());
    assert!(companion.blinded());
    // The tray is the only thing left that can say anything at all.
    assert_eq!(companion.tray_state(), "error");
    let presentation = companion.presentation();
    assert_eq!(presentation.state, "error");
    assert_eq!(presentation.detail, "the pill did not come up");
    assert!(!presentation.recording);

    // Nothing here tries the window again by itself. The person asking for
    // the pill is what does, and it starts from the beginning.
    assert_eq!(
        companion.apply(Event::Activate),
        vec![Action::StartRecording]
    );
    assert!(!companion.blinded());
    assert!(companion.on_screen());
    assert_eq!(companion.presentation().state, "listening");
}

#[test]
fn abandoning_an_accepted_transcript_never_throws_it_away() {
    let mut companion = drafted("remember the milk");
    companion.apply(Event::Enter { text: None });
    companion.apply(refused("pill-1", "The backend is unavailable."));
    assert!(companion.on_screen());

    // The transcript reached durable storage before anything was sent, so
    // giving up the window leaves it exactly where the next start finds it.
    assert_eq!(
        companion.abandon("the pill did not come up".into()),
        Vec::new()
    );
    assert!(!companion.holds_unsent_transcript());
    assert!(!companion.on_screen());
    assert_eq!(companion.tray_state(), "error");
}

#[test]
fn abandoning_during_transcription_cancels_it() {
    let mut companion = opened();
    companion.apply(Event::Activate);
    assert_eq!(
        companion.abandon("the pill did not come up".into()),
        vec![Action::CancelTranscription]
    );
    assert!(!companion.on_screen());
}

#[test]
fn an_uncertain_transcript_is_never_resent_without_the_person_saying_so() {
    let mut companion = drafted("book the flight");
    companion.apply(Event::Enter { text: None });
    // The submission left the companion and was never acknowledged, so it
    // may already be in the conversation and may already have run.
    companion.apply(uncertain("pill-1", "The backend did not confirm delivery."));

    let presentation = companion.presentation();
    assert_eq!(presentation.state, "uncertain");
    assert!(
        !presentation.editable,
        "an uncertain transcript must not be editable"
    );
    assert!(
        presentation.detail.contains("Escape to discard"),
        "the choices must be on offer: {}",
        presentation.detail
    );

    // The ordinary key says what is at stake and sends nothing at all.
    assert_eq!(
        companion.apply(Event::Enter {
            text: Some("cancel the flight".into())
        }),
        Vec::new(),
        "an ordinary Enter resent a request that may already have run"
    );
    assert!(
        companion
            .presentation()
            .detail
            .contains("could repeat what it did"),
        "the person was not told what sending again risks"
    );

    // Copying is always safe, and never sends anything.
    assert_eq!(
        companion.apply(Event::Copy),
        vec![Action::CopyTranscript {
            text: "book the flight".into()
        }]
    );

    // The second Enter is the person's own decision, and carries it.
    assert_eq!(
        companion.apply(Event::Enter {
            text: Some("cancel the flight".into())
        }),
        vec![
            persist("pill-1", "book the flight"),
            submit("pill-1", "book the flight"),
        ],
        "the forced send must carry the accepted words, never an edit"
    );
    assert_eq!(companion.posture(), Posture::Passive);
}

#[test]
fn an_answer_for_another_submission_never_settles_the_current_one() {
    let mut companion = drafted("book the flight");
    companion.apply(Event::Enter { text: None });
    // The first submission is answered late, after the person recorded
    // again: concurrent dispatch and forced sends make that ordinary.
    companion.apply(Event::Acknowledged("pill-1".into()));
    companion.apply(Event::Activate);
    companion.apply(Event::Activate);
    companion.apply(Event::Transcribed("read my mail".into()));
    companion.apply(Event::Enter { text: None });
    assert!(companion.awaiting("pill-2"));

    assert_eq!(
        companion.apply(uncertain("pill-1", "The backend did not confirm delivery.")),
        Vec::new()
    );
    assert_eq!(
        companion.presentation().state,
        "sent",
        "a stale uncertainty froze the transcript that replaced it"
    );
    assert!(companion.awaiting("pill-2"));

    assert_eq!(companion.apply(refused("pill-1", "offline")), Vec::new());
    assert_eq!(
        companion.presentation().state,
        "sent",
        "a stale refusal reopened the transcript that replaced it"
    );

    // Its own answer still lands.
    companion.apply(uncertain("pill-2", "The backend did not confirm delivery."));
    assert_eq!(companion.presentation().state, "uncertain");
}

#[test]
fn a_refused_send_says_so_and_keeps_the_words_editable() {
    let mut companion = drafted("remember the milk");
    companion.apply(Event::Enter { text: None });
    // The service refused before anything left it, and said which
    // submission it was refusing.
    assert_eq!(
        companion.apply(refused(
            "pill-1",
            "submission pill-1 was not sent: no session"
        )),
        Vec::new()
    );
    assert!(companion.on_screen());

    let presentation = companion.presentation();
    assert_eq!(presentation.state, "retained");
    assert!(
        presentation.editable,
        "words the conversation never saw must stay editable"
    );
    assert!(!presentation.detail.contains("could repeat"));
    // And one Enter sends them, with no warning to acknowledge first.
    assert_eq!(
        companion.apply(Event::Enter { text: None }),
        vec![
            persist("pill-1", "remember the milk"),
            submit("pill-1", "remember the milk"),
        ]
    );
    assert_eq!(companion.posture(), Posture::Passive);
}

#[test]
fn a_refusal_of_a_forced_send_does_not_forget_the_earlier_uncertainty() {
    let mut companion = drafted("book the flight");
    companion.apply(Event::Enter { text: None });
    companion.apply(uncertain("pill-1", "no confirmation"));
    // The person decided to send it anyway, and this attempt was refused.
    companion.apply(Event::Enter { text: None });
    companion.apply(Event::Enter { text: None });
    assert_eq!(companion.presentation().state, "sent");
    companion.apply(refused(
        "pill-1",
        "submission pill-1 was not sent: no session",
    ));

    let presentation = companion.presentation();
    assert_eq!(
        presentation.state, "uncertain",
        "a refused retry made words that may already have run editable again"
    );
    assert!(!presentation.editable);
    assert!(presentation.detail.contains("Escape to discard"));
    // The warning is owed again before anything is sent again.
    assert_eq!(companion.apply(Event::Enter { text: None }), Vec::new());
    assert_eq!(
        companion.apply(Event::Enter { text: None }),
        vec![
            persist("pill-1", "book the flight"),
            submit("pill-1", "book the flight"),
        ]
    );
    assert_eq!(companion.posture(), Posture::Passive);
}

#[test]
fn a_failed_durable_save_stops_the_submission_and_keeps_the_text() {
    let mut companion = drafted("do not lose me");
    companion.apply(Event::Enter { text: None });
    // The runtime stops before Submit when the save fails, so this send
    // never happened, and the phase it lands in is one the person sees.
    assert_eq!(
        companion.apply(Event::PersistFailed("the disk is full".into())),
        Vec::new()
    );
    assert!(companion.on_screen());

    let presentation = companion.presentation();
    assert_eq!(presentation.state, "retained");
    assert_eq!(presentation.text, "do not lose me");
    assert_eq!(presentation.detail, "the disk is full");
    assert!(
        presentation.editable,
        "nothing was delivered, so the text stays editable"
    );
    assert!(companion.holds_unsent_transcript());
}

#[test]
fn a_failed_durable_save_while_editing_is_visible_without_losing_the_draft() {
    let mut companion = drafted("draft text");
    companion.apply(Event::PersistFailed("the disk is full".into()));

    let presentation = companion.presentation();
    assert_eq!(presentation.state, "editing");
    assert_eq!(presentation.text, "draft text");
    assert_eq!(presentation.detail, "the disk is full");
    assert!(presentation.editable);
}

#[test]
fn a_discard_that_cannot_happen_reopens_the_pill_on_the_reason() {
    let mut companion = Companion::new("pill");
    companion.set_connected(true);
    assert_eq!(
        companion.apply(Event::DiscardFailed(
            "The discarded transcript is still on disk.".into()
        )),
        Vec::new()
    );
    assert!(companion.on_screen());
    let presentation = companion.presentation();
    assert_eq!(presentation.state, "error");
    assert_eq!(
        presentation.detail,
        "The discarded transcript is still on disk."
    );
    assert_eq!(presentation.text, "", "discarded words must not be shown");
}

#[test]
fn a_late_acknowledgment_retires_a_retained_transcript() {
    let mut companion = drafted("open the tasks widget");
    companion.apply(Event::Enter { text: None });
    companion.apply(uncertain("pill-1", "no confirmation"));
    assert_eq!(companion.presentation().state, "uncertain");
    // The service confirms after the companion gave up waiting. The
    // transcript is retired; the pill settles back to resting on screen.
    assert_eq!(
        companion.apply(Event::Acknowledged("pill-1".into())),
        vec![Action::ClearPending]
    );
    assert_eq!(companion.posture(), Posture::Passive);
    assert!(!companion.holds_unsent_transcript());
}

#[test]
fn a_startup_storage_failure_is_visible_rather_than_silent() {
    let mut companion = Companion::new("pill");
    companion.set_connected(true);
    companion.report_store_failure("the saved transcript is unreadable".into());
    assert!(companion.on_screen());
    let presentation = companion.presentation();
    assert_eq!(presentation.state, "error");
    assert_eq!(presentation.detail, "the saved transcript is unreadable");
    assert_eq!(companion.tray_state(), "error");
}

#[test]
fn a_transcript_keeps_one_identifier_across_edits_and_retries() {
    let mut companion = drafted("first draft");
    companion.apply(Event::Enter {
        text: Some("second draft".into()),
    });
    // A refused send never reached the service, so a further edit is safe.
    companion.apply(refused("pill-1", "offline"));
    assert_eq!(
        companion.apply(Event::Enter {
            text: Some("third draft".into())
        }),
        vec![
            persist("pill-1", "third draft"),
            submit("pill-1", "third draft"),
        ]
    );
    companion.apply(Event::Acknowledged("pill-1".into()));

    // Only a genuinely new recording takes a new identifier.
    companion.apply(Event::Activate);
    companion.apply(Event::Activate);
    assert_eq!(
        companion.apply(Event::Transcribed("a new request".into())),
        vec![persist("pill-2", "a new request")]
    );
}

#[test]
fn activation_never_discards_an_unsent_transcript() {
    let mut companion = drafted("keep me");
    companion.apply(Event::Enter { text: None });
    companion.apply(refused("pill-1", "offline"));
    assert_eq!(companion.apply(Event::Activate), Vec::new());
    assert!(companion.holds_unsent_transcript());
}

#[test]
fn a_restored_transcript_reopens_the_textbox_and_keeps_its_identifier() {
    let mut companion = Companion::new("later");
    companion.set_connected(true);
    companion.restore(Pending {
        id: "pill-7".into(),
        text: "survived the crash".into(),
    });
    assert_eq!(companion.posture(), Posture::Editing);
    let presentation = companion.presentation();
    assert_eq!(presentation.state, "uncertain");
    assert_eq!(presentation.text, "survived the crash");
    assert!(presentation.detail.starts_with(RESTORED_REASON));
    // The previous process may have delivered it, so it cannot be edited,
    // and nothing sends it again until the person says to.
    assert!(!presentation.editable);
    assert_eq!(companion.apply(Event::Enter { text: None }), Vec::new());
    assert_eq!(
        companion.apply(Event::Enter { text: None }),
        vec![
            persist("pill-7", "survived the crash"),
            submit("pill-7", "survived the crash"),
        ]
    );
    // A new recording in this process cannot reuse the recovered identifier.
    companion.apply(Event::Acknowledged("pill-7".into()));
    companion.apply(Event::Activate);
    companion.apply(Event::Activate);
    assert_eq!(
        companion.apply(Event::Transcribed("fresh".into())),
        vec![persist("later-1", "fresh")]
    );
}

#[test]
fn restoring_never_overwrites_live_pill_state() {
    let mut companion = opened();
    companion.restore(Pending {
        id: "pill-7".into(),
        text: "stale".into(),
    });
    assert_eq!(companion.presentation().state, "listening");
}

#[test]
fn a_stale_acknowledgment_does_not_close_a_newer_submission() {
    let mut companion = drafted("first");
    companion.apply(Event::Enter { text: None });
    companion.apply(Event::Acknowledged("pill-1".into()));
    companion.apply(Event::Activate);
    companion.apply(Event::Activate);
    companion.apply(Event::Transcribed("second".into()));
    companion.apply(Event::Enter { text: None });
    assert!(companion.awaiting("pill-2"));
    assert!(!companion.awaiting("pill-1"));
    assert_eq!(
        companion.apply(Event::Acknowledged("pill-1".into())),
        Vec::new()
    );
    assert!(companion.holds_unsent_transcript());
    assert_eq!(
        companion.apply(Event::Acknowledged("pill-2".into())),
        vec![Action::ClearPending]
    );
}

#[test]
fn tray_state_distinguishes_recording_work_attention_and_backend_failure() {
    let mut companion = Companion::new("pill");
    assert_eq!(companion.tray_state(), "disconnected");
    companion.set_connected(true);
    assert_eq!(companion.tray_state(), "idle");
    companion.set_assistant(Assistant::Working, String::new());
    assert_eq!(companion.tray_state(), "working");
    companion.set_assistant(Assistant::Detached, "a terminal has the session".into());
    assert_eq!(companion.tray_state(), "detached");
    companion.set_assistant(Assistant::Speaking, String::new());
    assert_eq!(companion.tray_state(), "speaking");
    companion.apply(Event::Activate);
    assert_eq!(companion.tray_state(), "listening");
    companion.apply(Event::Activate);
    assert_eq!(companion.tray_state(), "transcribing");
    companion.apply(Event::Escape);
    companion.set_connected(false);
    assert_eq!(companion.tray_state(), "disconnected");
    assert_eq!(
        companion.presentation().detail,
        "The Scufris service is unavailable."
    );
}

#[test]
fn ambient_notices_override_the_assistant_and_clear_independently() {
    let mut companion = Companion::new("pill");
    companion.set_connected(true);
    companion.set_assistant(Assistant::Working, "packing".into());
    companion.set_notice(
        "job-one".into(),
        NoticeState::Attention,
        "Job job-one is blocked".into(),
    );
    assert_eq!(
        companion.tray_presentation(),
        ("attention", "Job job-one is blocked".into())
    );

    companion.set_notice(
        "job-two".into(),
        NoticeState::Error,
        "Job job-two failed".into(),
    );
    assert_eq!(
        companion.tray_presentation(),
        ("error", "Job job-two failed".into())
    );
    companion.set_notice("job-two".into(), NoticeState::Clear, String::new());
    assert_eq!(companion.tray_state(), "attention");
    companion.set_notice("job-one".into(), NoticeState::Clear, String::new());
    assert_eq!(companion.tray_presentation(), ("working", "packing".into()));

    // Welcome starts a complete replay, so a notice cleared while this
    // frontend was away cannot survive by being absent from the replay.
    companion.set_notice(
        "stale".into(),
        NoticeState::Attention,
        "stale detail".into(),
    );
    companion.set_connected(false);
    companion.set_connected(true);
    assert_eq!(companion.tray_state(), "idle");
}

#[test]
fn an_empty_transcript_is_an_error_rather_than_an_empty_submission() {
    let mut companion = opened();
    companion.apply(Event::Activate);
    assert_eq!(
        companion.apply(Event::Transcribed("   ".into())),
        Vec::new()
    );
    assert_eq!(companion.presentation().state, "error");
}

#[test]
fn escape_puts_a_resting_pill_away_and_an_activation_brings_it_back() {
    let mut companion = handed_off();
    assert_eq!(companion.posture(), Posture::Passive);
    // Nothing to cancel, so nothing to do but go down. The pill holds no
    // keys, so this Escape is the accelerator arriving from outside it.
    assert_eq!(companion.apply(Event::Escape), Vec::new());
    assert_eq!(companion.posture(), Posture::Off);
    assert_eq!(companion.phase(), &Phase::Resting);
    companion.apply(Event::Activate);
    assert_eq!(companion.posture(), Posture::Watched);
}

#[test]
fn escape_while_a_submission_is_in_flight_hides_the_pill_and_keeps_waiting() {
    let mut companion = drafted("open the tasks widget");
    companion.apply(Event::Enter { text: None });
    let Phase::Sent { id, .. } = companion.phase().clone() else {
        panic!("the transcript was handed over: {:?}", companion.phase());
    };
    assert_eq!(companion.apply(Event::Escape), Vec::new());
    assert_eq!(companion.posture(), Posture::Off);
    // The words are still waiting on their acknowledgment, and it still
    // lands. Putting the window away is not abandoning the submission.
    assert_eq!(
        companion.apply(Event::Acknowledged(id)),
        vec![Action::ClearPending]
    );
    assert_eq!(companion.phase(), &Phase::Resting);
}

#[test]
fn escape_during_transcription_cancels_the_pending_transcript() {
    let mut companion = opened();
    companion.apply(Event::Activate);
    assert_eq!(
        companion.apply(Event::Escape),
        vec![Action::CancelTranscription]
    );
    assert!(!companion.on_screen());
}

#[test]
fn reveal_brings_a_dismissed_pill_back_without_opening_the_microphone() {
    let mut companion = handed_off();
    companion.apply(Event::Escape);
    assert_eq!(companion.posture(), Posture::Off);
    assert_eq!(companion.apply(Event::Reveal), Vec::new());
    assert_eq!(companion.posture(), Posture::Passive);
    assert_eq!(companion.phase(), &Phase::Resting);
}

#[test]
fn dismiss_puts_a_resting_pill_away_and_leaves_a_working_one_alone() {
    let mut companion = handed_off();
    assert_eq!(companion.posture(), Posture::Passive);
    assert_eq!(companion.apply(Event::Dismiss), Vec::new());
    assert_eq!(companion.posture(), Posture::Off);

    // A phase holding the person's words answers neither gesture. A tap
    // that threw away a draft would be a tap nobody dares make.
    let mut companion = drafted("open the tasks widget");
    assert_eq!(companion.apply(Event::Dismiss), Vec::new());
    assert_eq!(companion.posture(), Posture::Editing);
    assert_eq!(companion.apply(Event::Reveal), Vec::new());
    assert_eq!(companion.posture(), Posture::Editing);
}

#[test]
fn cancel_ends_the_take_and_leaves_the_pill_standing() {
    let mut companion = opened();
    assert_eq!(
        companion.apply(Event::Cancel),
        vec![Action::DiscardRecording]
    );
    assert_eq!(companion.phase(), &Phase::Resting);
    assert_eq!(
        companion.posture(),
        Posture::Passive,
        "the take is gone and the workspace it was cancelled over is not"
    );

    // And the same throw-away out of the textbox.
    let mut companion = drafted("open the tasks widget");
    assert_eq!(
        companion.apply(Event::Cancel),
        vec![Action::DiscardPending {
            id: "pill-1".into()
        }]
    );
    assert_eq!(companion.posture(), Posture::Passive);
}

#[test]
fn the_escape_ladder_ends_at_a_dismissal() {
    let mut companion = opened();
    // The host answers a real Escape with a cancel while there is a
    // workspace to go back to, and with an Escape once there is not.
    assert_eq!(
        companion.apply(Event::Cancel),
        vec![Action::DiscardRecording]
    );
    assert_eq!(companion.posture(), Posture::Passive);
    assert_eq!(companion.apply(Event::Escape), Vec::new());
    assert_eq!(companion.posture(), Posture::Off);
}
