//! What `scufris-ctl` makes of the answers it is given.

use scufris::command::{Answer, Outcome};
use scufris::ctl::{
    answered, debug_answer, exit_status, join_words, pill_answer, said, speaker, watched, welcomed,
    REFUSED,
};
use scufris::daemon::{Body, Condition, Role, Speaker, TranscriptEntry};

#[test]
fn a_state_line_carries_its_detail_only_when_there_is_one() {
    assert_eq!(said("idle", ""), "idle");
    assert_eq!(said("error", "the agent stopped"), "error: the agent stopped");
}

#[test]
fn a_control_answer_is_a_line_nothing_or_a_refusal() {
    assert_eq!(answered(&Body::Done { id: "ctl".into() }), Ok(None));
    assert_eq!(
        answered(&Body::State {
            id: Some("ctl".into()),
            state: Condition::Working,
            detail: "packing".into(),
        }),
        Ok(Some("working: packing".to_string()))
    );
    assert_eq!(
        answered(&Body::Refused {
            id: "ctl".into(),
            code: "detached".into(),
            detail: "a terminal has the session".into(),
        }),
        Err("a terminal has the session (detached)".to_string())
    );
    assert_eq!(
        answered(&Body::Refused {
            id: "ctl".into(),
            code: "agent_unavailable".into(),
            detail: String::new(),
        }),
        Err("agent_unavailable".to_string())
    );
    assert_eq!(
        answered(&Body::Welcome {
            role: Role::Control
        }),
        Err("the service answered with welcome".to_string())
    );
}

#[test]
fn a_watch_prints_states_lines_and_the_names_of_the_rest() {
    assert_eq!(
        watched(&Body::State {
            id: None,
            state: Condition::Idle,
            detail: String::new(),
        }),
        "idle"
    );
    assert_eq!(
        watched(&Body::Transcript {
            entry: TranscriptEntry {
                speaker: Speaker::Assistant,
                text: "hi".into(),
            },
        }),
        "scufris: hi"
    );
    assert_eq!(watched(&Body::Done { id: "x".into() }), "(ok)");
    assert_eq!(speaker(Speaker::User), "user");
}

#[test]
fn a_debug_answer_hands_over_the_command_line_or_says_why_not() {
    let handed = debug_answer(Body::Debug {
        id: "ctl".into(),
        program: "/bin/scufris".into(),
        args: vec!["--session-dir".into(), "/srv/sessions".into(), "--continue".into()],
    });
    assert_eq!(
        handed,
        Ok((
            "/bin/scufris".to_string(),
            vec![
                "--session-dir".to_string(),
                "/srv/sessions".to_string(),
                "--continue".to_string()
            ]
        ))
    );
    assert_eq!(
        debug_answer(Body::Refused {
            id: "ctl".into(),
            code: "debug_held".into(),
            detail: "a terminal already has the session".into(),
        }),
        Err("a terminal already has the session (debug_held)".to_string())
    );
}

#[test]
fn the_companions_answer_is_taken_refused_or_another_version() {
    assert_eq!(pill_answer(Answer::new(Outcome::Taken)), Ok(()));
    assert_eq!(
        pill_answer(Answer::new(Outcome::Refused {
            detail: "the pill is not up".into()
        })),
        Err("the pill is not up".to_string())
    );
    assert_eq!(
        pill_answer(Answer {
            v: 2,
            outcome: Outcome::Taken
        }),
        Err("the companion speaks command version 2, this speaks 1".to_string())
    );
}

#[test]
fn debug_exits_with_the_agents_own_status() {
    assert_eq!(exit_status(Some(0)), 0);
    assert_eq!(exit_status(Some(130)), 130);
    assert_eq!(exit_status(Some(300)), REFUSED);
    assert_eq!(exit_status(Some(-1)), REFUSED);
    assert_eq!(exit_status(None), REFUSED);
}

#[test]
fn several_words_are_said_as_one_line() {
    assert_eq!(
        join_words(&vec!["open".into(), "the".into(), "tasks".into()]),
        "open the tasks"
    );
    assert_eq!(join_words(&vec![]), "");
}

#[test]
fn a_hello_is_answered_with_a_welcome_in_the_role_asked_for() {
    assert_eq!(
        welcomed(Role::Control, &Body::Welcome { role: Role::Control }),
        Ok(())
    );
    assert_eq!(
        welcomed(Role::Control, &Body::Welcome { role: Role::Frontend }),
        Err("the service answered hello with welcome".to_string())
    );
    assert_eq!(
        welcomed(Role::Frontend, &Body::Done { id: "x".into() }),
        Err("the service answered hello with ok".to_string())
    );
}
