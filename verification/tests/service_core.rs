//! The service's own decisions: one agent, one state, one transcript, many
//! clients, and the debug lease.

use std::collections::HashMap;

use scufris::daemon::{
    event_line, first_hello, is_dialog, message_line, AgentEvent, Body, ClientBody, Condition, Effect, EventLine, Request,
    Role, Service, Speaker, TranscriptEntry, AGENT_REFUSED, BOOT, DEBUG_HELD, DETACHED,
    MAX_EVENT_BYTES, TRANSCRIPT_ENTRIES, WRONG_ROLE,
};
use scufris::state::Assistant;
use scufris::refusal::AGENT_UNAVAILABLE;

/// The loop around the service, as small as a test needs: bounded outboxes,
/// an agent that starts or does not, and a record of what reached it.
struct Harness {
    service: Service,
    outboxes: HashMap<u64, (usize, Vec<Body>)>,
    agent_starts: bool,
    forwarded: Vec<(String, Request)>,
    stops: usize,
}

impl Harness {
    fn new() -> Self {
        Self {
            service: Service::new("/nonexistent/scufris".into(), "/srv/sessions".into()),
            outboxes: HashMap::new(),
            agent_starts: false,
            forwarded: Vec::new(),
            stops: 0,
        }
    }

    fn run(&mut self, effects: Vec<Effect>) {
        for effect in effects {
            match effect {
                Effect::Send { client, body } => {
                    let full = match self.outboxes.get_mut(&client) {
                        Some((depth, held)) if held.len() < *depth => {
                            held.push(body);
                            false
                        }
                        Some(_) => true,
                        None => false,
                    };
                    if full {
                        self.outboxes.remove(&client);
                        self.service.dropped(client);
                    }
                }
                Effect::Disconnect { client } => {
                    self.outboxes.remove(&client);
                }
                Effect::Start => {
                    let more = if self.agent_starts {
                        self.service.started()
                    } else {
                        self.service.failed_to_start("No such file or directory (os error 2)")
                    };
                    self.run(more);
                }
                Effect::Stop => self.stops += 1,
                Effect::Forward {
                    correlation,
                    request,
                } => self.forwarded.push((correlation, request)),
                Effect::CancelDialog { .. } | Effect::Retry => {}
            }
        }
    }

    fn connect_with(&mut self, client: u64, role: Role, depth: usize) {
        self.outboxes.insert(client, (depth, Vec::new()));
        let effects = self.service.register(client, role);
        self.run(effects);
    }

    fn connect(&mut self, client: u64, role: Role) {
        self.connect_with(client, role, 256);
        assert_eq!(
            self.outboxes[&client].1.first(),
            Some(&Body::Welcome { role }),
            "it is welcomed"
        );
        self.outboxes.get_mut(&client).unwrap().1.remove(0);
    }

    fn drain(&mut self, client: u64) -> Vec<Body> {
        match self.outboxes.get_mut(&client) {
            Some((_, held)) => std::mem::take(held),
            None => Vec::new(),
        }
    }

    fn apply(&mut self, event: AgentEvent) {
        let effects = self.service.apply(event);
        self.run(effects);
    }

    fn submit(&mut self, client: u64, id: &str, text: &str) {
        let effects = self.service.submit(client, id.into(), text.into());
        self.run(effects);
    }

    fn begin_debug(&mut self, client: u64, id: &str) {
        let effects = self.service.begin_debug(client, id.into());
        self.run(effects);
    }

    fn unregister(&mut self, client: u64) {
        self.outboxes.remove(&client);
        let effects = self.service.unregister(client);
        self.run(effects);
    }

    fn start(&mut self) {
        let effects = self.service.start_agent();
        self.run(effects);
    }
}

fn said(speaker: Speaker, text: &str) -> AgentEvent {
    AgentEvent::MessageEnd {
        entry: Some(TranscriptEntry {
            speaker,
            text: text.into(),
        }),
    }
}

fn response(id: &str, success: bool, error: Option<&str>) -> AgentEvent {
    AgentEvent::Response {
        id: Some(id.into()),
        success,
        error: error.map(String::from),
        session_file: None,
        streaming: false,
    }
}

#[test]
fn a_frontend_is_given_the_state_and_the_conversation_when_it_connects() {
    let mut harness = Harness::new();
    harness.apply(said(Speaker::User, "hello"));
    harness.apply(said(Speaker::Assistant, "hi"));
    harness.connect(1, Role::Frontend);
    assert_eq!(
        harness.drain(1),
        [
            Body::State {
                id: None,
                state: Condition::Starting,
                detail: String::new(),
            },
            Body::Transcript {
                entry: TranscriptEntry {
                    speaker: Speaker::User,
                    text: "hello".into(),
                },
            },
            Body::Transcript {
                entry: TranscriptEntry {
                    speaker: Speaker::Assistant,
                    text: "hi".into(),
                },
            },
        ]
    );
    // A control client is not a surface, and is never handed a backlog.
    harness.connect(2, Role::Control);
    assert!(harness.drain(2).is_empty());
}

#[test]
fn state_changes_reach_frontends_and_repeats_do_not() {
    let mut harness = Harness::new();
    harness.connect(1, Role::Frontend);
    harness.drain(1);
    harness.apply(AgentEvent::AgentStart);
    harness.apply(AgentEvent::AgentStart);
    harness.apply(AgentEvent::AgentSettled);
    assert_eq!(
        harness.drain(1),
        [
            Body::State {
                id: None,
                state: Condition::Working,
                detail: String::new(),
            },
            Body::State {
                id: None,
                state: Condition::Idle,
                detail: String::new(),
            },
        ]
    );
}

#[test]
fn the_first_answer_names_the_session_and_settles_the_state() {
    let mut harness = Harness::new();
    harness.apply(AgentEvent::Response {
        id: Some(BOOT.into()),
        success: true,
        error: None,
        session_file: Some("/srv/sessions/one.jsonl".into()),
        streaming: true,
    });
    assert_eq!(harness.service.state(), Condition::Working);
    assert_eq!(
        harness.service.session_file(),
        Some("/srv/sessions/one.jsonl")
    );
}

#[test]
fn a_transcript_ring_holds_a_screenful_and_forgets_the_rest() {
    let mut harness = Harness::new();
    for index in 0..TRANSCRIPT_ENTRIES + 10 {
        harness.apply(said(Speaker::User, &format!("line {index}")));
    }
    let held = harness.service.transcript();
    assert_eq!(held.len(), TRANSCRIPT_ENTRIES);
    assert_eq!(held.first().expect("it has a front").text, "line 10");
    assert_eq!(
        held.last().expect("it has a back").text,
        format!("line {}", TRANSCRIPT_ENTRIES + 9)
    );
}

#[test]
fn a_second_frontend_takes_the_first_one_s_place() {
    let mut harness = Harness::new();
    harness.connect(1, Role::Frontend);
    harness.connect(2, Role::Frontend);
    harness.drain(1);
    harness.drain(2);
    harness.apply(AgentEvent::AgentStart);
    assert!(
        harness.drain(1).is_empty(),
        "the displaced frontend is no longer written to"
    );
    assert_eq!(harness.drain(2).len(), 1);
    assert!(!harness.service.connected(1));
}

#[test]
fn with_no_agent_a_submission_is_refused_rather_than_swallowed() {
    let mut harness = Harness::new();
    harness.connect(1, Role::Control);
    harness.submit(1, "c-1", "hello");
    assert_eq!(
        harness.drain(1),
        [Body::Refused {
            id: "c-1".into(),
            code: AGENT_UNAVAILABLE.into(),
            detail: "the agent is not running".into(),
        }]
    );
}

#[test]
fn the_client_that_asked_is_the_client_that_is_answered() {
    let mut harness = Harness::new();
    harness.agent_starts = true;
    harness.start();
    harness.connect(1, Role::Control);
    harness.connect(2, Role::Control);
    // Two clients waiting at once, under the same identifier of their own.
    harness.submit(1, "mine", "one");
    harness.submit(2, "mine", "two");
    assert_eq!(
        harness.forwarded,
        [
            (BOOT.to_string(), Request::GetState),
            (
                "c-1".to_string(),
                Request::Prompt {
                    message: "one".into(),
                    steer: false
                }
            ),
            (
                "c-2".to_string(),
                Request::Prompt {
                    message: "two".into(),
                    steer: false
                }
            ),
        ]
    );
    harness.apply(response("c-2", false, Some("no")));
    assert!(harness.drain(1).is_empty());
    assert_eq!(
        harness.drain(2),
        [Body::Refused {
            id: "mine".into(),
            code: AGENT_REFUSED.into(),
            detail: "no".into(),
        }]
    );
    harness.apply(response("c-1", true, None));
    assert_eq!(harness.drain(1), [Body::Done { id: "mine".into() }]);
    // An answer nobody waits for any more goes nowhere.
    harness.apply(response("c-1", true, None));
    assert!(harness.drain(1).is_empty());
}

#[test]
fn a_submission_during_a_run_is_a_steer() {
    let mut harness = Harness::new();
    harness.agent_starts = true;
    harness.start();
    harness.connect(1, Role::Control);
    harness.apply(AgentEvent::AgentStart);
    harness.submit(1, "c-1", "faster");
    assert_eq!(
        harness.forwarded.last(),
        Some(&(
            "c-1".to_string(),
            Request::Prompt {
                message: "faster".into(),
                steer: true
            }
        ))
    );
}

#[test]
fn a_debug_lease_detaches_and_is_held_by_the_connection_that_asked() {
    let mut harness = Harness::new();
    harness.connect(1, Role::Frontend);
    harness.connect(2, Role::Control);
    harness.drain(1);
    harness.begin_debug(2, "c-1");

    assert_eq!(harness.service.state(), Condition::Detached);
    assert_eq!(
        harness.drain(2),
        [Body::Debug {
            id: "c-1".into(),
            program: "/nonexistent/scufris".into(),
            args: vec![
                "--session-dir".into(),
                "/srv/sessions".into(),
                "--continue".into(),
            ],
        }]
    );
    assert_eq!(
        harness.drain(1),
        [Body::State {
            id: None,
            state: Condition::Detached,
            detail: "a terminal has the session".into(),
        }]
    );

    // While it is held, the conversation belongs to the terminal.
    harness.submit(1, "c-2", "hello");
    assert_eq!(
        harness.drain(1),
        [Body::Refused {
            id: "c-2".into(),
            code: DETACHED.into(),
            detail: "a terminal has the session".into(),
        }]
    );
    // And an agent event cannot report the conversation as running again.
    harness.apply(AgentEvent::AgentSettled);
    assert_eq!(harness.service.state(), Condition::Detached);
}

#[test]
fn a_second_debug_is_refused_while_a_lease_is_held() {
    let mut harness = Harness::new();
    harness.connect(1, Role::Control);
    harness.connect(2, Role::Control);
    harness.begin_debug(1, "c-1");
    harness.drain(1);
    harness.begin_debug(2, "c-2");
    assert_eq!(
        harness.drain(2),
        [Body::Refused {
            id: "c-2".into(),
            code: DEBUG_HELD.into(),
            detail: "a terminal already has the session".into(),
        }]
    );
}

#[test]
fn a_frontend_may_not_take_the_session_away_from_itself() {
    let mut harness = Harness::new();
    harness.connect(1, Role::Frontend);
    harness.drain(1);
    harness.begin_debug(1, "c-1");
    assert_eq!(
        harness.drain(1),
        [Body::Refused {
            id: "c-1".into(),
            code: WRONG_ROLE.into(),
            detail: "only a control client may take the session".into(),
        }]
    );
    assert_eq!(harness.service.state(), Condition::Starting);
}

#[test]
fn losing_the_connection_releases_the_lease() {
    let mut harness = Harness::new();
    harness.connect(1, Role::Control);
    harness.begin_debug(1, "c-1");
    assert_eq!(harness.service.state(), Condition::Detached);
    harness.unregister(1);
    assert!(harness.service.lease().is_none());
    // Starting again failed here, because the configured agent does not
    // exist. What matters is that the lease is gone and the service tried.
    assert_eq!(harness.service.state(), Condition::Error);
}

#[test]
fn a_client_that_stops_reading_is_dropped_rather_than_blocking_the_service() {
    let mut harness = Harness::new();
    harness.connect_with(1, Role::Frontend, 1);
    harness.apply(AgentEvent::AgentStart);
    assert!(!harness.service.connected(1));
}

#[test]
fn the_agent_is_asked_for_its_session_and_the_state_says_it_is_starting() {
    let mut harness = Harness::new();
    harness.start();
    assert_eq!(harness.service.state(), Condition::Error);
    assert_eq!(harness.service.failures(), 1);
    assert_eq!(
        harness.service.detail(),
        "the agent would not start: No such file or directory (os error 2)"
    );
}

#[test]
fn a_started_agent_is_asked_which_session_it_is_on() {
    let mut harness = Harness::new();
    harness.agent_starts = true;
    harness.start();
    assert_eq!(harness.service.generation(), 1);
    assert_eq!(harness.forwarded, [(BOOT.to_string(), Request::GetState)]);
    // A second start while one runs does nothing.
    harness.start();
    assert_eq!(harness.service.generation(), 1);
}

#[test]
fn an_agent_that_keeps_dying_is_left_stopped() {
    let mut harness = Harness::new();
    harness.agent_starts = true;
    harness.connect(1, Role::Frontend);
    harness.drain(1);
    for round in 1..=3u32 {
        harness.start();
        let generation = harness.service.generation();
        let effects = harness.service.agent_ended(generation, 500);
        harness.run(effects);
        assert_eq!(harness.service.failures(), round);
    }
    assert_eq!(harness.service.state(), Condition::Error);
    assert_eq!(
        harness.service.detail(),
        "the agent stopped 3 times in a row"
    );
    // A run long enough to count as healthy starts the count again.
    harness.start();
    let generation = harness.service.generation();
    let effects = harness.service.agent_ended(generation, 20_000);
    assert!(effects.contains(&Effect::Retry));
    harness.run(effects);
    assert_eq!(harness.service.failures(), 1);
    assert_eq!(harness.service.state(), Condition::Starting);
    // The end of a generation that is not the current one is old news.
    assert_eq!(harness.service.agent_ended(generation - 1, 0), Vec::new());
}

#[test]
fn everyone_waiting_is_refused_when_the_service_goes_down() {
    let mut harness = Harness::new();
    harness.agent_starts = true;
    harness.start();
    harness.connect(1, Role::Control);
    harness.submit(1, "c-1", "hello");
    let effects = harness.service.shutdown();
    harness.run(effects);
    assert_eq!(harness.stops, 1);
    assert_eq!(
        harness.drain(1),
        [Body::Refused {
            id: "c-1".into(),
            code: AGENT_UNAVAILABLE.into(),
            detail: "the service is stopping".into(),
        }]
    );
    // Nothing starts an agent for a service on its way out.
    assert_eq!(harness.service.start_agent(), Vec::new());
}

#[test]
fn a_command_the_agent_would_not_take_is_refused_to_its_client() {
    let mut harness = Harness::new();
    harness.agent_starts = true;
    harness.start();
    harness.connect(1, Role::Control);
    harness.submit(1, "mine", "hello");
    let effects = harness
        .service
        .forward_failed(1, "mine".into(), "c-1", "Broken pipe (os error 32)");
    harness.run(effects);
    assert_eq!(
        harness.drain(1),
        [Body::Refused {
            id: "mine".into(),
            code: AGENT_UNAVAILABLE.into(),
            detail: "the agent would not take it: Broken pipe (os error 32)".into(),
        }]
    );
    // The wait is over: a late answer reaches nobody.
    harness.apply(response("c-1", true, None));
    assert!(harness.drain(1).is_empty());
}

#[test]
fn a_dialog_is_cancelled_only_while_an_agent_runs() {
    let mut harness = Harness::new();
    let ask = AgentEvent::ExtensionUiRequest {
        id: "d-1".into(),
        dialog: true,
    };
    assert_eq!(harness.service.apply(ask.clone()), Vec::new());
    harness.agent_starts = true;
    harness.start();
    assert_eq!(
        harness.service.apply(ask),
        vec![Effect::CancelDialog { id: "d-1".into() }]
    );
    assert_eq!(
        harness.service.apply(AgentEvent::ExtensionUiRequest {
            id: "n-1".into(),
            dialog: false,
        }),
        Vec::new()
    );
}

#[test]
fn the_state_is_reported_to_the_client_that_asked_for_it() {
    let mut harness = Harness::new();
    harness.connect(1, Role::Control);
    let effects = harness.service.report_state(1, "ctl".into());
    harness.run(effects);
    assert_eq!(
        harness.drain(1),
        [Body::State {
            id: Some("ctl".into()),
            state: Condition::Starting,
            detail: String::new(),
        }]
    );
    assert_eq!(Condition::Detached.name(), "detached");
    assert_eq!(Role::Control.name(), "control");
}

#[test]
fn a_request_is_carried_out_for_the_client_that_sent_it() {
    let mut harness = Harness::new();
    harness.connect(1, Role::Control);
    let effects = harness.service.act(1, ClientBody::GetState { id: "ctl".into() });
    harness.run(effects);
    assert_eq!(
        harness.drain(1),
        [Body::State {
            id: Some("ctl".into()),
            state: Condition::Starting,
            detail: String::new(),
        }]
    );
    // A second hello changes nothing.
    assert_eq!(
        harness.service.act(1, ClientBody::Hello { role: Role::Frontend }),
        Vec::new()
    );
    let effects = harness.service.act(1, ClientBody::Abort { id: "a-1".into() });
    harness.run(effects);
    assert_eq!(
        harness.drain(1),
        [Body::Refused {
            id: "a-1".into(),
            code: AGENT_UNAVAILABLE.into(),
            detail: "the agent is not running".into(),
        }]
    );
}

#[test]
fn a_connection_that_does_not_say_hello_first_is_closed() {
    assert_eq!(
        first_hello(&ClientBody::Hello { role: Role::Control }),
        Some(Role::Control)
    );
    assert_eq!(first_hello(&ClientBody::GetState { id: "ctl".into() }), None);
}

#[test]
fn an_agent_line_loses_its_line_ends_and_an_oversized_one_ends_the_stream() {
    assert_eq!(
        event_line(b"{\"type\":\"agent_start\"}\r\n".to_vec()),
        EventLine::Record(b"{\"type\":\"agent_start\"}".to_vec())
    );
    assert_eq!(event_line(b"\r\n".to_vec()), EventLine::Blank);
    assert_eq!(
        event_line(b"a\rb\n".to_vec()),
        EventLine::Record(b"a\rb".to_vec())
    );
    assert_eq!(
        event_line(vec![b'x'; MAX_EVENT_BYTES + 1]),
        EventLine::Oversized
    );
}

#[test]
fn the_pill_shows_what_the_service_reports() {
    assert_eq!(Assistant::from(Condition::Starting), Assistant::Starting);
    assert_eq!(Assistant::from(Condition::Idle), Assistant::Idle);
    assert_eq!(Assistant::from(Condition::Working), Assistant::Working);
    assert_eq!(Assistant::from(Condition::Detached), Assistant::Detached);
    assert_eq!(Assistant::from(Condition::Error), Assistant::Error);
}

#[test]
fn a_finished_message_is_one_line_said_by_whoever_its_role_names() {
    let parts = vec!["Hello ".to_string(), "there".to_string()];
    assert_eq!(
        message_line("assistant", &parts),
        Some(TranscriptEntry { speaker: Speaker::Assistant, text: "Hello there".to_string() })
    );
    assert_eq!(
        message_line("user", &vec!["hi".to_string()]),
        Some(TranscriptEntry { speaker: Speaker::User, text: "hi".to_string() })
    );
    assert_eq!(message_line("toolResult", &parts), None);
}

#[test]
fn only_a_dialog_holds_the_agent() {
    for method in ["select", "confirm", "input", "editor"] {
        assert!(is_dialog(method), "{method}");
    }
    assert!(!is_dialog("notify"));
    assert!(!is_dialog("setStatus"));
}
