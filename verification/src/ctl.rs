//! What `scufris-ctl` makes of the answers it is given.
//!
//! One verb per run, and the exit status is what a binding can branch on
//! without parsing anything: 0 it worked, 1 it did not, 2 the run was wrong.
//! `debug` exits with whatever the agent exited with.
use vstd::prelude::*;
use vstd::string::StringExecFns;

use crate::command::{Answer, Outcome, COMMAND_VERSION};
use crate::daemon::{body_name, Body, BodyView, Speaker, TranscriptEntry};
use crate::text::{decimal, push_decimal};

verus! {

/// Exit status of a run that did not work.
pub const REFUSED: u8 = 1;

/// Exit status of a run that was wrong.
pub const MISUSED: u8 = 2;

/// How long to wait for the service to answer one request, in seconds.
pub const ANSWER_SECONDS: u64 = 30;

/// The identifier this run correlates its one request by.
pub const REQUEST: &'static str = "ctl";

/// One state line: the name, and the detail after a colon when there is one.
pub open spec fn said_line(state: Seq<char>, detail: Seq<char>) -> Seq<char> {
    if detail.len() == 0 {
        state
    } else {
        state + ": "@ + detail
    }
}

/// Returns one state line.
pub fn said(state: &str, detail: &str) -> (r: String)
    ensures
        r@ == said_line(state@, detail@),
{
    let mut out = state.to_owned();
    if !detail.is_empty() {
        out.append(": ");
        out.append(detail);
    }
    out
}

/// The word one speaker is printed as.
pub open spec fn speaker_word(speaker: Speaker) -> Seq<char> {
    match speaker {
        Speaker::User => "user"@,
        Speaker::Assistant => "scufris"@,
    }
}

/// Returns the word one speaker is printed as.
pub fn speaker(who: Speaker) -> (r: &'static str)
    ensures
        r@ == speaker_word(who),
{
    match who {
        Speaker::User => "user",
        Speaker::Assistant => "scufris",
    }
}

/// Why a refusal was refused, as the terminal reads it: the detail and the
/// code in brackets, or the code alone.
pub open spec fn refusal_line(code: Seq<char>, detail: Seq<char>) -> Seq<char> {
    if detail.len() == 0 {
        code
    } else {
        detail + " ("@ + code + ")"@
    }
}

/// What one answer to a control request reports: nothing to print for a
/// command carried out, the state line for a state, the refusal for a
/// refusal, and anything else as the service and this build disagreeing.
pub open spec fn answer_report(b: BodyView) -> Result<Option<Seq<char>>, Seq<char>> {
    match b {
        BodyView::Done { .. } => Ok(None),
        BodyView::State { state, detail, .. } => Ok(Some(said_line(crate::daemon::condition_name(state), detail))),
        BodyView::Refused { code, detail, .. } => Err(refusal_line(code, detail)),
        _ => Err("the service answered with "@ + body_name(b)),
    }
}

/// Returns what one answer to a control request reports.
pub fn answered(body: &Body) -> (r: Result<Option<String>, String>)
    ensures
        match r {
            Ok(Some(line)) => answer_report(body@) == Ok::<Option<Seq<char>>, Seq<char>>(Some(line@)),
            Ok(None) => answer_report(body@) == Ok::<Option<Seq<char>>, Seq<char>>(None),
            Err(why) => answer_report(body@) == Err::<Option<Seq<char>>, Seq<char>>(why@),
        },
{
    match body {
        Body::Done { .. } => Ok(None),
        Body::State { state, detail, .. } => Ok(Some(said(state.name(), detail.as_str()))),
        Body::Refused { code, detail, .. } => {
            if detail.as_str().is_empty() {
                Err(code.clone())
            } else {
                let mut out = detail.clone();
                out.append(" (");
                out.append(code.as_str());
                out.append(")");
                Err(out)
            }
        },
        _ => {
            let mut out = "the service answered with ".to_owned();
            out.append(body.name());
            Err(out)
        },
    }
}

/// One line of a watch: a state line, a line of the conversation after its
/// speaker, and any other message by its name in brackets.
pub open spec fn watch_line(b: BodyView) -> Seq<char> {
    match b {
        BodyView::State { state, detail, .. } => said_line(crate::daemon::condition_name(state), detail),
        BodyView::Transcript { entry } => speaker_word(entry.speaker) + ": "@ + entry.text,
        _ => "("@ + body_name(b) + ")"@,
    }
}

/// Returns one line of a watch.
pub fn watched(body: &Body) -> (r: String)
    ensures
        r@ == watch_line(body@),
{
    match body {
        Body::State { state, detail, .. } => said(state.name(), detail.as_str()),
        Body::Transcript { entry } => {
            let mut out = speaker(entry.speaker).to_owned();
            out.append(": ");
            out.append(entry.text.as_str());
            out
        },
        _ => {
            let mut out = "(".to_owned();
            out.append(body.name());
            out.append(")");
            out
        },
    }
}

/// What the answer to a debug request hands over: the program and the
/// command line that resume the session, or why there are none.
pub open spec fn debug_report(b: BodyView) -> Result<(Seq<char>, Seq<Seq<char>>), Seq<char>> {
    match b {
        BodyView::Debug { program, args, .. } => Ok((program, args)),
        BodyView::Refused { code, detail, .. } => Err(detail + " ("@ + code + ")"@),
        _ => Err("the service answered with "@ + body_name(b)),
    }
}

/// Returns what the answer to a debug request hands over.
pub fn debug_answer(body: Body) -> (r: Result<(String, Vec<String>), String>)
    ensures
        match r {
            Ok((program, args)) => debug_report(body@) == Ok::<(Seq<char>, Seq<Seq<char>>), Seq<char>>(
                (program@, crate::daemon::texts(args@)),
            ),
            Err(why) => debug_report(body@) == Err::<(Seq<char>, Seq<Seq<char>>), Seq<char>>(why@),
        },
{
    let name = body.name();
    match body {
        Body::Debug { program, args, .. } => Ok((program, args)),
        Body::Refused { code, detail, .. } => {
            let mut out = detail;
            out.append(" (");
            out.append(code.as_str());
            out.append(")");
            Err(out)
        },
        _ => {
            let mut out = "the service answered with ".to_owned();
            out.append(name);
            Err(out)
        },
    }
}

/// What the companion's answer to one verb reports: nothing for a verb taken,
/// the detail for one refused, and a version this build does not speak as
/// the two builds disagreeing.
pub open spec fn pill_report(answer: Answer) -> Result<(), Seq<char>> {
    if answer.v != COMMAND_VERSION {
        Err("the companion speaks command version "@ + decimal(answer.v as nat) + ", this speaks "@ + decimal(
            COMMAND_VERSION as nat,
        ))
    } else {
        match answer.outcome {
            Outcome::Taken => Ok(()),
            Outcome::Refused { detail } => Err(detail@),
        }
    }
}

/// Returns what the companion's answer to one verb reports.
pub fn pill_answer(answer: Answer) -> (r: Result<(), String>)
    ensures
        match r {
            Ok(()) => pill_report(answer) == Ok::<(), Seq<char>>(()),
            Err(why) => pill_report(answer) == Err::<(), Seq<char>>(why@),
        },
{
    if answer.v != COMMAND_VERSION {
        let mut out = "the companion speaks command version ".to_owned();
        push_decimal(&mut out, answer.v as u64);
        out.append(", this speaks ");
        push_decimal(&mut out, COMMAND_VERSION as u64);
        return Err(out);
    }
    match answer.outcome {
        Outcome::Taken => Ok(()),
        Outcome::Refused { detail } => Err(detail),
    }
}

/// The exit status `debug` leaves with: the agent's own, when it exited with
/// one that fits, and otherwise the refusal.
pub open spec fn exit_of(code: Option<i32>) -> u8 {
    match code {
        Some(c) => if 0 <= c <= 255 {
            c as u8
        } else {
            REFUSED
        },
        None => REFUSED,
    }
}

/// Returns the exit status `debug` leaves with, from the agent's exit code
/// when it had one.
pub fn exit_status(code: Option<i32>) -> (r: u8)
    ensures
        r == exit_of(code),
{
    match code {
        Some(c) => if 0 <= c && c <= 255 {
            c as u8
        } else {
            REFUSED
        },
        None => REFUSED,
    }
}

/// Several words said as one line: joined by single spaces.
pub open spec fn joined_words(words: Seq<Seq<char>>) -> Seq<char>
    decreases words.len(),
{
    if words.len() == 0 {
        Seq::empty()
    } else if words.len() == 1 {
        words[0]
    } else {
        joined_words(words.drop_last()) + " "@ + words.last()
    }
}

/// Returns several words as one line, joined by single spaces.
pub fn join_words(words: &Vec<String>) -> (r: String)
    ensures
        r@ == joined_words(crate::daemon::texts(words@)),
{
    let mut out = String::new();
    let mut i: usize = 0;
    while i < words.len()
        invariant
            i <= words@.len(),
            out@ == joined_words(crate::daemon::texts(words@.subrange(0, i as int))),
        decreases words@.len() - i,
    {
        proof {
            let upto = crate::daemon::texts(words@.subrange(0, i + 1));
            assert(upto.drop_last() =~= crate::daemon::texts(words@.subrange(0, i as int)));
            assert(upto.last() == words@[i as int]@);
        }
        if i > 0 {
            out.append(" ");
        }
        out.append(words[i].as_str());
        i = i + 1;
    }
    proof {
        assert(words@.subrange(0, words@.len() as int) =~= words@);
    }
    out
}

/// What the answer to a hello makes of the connection: welcomed in the role
/// it asked for, or refused by name.
pub open spec fn welcome_report(role: crate::daemon::Role, b: BodyView) -> Result<(), Seq<char>> {
    match b {
        BodyView::Welcome { role: given } => if given == role {
            Ok(())
        } else {
            Err("the service answered hello with "@ + body_name(b))
        },
        _ => Err("the service answered hello with "@ + body_name(b)),
    }
}

/// Returns what the answer to a hello makes of the connection.
pub fn welcomed(role: crate::daemon::Role, body: &Body) -> (r: Result<(), String>)
    ensures
        match r {
            Ok(()) => welcome_report(role, body@) == Ok::<(), Seq<char>>(()),
            Err(why) => welcome_report(role, body@) == Err::<(), Seq<char>>(why@),
        },
{
    match body {
        Body::Welcome { role: given } => {
            if *given == role {
                return Ok(());
            }
        },
        _ => {},
    }
    let mut out = "the service answered hello with ".to_owned();
    out.append(body.name());
    Err(out)
}

} // verus!
