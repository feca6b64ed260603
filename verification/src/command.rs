//! The companion's own command socket, and the verb the desktop sends it.
//!
//! Two verbs bring windows up and two put them away; everything that carries
//! words goes to the service socket instead.
use vstd::prelude::*;

use vstd::string::StringExecFns;

use crate::text::{decimal, push_decimal, same};

verus! {

/// Wire version of the command protocol.
pub const COMMAND_VERSION: u32 = 1;

/// Socket name below the socket directory.
pub const COMMAND_FILE_NAME: &'static str = "desktop.sock";

/// One versioned verb sent to the companion.
#[derive(Debug, Clone, PartialEq, Eq)]
pub struct Command {
    /// Wire version used to encode the verb.
    pub v: u32,
    /// The verb itself.
    pub verb: Verb,
}

impl Command {
    /// Creates a command carrying the current version.
    pub fn new(verb: Verb) -> (r: Self)
        ensures
            r.v == COMMAND_VERSION,
            r.verb == verb,
    {
        Command { v: COMMAND_VERSION, verb }
    }
}

/// What the desktop can ask the companion to do.
#[derive(Debug, Clone, Copy, PartialEq, Eq, Structural)]
pub enum Verb {
    /// Bring the pill up and start recording. The activation hotkey.
    Open,
    /// Show the conversation, or put it away if it is already showing.
    Hud,
    /// Bring the workspace up: the pill, and the panels beside it.
    Show,
    /// Put the workspace away, leaving whatever is on it mounted.
    Hide,
}

/// The word that names a verb.
pub open spec fn verb_name(verb: Verb) -> Seq<char> {
    match verb {
        Verb::Open => "open"@,
        Verb::Hud => "hud"@,
        Verb::Show => "show"@,
        Verb::Hide => "hide"@,
    }
}

/// The verb a word names, if any does.
pub open spec fn verb_named(word: Seq<char>) -> Option<Verb> {
    if word == "open"@ {
        Some(Verb::Open)
    } else if word == "hud"@ {
        Some(Verb::Hud)
    } else if word == "show"@ {
        Some(Verb::Show)
    } else if word == "hide"@ {
        Some(Verb::Hide)
    } else {
        None
    }
}

impl Verb {
    /// Returns the verb one word names, or nothing if no verb does.
    pub fn named(word: &str) -> (r: Option<Self>)
        ensures
            r == verb_named(word@),
    {
        if same(word, "open") {
            Some(Verb::Open)
        } else if same(word, "hud") {
            Some(Verb::Hud)
        } else if same(word, "show") {
            Some(Verb::Show)
        } else if same(word, "hide") {
            Some(Verb::Hide)
        } else {
            None
        }
    }

    /// Returns the word that names this verb.
    pub fn name(self) -> (r: &'static str)
        ensures
            r@ == verb_name(self),
    {
        match self {
            Verb::Open => "open",
            Verb::Hud => "hud",
            Verb::Show => "show",
            Verb::Hide => "hide",
        }
    }
}

/// Every verb is read back from the word that names it.
pub proof fn law_a_verb_is_named_by_its_name(verb: Verb)
    ensures
        verb_named(verb_name(verb)) == Some(verb),
{
    reveal_strlit("open");
    reveal_strlit("hud");
    reveal_strlit("show");
    reveal_strlit("hide");
    assert("open"@[0] == 'o' && "hud"@[0] == 'h' && "show"@[0] == 's' && "hide"@[0] == 'h');
    assert("hud"@.len() == 3 && "hide"@.len() == 4);
}

/// One versioned answer from the companion.
#[derive(Debug, Clone, PartialEq, Eq)]
pub struct Answer {
    /// Wire version used to encode the answer.
    pub v: u32,
    /// What happened.
    pub outcome: Outcome,
}

impl Answer {
    /// Creates an answer carrying the current version.
    pub fn new(outcome: Outcome) -> (r: Self)
        ensures
            r.v == COMMAND_VERSION,
            r.outcome == outcome,
    {
        Answer { v: COMMAND_VERSION, outcome }
    }
}

/// What became of one verb.
#[derive(Debug, Clone, PartialEq, Eq)]
pub enum Outcome {
    /// The verb reached the companion.
    Taken,
    /// The verb did not reach the companion, and why.
    Refused {
        /// What went wrong, for the person reading their terminal.
        detail: String,
    },
}

/// What the companion makes of one command: its verb, unless it was encoded
/// in a version this companion does not speak.
pub open spec fn verb_of(command: Command) -> Result<Verb, Seq<char>> {
    if command.v != COMMAND_VERSION {
        Err("this companion speaks command version "@ + decimal(COMMAND_VERSION as nat) + ", not "@ + decimal(
            command.v as nat,
        ))
    } else {
        Ok(command.verb)
    }
}

/// Takes the verb out of one command, or says why it is not one this
/// companion answers.
pub fn read_verb(command: &Command) -> (r: Result<Verb, String>)
    ensures
        match r {
            Ok(verb) => verb_of(*command) == Ok::<Verb, Seq<char>>(verb),
            Err(why) => verb_of(*command) == Err::<Verb, Seq<char>>(why@),
        },
{
    if command.v != COMMAND_VERSION {
        let mut why = "this companion speaks command version ".to_owned();
        push_decimal(&mut why, COMMAND_VERSION as u64);
        why.append(", not ");
        push_decimal(&mut why, command.v as u64);
        return Err(why);
    }
    Ok(command.verb)
}

/// What carries out a verb that reached the pill. An actor keeps the record
/// of the verbs it was given.
pub trait Acting {
    /// Every verb carried out so far, oldest first.
    spec fn acted(&self) -> Seq<Verb>;

    /// What carrying out one verb answers.
    spec fn outcome_of(&self, verb: Verb) -> Outcome;

    /// Carries out one verb.
    fn act(&mut self, verb: Verb) -> (r: Outcome)
        ensures
            r == old(self).outcome_of(verb),
            final(self).acted() == old(self).acted().push(verb),
    ;
}

/// Answers one connection to the command socket: a line that was read as a
/// verb is carried out, once, and answered with what that answered; a line
/// that was not one is refused with the reason and never reaches the pill.
pub fn answer<A: Acting>(read: Result<Verb, String>, actor: &mut A) -> (r: Answer)
    ensures
        r.v == COMMAND_VERSION,
        match read {
            Ok(verb) => r.outcome == old(actor).outcome_of(verb) && final(actor).acted() == old(
                actor,
            ).acted().push(verb),
            Err(detail) => r.outcome == (Outcome::Refused { detail }) && final(actor).acted() == old(
                actor,
            ).acted(),
        },
{
    let outcome = match read {
        Ok(verb) => actor.act(verb),
        Err(detail) => Outcome::Refused { detail },
    };
    Answer::new(outcome)
}

} // verus!
