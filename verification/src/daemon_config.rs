//! Where the service gets the three things it needs to run.
//!
//! The agent to spawn, the directory its sessions live in, and the socket to
//! bind. The first two are named by an option or by the environment behind it,
//! and the socket is fixed by the session runtime directory. Nothing is read
//! from a configuration file: a second place to say which `pi` this is would
//! be a second place for it to be wrong.
use vstd::prelude::*;
use vstd::string::StringExecFns;

use crate::config::{maybe, named};
use crate::text::{absolute_path, is_absolute, join_path, joined_path};

verus! {

/// Environment variable naming the agent program to supervise.
pub const AGENT_VARIABLE: &'static str = "SCUFRIS_SERVICE_AGENT";

/// Environment variable naming the session directory.
pub const SESSION_DIR_VARIABLE: &'static str = "SCUFRIS_SERVICE_SESSION_DIR";

/// Program name looked up on `PATH` when [`AGENT_VARIABLE`] is unset.
pub const DEFAULT_AGENT: &'static str = "scufris";

/// Session directory below the user's data directory, when nothing names one.
pub const DEFAULT_SESSION_SUBDIR: &'static str = "scufris/sessions";

/// Everything one run of the service is configured with.
#[derive(Debug, Clone, PartialEq, Eq)]
pub struct Config {
    /// Absolute path of the agent program.
    pub agent: String,
    /// Directory the agent stores and resumes its sessions in.
    pub session_dir: String,
    /// Socket the service binds; empty until the runtime directory fixes it.
    pub socket: String,
    /// Directory the agent runs in.
    pub working_dir: String,
}

/// The service could not work out what to run.
#[derive(Debug, Clone, PartialEq, Eq)]
pub enum ConfigError {
    /// Something the service cannot invent was not set.
    Missing(String),
    /// A variable, named, gave a path that was not absolute.
    Relative(&'static str, String),
    /// No agent was named and none was found.
    NoAgent,
}

/// The sentence one configuration failure reads as.
pub open spec fn config_error_message(e: ConfigError) -> Seq<char> {
    match e {
        ConfigError::Missing(why) => why@,
        ConfigError::Relative(variable, path) => variable@ + " must be an absolute path, not "@ + path@,
        ConfigError::NoAgent => "no "@ + AGENT_VARIABLE@ + " and no "@ + DEFAULT_AGENT@ + " on PATH"@,
    }
}

impl ConfigError {
    /// Returns the sentence this failure reads as.
    pub fn message(&self) -> (r: String)
        ensures
            r@ == config_error_message(*self),
    {
        match self {
            ConfigError::Missing(why) => why.clone(),
            ConfigError::Relative(variable, path) => {
                let mut out = (*variable).to_owned();
                out.append(" must be an absolute path, not ");
                out.append(path.as_str());
                out
            },
            ConfigError::NoAgent => {
                let mut out = "no ".to_owned();
                out.append(AGENT_VARIABLE);
                out.append(" and no ");
                out.append(DEFAULT_AGENT);
                out.append(" on PATH");
                out
            },
        }
    }
}

/// What a configuration resolves to, as texts.
pub struct ConfigView {
    pub agent: Seq<char>,
    pub session_dir: Seq<char>,
    pub socket: Seq<char>,
    pub working_dir: Seq<char>,
}

impl View for Config {
    type V = ConfigView;

    open spec fn view(&self) -> ConfigView {
        ConfigView {
            agent: self.agent@,
            session_dir: self.session_dir@,
            socket: self.socket@,
            working_dir: self.working_dir@,
        }
    }
}

/// Why a configuration was refused, as texts.
pub enum Refusal {
    Missing(Seq<char>),
    Relative(Seq<char>, Seq<char>),
    NoAgent,
}

/// The view of one refusal.
pub open spec fn refusal_of(e: ConfigError) -> Refusal {
    match e {
        ConfigError::Missing(why) => Refusal::Missing(why@),
        ConfigError::Relative(variable, path) => Refusal::Relative(variable@, path@),
        ConfigError::NoAgent => Refusal::NoAgent,
    }
}

/// What the service's settings resolve to: a home directory is required; a
/// named agent or session directory must be absolute; an unnamed agent is the
/// one found on `PATH`; an unnamed session directory sits below the data
/// directory when that is absolute, else below the home's `.local/share`. The
/// agent runs in the home directory.
pub open spec fn resolution(
    agent: Option<String>,
    session_dir: Option<String>,
    data_home: Option<String>,
    home: Option<String>,
    found: Option<String>,
) -> Result<ConfigView, Refusal> {
    match named(home) {
        None => Err(Refusal::Missing("HOME is required"@)),
        Some(home) => {
            let program = match named(agent) {
                Some(program) => Some(program),
                None => maybe(found),
            };
            if named(agent) is Some && !absolute_path(named(agent).unwrap()) {
                Err(Refusal::Relative(AGENT_VARIABLE@, named(agent).unwrap()))
            } else if program is None {
                Err(Refusal::NoAgent)
            } else if named(session_dir) is Some && !absolute_path(named(session_dir).unwrap()) {
                Err(Refusal::Relative(SESSION_DIR_VARIABLE@, named(session_dir).unwrap()))
            } else {
                Ok(ConfigView {
                    agent: program.unwrap(),
                    session_dir: match named(session_dir) {
                        Some(dir) => dir,
                        None => match named(data_home) {
                            Some(data) => if absolute_path(data) {
                                joined_path(data, DEFAULT_SESSION_SUBDIR@)
                            } else {
                                joined_path(joined_path(home, ".local/share"@), DEFAULT_SESSION_SUBDIR@)
                            },
                            None => joined_path(joined_path(home, ".local/share"@), DEFAULT_SESSION_SUBDIR@),
                        },
                    },
                    socket: Seq::empty(),
                    working_dir: home,
                })
            }
        },
    }
}

fn present(value: Option<String>) -> (r: Option<String>)
    ensures
        maybe(r) == named(value),
{
    match value {
        Some(v) => if v.as_str().is_empty() {
            None
        } else {
            Some(v)
        },
        None => None,
    }
}

impl Config {
    /// Resolves everything but the socket from values rather than from the
    /// process environment. `found` is the first `scufris` program on `PATH`,
    /// when one is there.
    pub fn resolve(
        agent: Option<String>,
        session_dir: Option<String>,
        data_home: Option<String>,
        home: Option<String>,
        found: Option<String>,
    ) -> (r: Result<Config, ConfigError>)
        ensures
            match r {
                Ok(c) => resolution(agent, session_dir, data_home, home, found) == Ok::<ConfigView, Refusal>(c@),
                Err(e) => resolution(agent, session_dir, data_home, home, found) == Err::<ConfigView, Refusal>(refusal_of(e)),
            },
    {
        let home = match present(home) {
            Some(home) => home,
            None => {
                proof {
                    reveal_strlit("HOME is required");
                }
                return Err(ConfigError::Missing("HOME is required".to_owned()));
            },
        };
        let program = match present(agent) {
            Some(named) => {
                if !is_absolute(named.as_str()) {
                    return Err(ConfigError::Relative(AGENT_VARIABLE, named));
                }
                named
            },
            None => match found {
                Some(program) => program,
                None => return Err(ConfigError::NoAgent),
            },
        };
        let sessions = match present(session_dir) {
            Some(named) => {
                if !is_absolute(named.as_str()) {
                    return Err(ConfigError::Relative(SESSION_DIR_VARIABLE, named));
                }
                named
            },
            None => match present(data_home) {
                Some(data) => if is_absolute(data.as_str()) {
                    join_path(data.as_str(), DEFAULT_SESSION_SUBDIR)
                } else {
                    let share = join_path(home.as_str(), ".local/share");
                    join_path(share.as_str(), DEFAULT_SESSION_SUBDIR)
                },
                None => {
                    let share = join_path(home.as_str(), ".local/share");
                    join_path(share.as_str(), DEFAULT_SESSION_SUBDIR)
                },
            },
        };
        Ok(Config { agent: program, session_dir: sessions, socket: String::new(), working_dir: home })
    }

    /// The command line that starts the agent in RPC mode on this session:
    /// `--continue` rather than a named session, because the newest session in
    /// the directory is the conversation.
    pub fn agent_args(&self) -> (r: Vec<String>)
        ensures
            r@.len() == 5,
            r@[0]@ == "--session-dir"@,
            r@[1]@ == self.session_dir@,
            r@[2]@ == "--continue"@,
            r@[3]@ == "--mode"@,
            r@[4]@ == "rpc"@,
    {
        let mut args: Vec<String> = Vec::new();
        args.push("--session-dir".to_owned());
        args.push(self.session_dir.clone());
        args.push("--continue".to_owned());
        args.push("--mode".to_owned());
        args.push("rpc".to_owned());
        args
    }

    /// The command line that resumes one session in a terminal: that exact
    /// file when the agent has said which it is on, else the directory and
    /// `--continue`, which mean the same conversation.
    pub fn debug_args(&self, session: Option<&str>) -> (r: Vec<String>)
        ensures
            r@.len() == if session is Some {
                4nat
            } else {
                3nat
            },
            r@[0]@ == "--session-dir"@,
            r@[1]@ == self.session_dir@,
            match session {
                Some(file) => r@[2]@ == "--session"@ && r@[3]@ == file@,
                None => r@[2]@ == "--continue"@,
            },
    {
        debug_args(self.session_dir.as_str(), session)
    }
}

/// The command line that resumes one session of a session directory in a
/// terminal.
pub fn debug_args(session_dir: &str, session: Option<&str>) -> (r: Vec<String>)
    ensures
        r@.len() == if session is Some {
            4nat
        } else {
            3nat
        },
        r@[0]@ == "--session-dir"@,
        r@[1]@ == session_dir@,
        match session {
            Some(file) => r@[2]@ == "--session"@ && r@[3]@ == file@,
            None => r@[2]@ == "--continue"@,
        },
{
    let mut args: Vec<String> = Vec::new();
    args.push("--session-dir".to_owned());
    args.push(session_dir.to_owned());
    match session {
        Some(file) => {
            args.push("--session".to_owned());
            args.push(file.to_owned());
        },
        None => args.push("--continue".to_owned()),
    }
    args
}

} // verus!
