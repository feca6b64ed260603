//! Companion configuration resolved from what the deployment named.
//!
//! Every outside effect the companion can start is named here. The chat,
//! restart, and speak hooks are absolute executables supplied by the
//! deployment, so the companion never builds a command line or reaches for a
//! shell.
use vstd::prelude::*;
use vstd::string::StringExecFns;

use crate::command::COMMAND_FILE_NAME;
use crate::control::{runtime_socket, runtime_socket_path};
use crate::daemon::SERVICE_FILE_NAME;
use crate::text::{absolute_path, begins, begins_with, is_absolute, join_path, joined_path};

verus! {

/// Endpoint used when the deployment configures none.
pub const DEFAULT_STT_ENDPOINT: &'static str = "http://127.0.0.1:10301/inference";

/// Activation accelerator used when the deployment configures none.
pub const DEFAULT_HOTKEY: &'static str = "Super+D";

/// What `--print-config` says about a key that is derived from the hotkey.
///
/// Not "none", which is a real answer here and means the opposite: a key the
/// deployment took off the companion.
pub const DERIVED: &'static str = "derived";

/// State file used when the deployment configures none, below the home
/// directory.
pub const DEFAULT_STATE_FILE: &'static str = ".local/state/scufris-desktop/pending.json";

/// Restarts allowed inside [`RESTART_WINDOW_SECONDS`].
pub const MAX_RESTARTS: usize = 3;

/// Length of the bounded restart window.
pub const RESTART_WINDOW_SECONDS: u64 = 600;

/// What one setting says: nothing when it is unset or set to the empty text.
pub open spec fn named(value: Option<String>) -> Option<Seq<char>> {
    match value {
        Some(v) => if v@.len() > 0 {
            Some(v@)
        } else {
            None
        },
        None => None,
    }
}

/// The view of an optional text.
pub open spec fn maybe(value: Option<String>) -> Option<Seq<char>> {
    match value {
        Some(v) => Some(v@),
        None => None,
    }
}

fn non_empty(value: Option<String>) -> (r: Option<String>)
    ensures
        maybe(r) == named(value),
{
    match value {
        Some(v) => if v.as_str().is_empty() {
            None
        } else {
            Some(v)
        },
        None => None,
    }
}

/// Resolved companion configuration.
#[derive(Debug, Clone, PartialEq, Eq)]
pub struct Config {
    /// Service socket the companion connects to.
    pub socket: String,
    /// Command socket the companion listens on, for the desktop's own verbs.
    ///
    /// Absent when the session names no runtime directory to put one in. The
    /// companion still starts: the hotkey and the tray reach it without one.
    pub command_socket: Option<String>,
    /// whisper-server-compatible transcription endpoint.
    pub stt_endpoint: String,
    /// Accelerator that opens the pill and starts recording.
    pub hotkey: String,
    /// Accelerator that puts the pill away, when the deployment names one.
    pub cancel_key: Option<String>,
    /// Accelerator that stops Scufris, on the same terms.
    pub stop_key: Option<String>,
    /// Executable that opens the conversation in a terminal, when configured.
    pub chat_command: Option<String>,
    /// Executable that restarts the owned backend service, when configured.
    pub restart_command: Option<String>,
    /// Executable that speaks one paragraph read from its standard input.
    pub speak_command: Option<String>,
    /// File holding an accepted transcript that has not been acknowledged.
    pub state_file: String,
}

/// What a resolved configuration holds, as texts.
pub struct ConfigView {
    pub socket: Seq<char>,
    pub command_socket: Option<Seq<char>>,
    pub stt_endpoint: Seq<char>,
    pub hotkey: Seq<char>,
    pub cancel_key: Option<Seq<char>>,
    pub stop_key: Option<Seq<char>>,
    pub chat_command: Option<Seq<char>>,
    pub restart_command: Option<Seq<char>>,
    pub speak_command: Option<Seq<char>>,
    pub state_file: Seq<char>,
}

impl View for Config {
    type V = ConfigView;

    open spec fn view(&self) -> ConfigView {
        ConfigView {
            socket: self.socket@,
            command_socket: maybe(self.command_socket),
            stt_endpoint: self.stt_endpoint@,
            hotkey: self.hotkey@,
            cancel_key: maybe(self.cancel_key),
            stop_key: maybe(self.stop_key),
            chat_command: maybe(self.chat_command),
            restart_command: maybe(self.restart_command),
            speak_command: maybe(self.speak_command),
            state_file: self.state_file@,
        }
    }
}

/// Failure to resolve the companion configuration.
#[derive(Debug, Clone, PartialEq, Eq)]
pub enum ConfigError {
    /// No service socket was named and the session has no runtime directory
    /// to place one in.
    Socket,
    /// A configured endpoint was not an absolute HTTP or HTTPS URL.
    Endpoint,
    /// A configured hook, named by its variable, was not an absolute path.
    Command(&'static str),
    /// No durable state file could be resolved.
    StateFile,
}

/// The sentence one configuration failure reads as.
pub open spec fn config_error_message(e: ConfigError) -> Seq<char> {
    match e {
        ConfigError::Socket => "SCUFRIS_DESKTOP_SOCKET or XDG_RUNTIME_DIR must be set"@,
        ConfigError::Endpoint => "SCUFRIS_STT_ENDPOINT must be an http or https URL"@,
        ConfigError::Command(name) => name@ + " must be an absolute executable path"@,
        ConfigError::StateFile => "SCUFRIS_DESKTOP_STATE_FILE, XDG_STATE_HOME, or HOME must be set"@,
    }
}

impl ConfigError {
    /// Returns the sentence this failure reads as.
    pub fn message(&self) -> (r: String)
        ensures
            r@ == config_error_message(*self),
    {
        match self {
            ConfigError::Socket => "SCUFRIS_DESKTOP_SOCKET or XDG_RUNTIME_DIR must be set".to_owned(),
            ConfigError::Endpoint => "SCUFRIS_STT_ENDPOINT must be an http or https URL".to_owned(),
            ConfigError::Command(name) => {
                let mut out = (*name).to_owned();
                out.append(" must be an absolute executable path");
                out
            },
            ConfigError::StateFile => "SCUFRIS_DESKTOP_STATE_FILE, XDG_STATE_HOME, or HOME must be set".to_owned(),
        }
    }
}

/// The accelerators the deployment names, as the environment gave them.
pub struct Keys {
    pub hotkey: Option<String>,
    pub cancel: Option<String>,
    pub stop: Option<String>,
}

/// The executables the deployment supplies, as the environment gave them.
pub struct Hooks {
    pub chat: Option<String>,
    pub restart: Option<String>,
    pub speak: Option<String>,
}

/// The three inputs that can name the durable state file, in priority order.
pub struct State {
    pub configured: Option<String>,
    pub xdg: Option<String>,
    pub home: Option<String>,
}

/// Where the durable state file is: the configured path, else below the XDG
/// state directory, else below the home directory.
pub open spec fn state_file_of(configured: Option<String>, xdg: Option<String>, home: Option<String>) -> Option<Seq<char>> {
    match named(configured) {
        Some(path) => Some(path),
        None => match named(xdg) {
            Some(path) => Some(joined_path(path, "scufris-desktop/pending.json"@)),
            None => match named(home) {
                Some(path) => Some(joined_path(path, DEFAULT_STATE_FILE@)),
                None => None,
            },
        },
    }
}

impl State {
    /// Resolves the durable state file.
    pub fn resolve(self) -> (r: Result<String, ConfigError>)
        ensures
            match r {
                Ok(path) => state_file_of(self.configured, self.xdg, self.home) == Some(path@),
                Err(e) => e == ConfigError::StateFile && state_file_of(self.configured, self.xdg, self.home) is None,
            },
    {
        if let Some(path) = non_empty(self.configured) {
            return Ok(path);
        }
        if let Some(path) = non_empty(self.xdg) {
            return Ok(join_path(path.as_str(), "scufris-desktop/pending.json"));
        }
        match non_empty(self.home) {
            Some(path) => Ok(join_path(path.as_str(), DEFAULT_STATE_FILE)),
            None => Err(ConfigError::StateFile),
        }
    }
}

/// A hook is either unnamed or an absolute path.
pub open spec fn hook_of(value: Option<String>) -> Option<Option<Seq<char>>> {
    match named(value) {
        Some(path) => if absolute_path(path) {
            Some(Some(path))
        } else {
            None
        },
        None => Some(None),
    }
}

fn absolute(value: Option<String>, name: &'static str) -> (r: Result<Option<String>, ConfigError>)
    ensures
        match r {
            Ok(path) => hook_of(value) == Some(maybe(path)),
            Err(e) => e == ConfigError::Command(name) && hook_of(value) is None,
        },
{
    match non_empty(value) {
        Some(path) => if is_absolute(path.as_str()) {
            Ok(Some(path))
        } else {
            Err(ConfigError::Command(name))
        },
        None => Ok(None),
    }
}

/// An endpoint the companion may post a recording to.
pub open spec fn web_endpoint(s: Seq<char>) -> bool {
    begins_with(s, "http://"@) || begins_with(s, "https://"@)
}

/// What the deployment's settings resolve to: the first problem in the order
/// the settings are read, or the configuration.
///
/// An unnamed service socket sits below the session runtime directory; an
/// unnamed command socket too, or is absent when there is none. An unnamed
/// endpoint or hotkey is the bundled one. An empty setting is an unnamed one.
pub open spec fn resolution(
    socket: Option<String>,
    command_socket: Option<String>,
    endpoint: Option<String>,
    keys: Keys,
    hooks: Hooks,
    state: State,
    runtime: Seq<char>,
) -> Result<ConfigView, ConfigError> {
    let service = match named(socket) {
        Some(path) => Some(path),
        None => runtime_socket_path(runtime, SERVICE_FILE_NAME@),
    };
    let commands = match named(command_socket) {
        Some(path) => Some(path),
        None => runtime_socket_path(runtime, COMMAND_FILE_NAME@),
    };
    let stt_endpoint = match named(endpoint) {
        Some(value) => value,
        None => DEFAULT_STT_ENDPOINT@,
    };
    let hotkey = match named(keys.hotkey) {
        Some(value) => value,
        None => DEFAULT_HOTKEY@,
    };
    if service is None {
        Err(ConfigError::Socket)
    } else if !web_endpoint(stt_endpoint) {
        Err(ConfigError::Endpoint)
    } else if hook_of(hooks.chat) is None {
        Err(ConfigError::Command("SCUFRIS_DESKTOP_CHAT_COMMAND"))
    } else if hook_of(hooks.restart) is None {
        Err(ConfigError::Command("SCUFRIS_DESKTOP_RESTART_COMMAND"))
    } else if hook_of(hooks.speak) is None {
        Err(ConfigError::Command("SCUFRIS_DESKTOP_SPEAK_COMMAND"))
    } else if state_file_of(state.configured, state.xdg, state.home) is None {
        Err(ConfigError::StateFile)
    } else {
        Ok(ConfigView {
            socket: service.unwrap(),
            command_socket: commands,
            stt_endpoint,
            hotkey,
            cancel_key: named(keys.cancel),
            stop_key: named(keys.stop),
            chat_command: hook_of(hooks.chat).unwrap(),
            restart_command: hook_of(hooks.restart).unwrap(),
            speak_command: hook_of(hooks.speak).unwrap(),
            state_file: state_file_of(state.configured, state.xdg, state.home).unwrap(),
        })
    }
}

/// An optional path as `--print-config` writes it.
pub open spec fn optional_text(value: Option<Seq<char>>) -> Seq<char> {
    match value {
        Some(path) => path,
        None => "none"@,
    }
}

/// An optional key as `--print-config` writes it: an unnamed key is derived
/// from the hotkey.
pub open spec fn derived_text(value: Option<Seq<char>>) -> Seq<char> {
    match value {
        Some(key) => key,
        None => DERIVED@,
    }
}

/// The `--print-config` rendering: one `name=value` line per outside effect.
pub open spec fn description(c: ConfigView) -> Seq<char> {
    "socket="@ + c.socket + "\ncommand_socket="@ + optional_text(c.command_socket)
        + "\nstate_file="@ + c.state_file + "\nstt_endpoint="@ + c.stt_endpoint + "\nhotkey="@
        + c.hotkey + "\ncancel_key="@ + derived_text(c.cancel_key) + "\nstop_key="@ + derived_text(
        c.stop_key,
    ) + "\nchat_command="@ + optional_text(c.chat_command) + "\nrestart_command="@
        + optional_text(c.restart_command) + "\nspeak_command="@ + optional_text(c.speak_command)
        + "\n"@
}

fn push_optional(out: &mut String, value: &Option<String>)
    ensures
        final(out)@ == old(out)@ + optional_text(maybe(*value)),
{
    match value {
        Some(path) => out.append(path.as_str()),
        None => out.append("none"),
    }
}

fn push_derived(out: &mut String, value: &Option<String>)
    ensures
        final(out)@ == old(out)@ + derived_text(maybe(*value)),
{
    match value {
        Some(key) => out.append(key.as_str()),
        None => out.append(DERIVED),
    }
}

impl Config {
    /// Resolves the configuration from what the deployment named, with the
    /// session runtime directory for the sockets it left unnamed.
    pub fn resolve(
        socket: Option<String>,
        command_socket: Option<String>,
        endpoint: Option<String>,
        keys: Keys,
        hooks: Hooks,
        state: State,
        runtime: &str,
    ) -> (r: Result<Config, ConfigError>)
        ensures
            match r {
                Ok(c) => resolution(socket, command_socket, endpoint, keys, hooks, state, runtime@) == Ok::<ConfigView, ConfigError>(c@),
                Err(e) => resolution(socket, command_socket, endpoint, keys, hooks, state, runtime@) == Err::<ConfigView, ConfigError>(e),
            },
    {
        let socket = match non_empty(socket) {
            Some(value) => value,
            None => match runtime_socket(runtime, SERVICE_FILE_NAME) {
                Some(path) => path,
                None => return Err(ConfigError::Socket),
            },
        };
        let command_socket = match non_empty(command_socket) {
            Some(value) => Some(value),
            None => runtime_socket(runtime, COMMAND_FILE_NAME),
        };
        let stt_endpoint = match non_empty(endpoint) {
            Some(value) => value,
            None => DEFAULT_STT_ENDPOINT.to_owned(),
        };
        proof {
            reveal_strlit("http://");
            reveal_strlit("https://");
        }
        if !begins(stt_endpoint.as_str(), "http://") && !begins(stt_endpoint.as_str(), "https://") {
            return Err(ConfigError::Endpoint);
        }
        let hotkey = match non_empty(keys.hotkey) {
            Some(value) => value,
            None => DEFAULT_HOTKEY.to_owned(),
        };
        let cancel_key = non_empty(keys.cancel);
        let stop_key = non_empty(keys.stop);
        let chat_command = absolute(hooks.chat, "SCUFRIS_DESKTOP_CHAT_COMMAND")?;
        let restart_command = absolute(hooks.restart, "SCUFRIS_DESKTOP_RESTART_COMMAND")?;
        let speak_command = absolute(hooks.speak, "SCUFRIS_DESKTOP_SPEAK_COMMAND")?;
        let state_file = state.resolve()?;
        Ok(Config {
            socket,
            command_socket,
            stt_endpoint,
            hotkey,
            cancel_key,
            stop_key,
            chat_command,
            restart_command,
            speak_command,
            state_file,
        })
    }

    /// Renders the resolved configuration for `--print-config`.
    pub fn describe(&self) -> (r: String)
        ensures
            r@ == description(self@),
    {
        let mut out = "socket=".to_owned();
        out.append(self.socket.as_str());
        out.append("\ncommand_socket=");
        push_optional(&mut out, &self.command_socket);
        out.append("\nstate_file=");
        out.append(self.state_file.as_str());
        out.append("\nstt_endpoint=");
        out.append(self.stt_endpoint.as_str());
        out.append("\nhotkey=");
        out.append(self.hotkey.as_str());
        out.append("\ncancel_key=");
        push_derived(&mut out, &self.cancel_key);
        out.append("\nstop_key=");
        push_derived(&mut out, &self.stop_key);
        out.append("\nchat_command=");
        push_optional(&mut out, &self.chat_command);
        out.append("\nrestart_command=");
        push_optional(&mut out, &self.restart_command);
        out.append("\nspeak_command=");
        push_optional(&mut out, &self.speak_command);
        out.append("\n");
        proof {
            assert(out@ =~= description(self@));
        }
        out
    }
}

/// Whether an attempt at `attempt` still counts against the budget at `now`:
/// it lies inside the window, and one stamped later than `now` is taken to be
/// at `now`.
pub open spec fn recent(now: u64, attempt: u64) -> bool {
    (if attempt >= now {
        0
    } else {
        now - attempt
    }) < RESTART_WINDOW_SECONDS
}

/// The attempts that still count at `now`, oldest first.
pub open spec fn counted(attempts: Seq<u64>, now: u64) -> Seq<u64> {
    attempts.filter(|a: u64| recent(now, a))
}

/// Whether one more attempt at `now` fits the budget.
pub open spec fn affords(attempts: Seq<u64>, now: u64) -> bool {
    counted(attempts, now).len() < MAX_RESTARTS
}

/// The attempts the budget holds after it was asked at `now`.
pub open spec fn charged(attempts: Seq<u64>, now: u64) -> Seq<u64> {
    if affords(attempts, now) {
        counted(attempts, now).push(now)
    } else {
        counted(attempts, now)
    }
}

/// Bounded restart budget for the owned backend service.
#[derive(Debug)]
pub struct RestartBudget {
    attempts: Vec<u64>,
}

impl View for RestartBudget {
    type V = Seq<u64>;

    closed spec fn view(&self) -> Seq<u64> {
        self.attempts@
    }
}

impl RestartBudget {
    #[verifier::type_invariant]
    spec fn bounded(self) -> bool {
        self.attempts@.len() <= MAX_RESTARTS
    }

    /// Records one restart attempt at `now` and reports whether it is allowed.
    ///
    /// Attempts that left the window stop counting first; an attempt that
    /// would be one too many inside the window is refused and not recorded.
    pub fn allow(&mut self, now: u64) -> (r: bool)
        ensures
            r == affords(old(self)@, now),
            final(self)@ == charged(old(self)@, now),
            final(self)@.len() <= MAX_RESTARTS,
    {
        proof {
            use_type_invariant(&*self);
        }
        let n = self.attempts.len();
        let mut kept: Vec<u64> = Vec::new();
        let mut i: usize = 0;
        while i < n
            invariant
                n == self.attempts@.len(),
                n <= MAX_RESTARTS,
                i <= n,
                kept@ == counted(self.attempts@.subrange(0, i as int), now),
                kept@.len() <= i,
            decreases n - i,
        {
            let attempt = self.attempts[i];
            proof {
                assert(self.attempts@.subrange(0, i + 1).drop_last() =~= self.attempts@.subrange(0, i as int));
                assert(self.attempts@.subrange(0, i + 1).last() == attempt);
            }
            let age = now.saturating_sub(attempt);
            proof {
                let before = self.attempts@.subrange(0, i as int);
                let after = self.attempts@.subrange(0, i + 1);
                assert(after.drop_last() =~= before);
                assert(after.len() > 0);
                assert(after.last() == attempt);
                reveal_with_fuel(Seq::filter, 2);
                assert(counted(after, now) == if recent(now, attempt) {
                    counted(before, now).push(attempt)
                } else {
                    counted(before, now)
                });
                assert((age < RESTART_WINDOW_SECONDS) == recent(now, attempt));
            }
            if age < RESTART_WINDOW_SECONDS {
                kept.push(attempt);
            }
            i = i + 1;
        }
        proof {
            assert(self.attempts@.subrange(0, n as int) =~= self.attempts@);
        }
        if kept.len() >= MAX_RESTARTS {
            self.attempts = kept;
            return false;
        }
        kept.push(now);
        self.attempts = kept;
        true
    }
}

impl Default for RestartBudget {
    fn default() -> (r: Self)
        ensures
            r@ == Seq::<u64>::empty(),
    {
        RestartBudget { attempts: Vec::new() }
    }
}

} // verus!
