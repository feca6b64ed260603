//! Where the service gets the three things it needs to run.

use scufris::daemon_config::{
    Config, ConfigError, AGENT_VARIABLE, DEFAULT_AGENT, SESSION_DIR_VARIABLE,
};

fn os(value: &str) -> Option<String> {
    Some(value.to_string())
}

fn resolved(agent: Option<String>, session: Option<String>) -> Config {
    Config::resolve(agent, session, None, os("/home/a"), None).expect("it resolves")
}

#[test]
fn a_named_agent_and_session_directory_are_taken_as_they_are() {
    let config = resolved(os("/nix/store/x/bin/scufris"), os("/srv/sessions"));
    assert_eq!(config.agent, "/nix/store/x/bin/scufris");
    assert_eq!(config.session_dir, "/srv/sessions");
    assert_eq!(config.working_dir, "/home/a");
}

#[test]
fn the_default_session_directory_follows_the_data_home() {
    let config = Config::resolve(
        os("/bin/scufris"),
        None,
        os("/home/a/.data"),
        os("/home/a"),
        None,
    )
    .expect("it resolves");
    assert_eq!(config.session_dir, "/home/a/.data/scufris/sessions");
    // An unset or relative data home is no data home.
    for data in [None, os("relative")] {
        let config = Config::resolve(os("/bin/scufris"), None, data, os("/home/a"), None)
            .expect("it resolves");
        assert_eq!(config.session_dir, "/home/a/.local/share/scufris/sessions");
    }
}

#[test]
fn a_relative_path_is_refused_rather_than_resolved_against_the_working_directory() {
    assert_eq!(
        Config::resolve(os("scufris"), None, None, os("/home/a"), None),
        Err(ConfigError::Relative(AGENT_VARIABLE, "scufris".to_string()))
    );
    assert_eq!(
        Config::resolve(
            os("/bin/scufris"),
            os("sessions"),
            None,
            os("/home/a"),
            None
        ),
        Err(ConfigError::Relative(
            SESSION_DIR_VARIABLE,
            "sessions".to_string()
        ))
    );
}

#[test]
fn a_session_with_no_home_is_refused() {
    assert!(matches!(
        Config::resolve(os("/bin/scufris"), None, None, None, None),
        Err(ConfigError::Missing(_))
    ));
    assert!(matches!(
        Config::resolve(os("/bin/scufris"), None, None, os(""), None),
        Err(ConfigError::Missing(_))
    ));
}

#[test]
fn with_nothing_named_the_agent_is_looked_for_on_the_path() {
    assert_eq!(
        Config::resolve(None, None, None, os("/home/a"), None),
        Err(ConfigError::NoAgent)
    );
    let program = format!("/nonexistent/bin/{DEFAULT_AGENT}");
    let config = Config::resolve(None, None, None, os("/home/a"), Some(program.clone()))
        .expect("the agent is found on the path");
    assert_eq!(config.agent, program);
}

#[test]
fn the_agent_runs_in_rpc_mode_and_the_terminal_gets_the_same_session() {
    let config = resolved(os("/bin/scufris"), os("/srv/sessions"));
    assert_eq!(
        config.agent_args(),
        ["--session-dir", "/srv/sessions", "--continue", "--mode", "rpc"]
    );
    assert_eq!(
        config.debug_args(Some("/srv/sessions/one.jsonl")),
        [
            "--session-dir",
            "/srv/sessions",
            "--session",
            "/srv/sessions/one.jsonl"
        ]
    );
    assert_eq!(
        config.debug_args(None),
        ["--session-dir", "/srv/sessions", "--continue"]
    );
}

#[test]
fn every_service_configuration_failure_reads_as_a_sentence() {
    assert_eq!(
        ConfigError::NoAgent.message(),
        "no SCUFRIS_SERVICE_AGENT and no scufris on PATH"
    );
    assert_eq!(
        ConfigError::Relative(AGENT_VARIABLE, "scufris".into()).message(),
        "SCUFRIS_SERVICE_AGENT must be an absolute path, not scufris"
    );
    assert_eq!(
        ConfigError::Missing("HOME is required".into()).message(),
        "HOME is required"
    );
}
