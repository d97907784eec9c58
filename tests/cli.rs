use flockd::cli::{Cli, ErrorKind, ParseError, DEFAULT_CONFIG_PATH, HELP_TEXT};
use flockd::log_level::LogLevel;

fn args(tokens: &[&str]) -> Vec<String> {
    tokens.iter().map(|t| t.to_string()).collect()
}

#[test]
fn defaults() {
    let cli = Cli::parse_from(&args(&["flockd"]));
    assert_eq!(cli.log_level, LogLevel::Info);
    assert_eq!(cli.config, "/etc/flockd/config.toml");
}

#[test]
fn custom_log_level() {
    let cli = Cli::parse_from(&args(&["flockd", "--log-level", "debug"]));
    assert_eq!(cli.log_level, LogLevel::Debug);
}

#[test]
fn custom_log_level_warn() {
    let cli = Cli::parse_from(&args(&["flockd", "--log-level", "warn"]));
    assert_eq!(cli.log_level, LogLevel::Warn);
}

#[test]
fn custom_log_level_error() {
    let cli = Cli::parse_from(&args(&["flockd", "--log-level", "error"]));
    assert_eq!(cli.log_level, LogLevel::Error);
}

#[test]
fn custom_config_path() {
    let cli = Cli::parse_from(&args(&["flockd", "--config", "/tmp/test.toml"]));
    assert_eq!(cli.config, "/tmp/test.toml");
}

#[test]
fn all_flags() {
    let cli = Cli::parse_from(&args(&[
        "flockd",
        "--log-level",
        "error",
        "--config",
        "/opt/flockd.toml",
    ]));
    assert_eq!(cli.log_level, LogLevel::Error);
    assert_eq!(cli.config, "/opt/flockd.toml");
}

#[test]
fn invalid_log_level_errors() {
    let result = Cli::try_parse_from(&args(&["flockd", "--log-level", "trace"]));
    assert!(result.is_err());
}

#[test]
fn version_flag() {
    let result = Cli::try_parse_from(&args(&["flockd", "--version"]));
    let err = result.err().unwrap();
    assert_eq!(err.kind(), ErrorKind::DisplayVersion);
}

#[test]
fn log_level_display() {
    assert_eq!(LogLevel::Debug.to_string(), "debug");
    assert_eq!(LogLevel::Info.to_string(), "info");
    assert_eq!(LogLevel::Warn.to_string(), "warn");
    assert_eq!(LogLevel::Error.to_string(), "error");
}

#[test]
fn empty_argument_list_gives_defaults() {
    let cli = Cli::try_parse_from(&Vec::new()).ok().unwrap();
    assert_eq!(cli.log_level, LogLevel::Info);
    assert_eq!(cli.config, DEFAULT_CONFIG_PATH);
}

#[test]
fn log_level_tokens_round_trip() {
    for t in ["debug", "info", "warn", "error"] {
        let cli = Cli::try_parse_from(&args(&["prog", "--log-level", t])).ok().unwrap();
        assert_eq!(cli.log_level.as_str(), t);
        assert_eq!(cli.log_level.to_string(), t);
        assert_eq!(LogLevel::from_token(t), Some(cli.log_level));
        assert_eq!(cli.config, "/etc/flockd/config.toml");
    }
}

#[test]
fn from_token_is_case_sensitive() {
    assert_eq!(LogLevel::from_token("Debug"), None);
    assert_eq!(LogLevel::from_token("INFO"), None);
    assert_eq!(LogLevel::from_token("trace"), None);
    assert_eq!(LogLevel::from_token(""), None);
}

#[test]
fn invalid_log_level_is_invalid_value() {
    let err = Cli::try_parse_from(&args(&["prog", "--log-level", "trace"])).err().unwrap();
    assert_eq!(err.kind(), ErrorKind::InvalidValue);
    match &err {
        ParseError::InvalidValue { flag, value } => {
            assert_eq!(flag, "--log-level");
            assert_eq!(value, "trace");
        }
        _ => panic!("expected an invalid value"),
    }
    assert_eq!(err.exit_code(), 2);
    assert_eq!(
        err.message("0.1.0"),
        "error: invalid value 'trace' for '--log-level'"
    );
}

#[test]
fn uppercase_log_level_is_invalid_value() {
    let err = Cli::try_parse_from(&args(&["prog", "--log-level", "DEBUG"])).err().unwrap();
    assert_eq!(err.kind(), ErrorKind::InvalidValue);
}

#[test]
fn options_in_either_order() {
    let a = Cli::try_parse_from(&args(&["prog", "--config", "/opt/flockd.toml", "--log-level", "error"]))
        .ok()
        .unwrap();
    assert_eq!(a.log_level, LogLevel::Error);
    assert_eq!(a.config, "/opt/flockd.toml");
}

#[test]
fn version_is_not_a_validation_failure() {
    let err = Cli::try_parse_from(&args(&["prog", "--version"])).err().unwrap();
    assert_ne!(err.kind(), ErrorKind::InvalidValue);
    assert_ne!(err.kind(), ErrorKind::UnrecognizedArgument);
    assert!(err.is_display_request());
    assert_eq!(err.exit_code(), 0);
    assert_eq!(err.message("0.1.0"), "flockd 0.1.0");
}

#[test]
fn short_version_flag() {
    let err = Cli::try_parse_from(&args(&["prog", "-V"])).err().unwrap();
    assert_eq!(err.kind(), ErrorKind::DisplayVersion);
}

#[test]
fn version_wins_over_what_follows() {
    let err = Cli::try_parse_from(&args(&["prog", "--version", "--log-level", "trace", "--bogus"]))
        .err()
        .unwrap();
    assert_eq!(err.kind(), ErrorKind::DisplayVersion);
}

#[test]
fn failure_met_before_version_is_reported() {
    let err = Cli::try_parse_from(&args(&["prog", "--bogus", "--version"])).err().unwrap();
    assert_eq!(err.kind(), ErrorKind::UnrecognizedArgument);
}

#[test]
fn help_flag() {
    for h in ["--help", "-h"] {
        let err = Cli::try_parse_from(&args(&["prog", h])).err().unwrap();
        assert_eq!(err.kind(), ErrorKind::DisplayHelp);
        assert_eq!(err.exit_code(), 0);
        assert_eq!(err.message("0.1.0"), HELP_TEXT);
    }
}

#[test]
fn parsing_twice_gives_the_same_configuration() {
    let a = args(&["prog", "--log-level", "warn", "--config", "/srv/a.toml"]);
    let first = Cli::try_parse_from(&a).ok().unwrap();
    let second = Cli::try_parse_from(&a).ok().unwrap();
    assert_eq!(first.log_level, second.log_level);
    assert_eq!(first.config, second.config);
}

#[test]
fn unknown_option_is_unrecognized() {
    let err = Cli::try_parse_from(&args(&["prog", "--verbose"])).err().unwrap();
    assert_eq!(err.kind(), ErrorKind::UnrecognizedArgument);
    assert_eq!(err.exit_code(), 2);
    assert_eq!(err.message("0.1.0"), "error: unexpected argument '--verbose' found");
}

#[test]
fn positional_token_is_unrecognized() {
    let err = Cli::try_parse_from(&args(&["prog", "extra"])).err().unwrap();
    match err {
        ParseError::UnrecognizedArgument { token } => assert_eq!(token, "extra"),
        _ => panic!("expected an unrecognized argument"),
    }
}

#[test]
fn option_with_equals_sign_is_unrecognized() {
    let err = Cli::try_parse_from(&args(&["prog", "--log-level=debug"])).err().unwrap();
    assert_eq!(err.kind(), ErrorKind::UnrecognizedArgument);
}

#[test]
fn missing_value_at_end() {
    let err = Cli::try_parse_from(&args(&["prog", "--config"])).err().unwrap();
    assert_eq!(err.kind(), ErrorKind::MissingValue);
    assert_eq!(err.exit_code(), 2);
    assert_eq!(
        err.message("0.1.0"),
        "error: a value is required for '--config' but none was supplied"
    );
}

#[test]
fn missing_value_before_another_option() {
    let err = Cli::try_parse_from(&args(&["prog", "--log-level", "--config", "/x"])).err().unwrap();
    match err {
        ParseError::MissingValue { flag } => assert_eq!(flag, "--log-level"),
        _ => panic!("expected a missing value"),
    }
}

#[test]
fn lone_dash_is_a_value() {
    let cli = Cli::try_parse_from(&args(&["prog", "--config", "-"])).ok().unwrap();
    assert_eq!(cli.config, "-");
}

#[test]
fn config_path_taken_verbatim() {
    let cli = Cli::try_parse_from(&args(&["prog", "--config", "relative/dir with space/é.toml"]))
        .ok()
        .unwrap();
    assert_eq!(cli.config, "relative/dir with space/é.toml");
}

#[test]
fn repeated_option_keeps_last_value() {
    let cli = Cli::try_parse_from(&args(&[
        "prog",
        "--log-level",
        "debug",
        "--log-level",
        "error",
        "--config",
        "/a",
        "--config",
        "/b",
    ]))
    .ok()
    .unwrap();
    assert_eq!(cli.log_level, LogLevel::Error);
    assert_eq!(cli.config, "/b");
}

#[test]
fn startup_banner() {
    let cli = Cli::parse_from(&args(&["flockd", "--log-level", "warn"]));
    assert_eq!(
        cli.banner("1.2.3"),
        "flockd v1.2.3\nlog_level=warn\nconfig=/etc/flockd/config.toml"
    );
}
