use wait_for::config::{timeout_from_secs, Config, DEFAULT_TIMEOUT_SECS};
use wait_for::output::ColorChoice;
use wait_for::target::{Target, TargetError};

#[test]
fn zero_seconds_is_no_limit() {
    assert_eq!(timeout_from_secs(0), None);
    assert_eq!(timeout_from_secs(1), Some(1));
    assert_eq!(timeout_from_secs(15), Some(15));
    assert_eq!(timeout_from_secs(u64::MAX), Some(u64::MAX));
    assert_eq!(DEFAULT_TIMEOUT_SECS, 15);
}

#[test]
fn settings_from_the_command_line() {
    let command = vec!["echo".to_string(), "--done".to_string()];
    let config =
        Config::from_args("db:5432", 30, true, ColorChoice::Always, command.clone()).unwrap();
    assert_eq!(
        config,
        Config {
            target: Target::HostPort("db".to_string(), 5432),
            timeout: Some(30),
            quiet: true,
            color: ColorChoice::Always,
            command,
        }
    );
}

#[test]
fn settings_without_limit_and_command() {
    let config =
        Config::from_args("https://example.com", 0, false, ColorChoice::Auto, Vec::new()).unwrap();
    assert_eq!(config.target, Target::Url("https://example.com".to_string()));
    assert_eq!(config.timeout, None);
    assert!(!config.quiet);
    assert_eq!(config.color, ColorChoice::Auto);
    assert!(config.command.is_empty());
}

#[test]
fn a_bad_target_gives_no_settings() {
    assert_eq!(
        Config::from_args("invalid-target", 15, false, ColorChoice::Never, Vec::new()),
        Err(TargetError::InvalidFormat)
    );
    assert_eq!(
        Config::from_args(":80", 15, false, ColorChoice::Never, Vec::new()),
        Err(TargetError::EmptyHost)
    );
    assert_eq!(
        Config::from_args("http://", 15, false, ColorChoice::Never, Vec::new()),
        Err(TargetError::InvalidUrl("http://".to_string()))
    );
}
