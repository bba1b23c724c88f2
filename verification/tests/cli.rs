use uhid_gamepad::args::{Args, ArgsError, CommandKind, DaemonArgs, DaemonCommand, parse_u64};

#[test]
fn parses_hid_self_test_defaults() {
    let args =
        Args::parse(vec!["hid".into(), "self-test".into()]).expect("parse should succeed");

    assert_eq!(args.cmd, CommandKind::HidSelfTest);
    assert_eq!(args.pattern_seconds, 2);
}

#[test]
fn rejects_invalid_pattern_seconds() {
    let err = Args::parse(vec![
        "hid".into(),
        "self-test".into(),
        "--pattern-seconds".into(),
        "0".into(),
    ])
    .expect_err("pattern-seconds=0 should fail");

    assert!(err.message().contains("1..=30"));
}

#[test]
fn no_arguments_means_help() {
    let args = Args::parse(vec![]).expect("parse should succeed");
    assert_eq!(args.cmd, CommandKind::Help);
    assert_eq!(args.config_path, "/etc/controlleros/hid.toml");
    assert_eq!(args.hidd_path, None);
}

#[test]
fn options_override_defaults() {
    let args = Args::parse(vec![
        "hid".into(),
        "self-test".into(),
        "--config".into(),
        "/tmp/x.toml".into(),
        "--hidd".into(),
        "/bin/hidd".into(),
        "--pattern-seconds".into(),
        "30".into(),
    ])
    .expect("parse should succeed");

    assert_eq!(args.cmd, CommandKind::HidSelfTest);
    assert_eq!(args.config_path, "/tmp/x.toml");
    assert_eq!(args.hidd_path, Some("/bin/hidd".to_string()));
    assert_eq!(args.pattern_seconds, 30);
}

#[test]
fn unknown_command_is_reported() {
    let err = Args::parse(vec!["bogus".into()]).expect_err("should fail");
    assert_eq!(err, ArgsError::UnknownCommand("bogus".to_string()));
    assert_eq!(err.message(), "unknown command: bogus");
}

#[test]
fn hid_without_subcommand_is_reported() {
    let err = Args::parse(vec!["hid".into()]).expect_err("should fail");
    assert_eq!(err, ArgsError::MissingHidSubcommand);
}

#[test]
fn missing_option_values_are_reported() {
    let err = Args::parse(vec!["hid".into(), "self-test".into(), "--config".into()])
        .expect_err("should fail");
    assert_eq!(err, ArgsError::MissingConfigValue);

    let err = Args::parse(vec!["hid".into(), "self-test".into(), "--hidd".into()])
        .expect_err("should fail");
    assert_eq!(err, ArgsError::MissingHiddValue);

    let err =
        Args::parse(vec!["hid".into(), "self-test".into(), "--pattern-seconds".into()])
            .expect_err("should fail");
    assert_eq!(err, ArgsError::MissingPatternSecondsValue);
}

#[test]
fn non_numeric_pattern_seconds_is_reported() {
    let err = Args::parse(vec![
        "hid".into(),
        "self-test".into(),
        "--pattern-seconds".into(),
        "abc".into(),
    ])
    .expect_err("should fail");
    assert_eq!(err, ArgsError::InvalidPatternSeconds("abc".to_string()));
    assert_eq!(err.message(), "invalid --pattern-seconds value: abc");
}

#[test]
fn late_help_switches_to_help_but_keeps_parsing() {
    let args = Args::parse(vec!["hid".into(), "self-test".into(), "--help".into()])
        .expect("parse should succeed");
    assert_eq!(args.cmd, CommandKind::Help);

    let err = Args::parse(vec![
        "hid".into(),
        "self-test".into(),
        "--help".into(),
        "--bogus".into(),
    ])
    .expect_err("should fail");
    assert_eq!(err, ArgsError::UnknownArgument("--bogus".to_string()));
}

#[test]
fn parse_u64_accepts_plain_and_signed_decimals() {
    assert_eq!(parse_u64(&"0".to_string()), Some(0));
    assert_eq!(parse_u64(&"30".to_string()), Some(30));
    assert_eq!(parse_u64(&"+7".to_string()), Some(7));
    assert_eq!(parse_u64(&"18446744073709551615".to_string()), Some(u64::MAX));
}

#[test]
fn parse_u64_rejects_junk_and_overflow() {
    assert_eq!(parse_u64(&"".to_string()), None);
    assert_eq!(parse_u64(&"+".to_string()), None);
    assert_eq!(parse_u64(&"abc".to_string()), None);
    assert_eq!(parse_u64(&"1x".to_string()), None);
    assert_eq!(parse_u64(&"-1".to_string()), None);
    assert_eq!(parse_u64(&"18446744073709551616".to_string()), None);
}

#[test]
fn daemon_defaults_run_with_standard_config() {
    let cmd = DaemonArgs::parse(vec![]).expect("parse should succeed");
    match cmd {
        DaemonCommand::Run(args) => {
            assert!(!args.validate_config);
            assert!(!args.self_test);
            assert_eq!(args.config_path, "/etc/controlleros/hid.toml");
        },
        DaemonCommand::Help => panic!("expected a run command"),
    }
}

#[test]
fn daemon_flags_accumulate() {
    let cmd = DaemonArgs::parse(vec![
        "--validate-config".into(),
        "--self-test".into(),
        "--config".into(),
        "/tmp/h.toml".into(),
    ])
    .expect("parse should succeed");
    match cmd {
        DaemonCommand::Run(args) => {
            assert!(args.validate_config);
            assert!(args.self_test);
            assert_eq!(args.config_path, "/tmp/h.toml");
        },
        DaemonCommand::Help => panic!("expected a run command"),
    }
}

#[test]
fn daemon_help_ends_parsing_at_once() {
    let cmd = DaemonArgs::parse(vec!["--help".into(), "--bogus".into()])
        .expect("parse should succeed");
    assert!(matches!(cmd, DaemonCommand::Help));
}

#[test]
fn daemon_unknown_argument_is_reported() {
    let err = DaemonArgs::parse(vec!["--bogus".into()]).expect_err("should fail");
    assert_eq!(err.message(), "unknown argument: --bogus");
}

#[test]
fn daemon_missing_config_value_is_reported() {
    let err = DaemonArgs::parse(vec!["--config".into()]).expect_err("should fail");
    assert_eq!(err.message(), "missing value for --config");
}
