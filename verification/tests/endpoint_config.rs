use supervictor::endpoint::config::{parse_u16, Config, ConfigVars, IntErrorKind};

fn vars() -> ConfigVars {
    ConfigVars {
        port: None,
        aws_lwa_port: None,
        environment: None,
        app_name: None,
        log_level: None,
        store_backend: None,
        devices_table: None,
        messages_table: None,
        sqlite_db_path: None,
    }
}

#[test]
fn env_var_parsing() {
    // --- defaults ---
    let cfg = Config::from_vars(vars()).unwrap();
    assert_eq!(cfg.port, 8000);
    assert_eq!(cfg.environment, "dev");
    assert_eq!(cfg.app_name, "supervictor");
    assert_eq!(cfg.log_level, "info");
    assert_eq!(cfg.store_backend, "sqlite");
    assert_eq!(cfg.devices_table, "devices");
    assert_eq!(cfg.messages_table, "messages");
    assert_eq!(cfg.sqlite_db_path, ":memory:");

    // --- PORT override ---
    assert_eq!(Config::from_vars(ConfigVars { port: Some("3000".into()), ..vars() }).unwrap().port, 3000);

    // --- AWS_LWA_PORT fallback ---
    assert_eq!(Config::from_vars(ConfigVars { aws_lwa_port: Some("9000".into()), ..vars() }).unwrap().port, 9000);

    // --- PORT takes precedence ---
    let both = ConfigVars { port: Some("3000".into()), aws_lwa_port: Some("9000".into()), ..vars() };
    assert_eq!(Config::from_vars(both).unwrap().port, 3000);

    // --- invalid port ---
    let err = Config::from_vars(ConfigVars { port: Some("not_a_number".into()), ..vars() }).unwrap_err();
    assert!(err.message().contains("not_a_number"));

    // --- port overflow ---
    assert!(Config::from_vars(ConfigVars { port: Some("99999".into()), ..vars() }).is_err());

    // --- custom fields ---
    let env = ConfigVars { environment: Some("production".into()), ..vars() };
    assert_eq!(Config::from_vars(env).unwrap().environment, "production");
    let backend = ConfigVars { store_backend: Some("dynamo".into()), ..vars() };
    assert_eq!(Config::from_vars(backend).unwrap().store_backend, "dynamo");
}

#[test]
fn invalid_port_message_names_reason() {
    let err = Config::from_vars(ConfigVars { port: Some("99999".into()), ..vars() }).unwrap_err();
    assert_eq!(err.message(), "config error: invalid port '99999': number too large to fit in target type");
    let err = Config::from_vars(ConfigVars { port: Some("".into()), ..vars() }).unwrap_err();
    assert_eq!(err.message(), "config error: invalid port '': cannot parse integer from empty string");
    let err = Config::from_vars(ConfigVars { port: Some("8x".into()), ..vars() }).unwrap_err();
    assert_eq!(err.message(), "config error: invalid port '8x': invalid digit found in string");
}

#[test]
fn parse_u16_matches_std() {
    for s in ["0", "65535", "65536", "+7", "-0", "", "+", " 1", "007", "1a"] {
        let ours = parse_u16(s).ok();
        assert_eq!(ours, s.parse::<u16>().ok(), "input {s:?}");
    }
    assert!(matches!(parse_u16(""), Err(IntErrorKind::Empty)));
    assert!(matches!(parse_u16("70000"), Err(IntErrorKind::PosOverflow)));
    assert!(matches!(parse_u16("-1"), Err(IntErrorKind::InvalidDigit)));
}
