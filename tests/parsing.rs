use meshcore_cli::channels::{is_channel_empty, parse_channel_index, parse_channel_secret, scope_key};
use meshcore_cli::cli::{parse_bool_arg, parse_telemetry_mode, stats_type_of, StatsTypeArg};
use meshcore_cli::error::CliError;
use meshcore_cli::number::{parse_i8, parse_time_value, parse_u32, parse_u8};

#[test]
fn test_parse_time_value_seconds() {
    assert_eq!(parse_time_value("60s"), 60);
    assert_eq!(parse_time_value("60"), 60);
    assert_eq!(parse_time_value("0s"), 0);
}

#[test]
fn test_parse_time_value_minutes() {
    assert_eq!(parse_time_value("1m"), 60);
    assert_eq!(parse_time_value("30m"), 1800);
    assert_eq!(parse_time_value("0m"), 0);
}

#[test]
fn test_parse_time_value_hours() {
    assert_eq!(parse_time_value("1h"), 3600);
    assert_eq!(parse_time_value("24h"), 86400);
    assert_eq!(parse_time_value("0h"), 0);
}

#[test]
fn test_parse_time_value_days() {
    assert_eq!(parse_time_value("1d"), 86_400);
    assert_eq!(parse_time_value("7d"), 604_800);
    assert_eq!(parse_time_value("0d"), 0);
}

#[test]
fn test_parse_time_value_edge_cases() {
    assert_eq!(parse_time_value(""), 0);
    assert_eq!(parse_time_value("  2h  "), 7200);
    assert_eq!(parse_time_value("invalid"), 0);
}

#[test]
fn time_value_saturates_and_is_lenient() {
    assert_eq!(parse_time_value("100000d"), u32::MAX);
    assert_eq!(parse_time_value("h"), 0);
    assert_eq!(parse_time_value("+5m"), 300);
    assert_eq!(parse_time_value("-5m"), 0);
    assert_eq!(parse_time_value("2 h"), 0);
}

#[test]
fn numbers_read_as_std_does() {
    assert_eq!(parse_u32("4294967295"), Some(u32::MAX));
    assert_eq!(parse_u32("4294967296"), None);
    assert_eq!(parse_u32("+7"), Some(7));
    assert_eq!(parse_u32("+"), None);
    assert_eq!(parse_u32(""), None);
    assert_eq!(parse_u8("255"), Some(255));
    assert_eq!(parse_u8("256"), None);
    assert_eq!(parse_i8("-128"), Some(-128));
    assert_eq!(parse_i8("127"), Some(127));
    assert_eq!(parse_i8("128"), None);
    assert_eq!(parse_i8("-129"), None);
    assert_eq!(parse_i8("-"), None);
    for s in ["0", "12", "+3", "-4", "x", "1x", "-0"] {
        assert_eq!(parse_i8(s), s.parse::<i8>().ok());
        assert_eq!(parse_u8(s), s.parse::<u8>().ok());
    }
}

#[test]
fn channel_helpers() {
    assert!(is_channel_empty(""));
    assert!(is_channel_empty("\0\0"));
    assert!(!is_channel_empty("Public"));
    assert_eq!(parse_channel_index("3").ok(), Some(3));
    match parse_channel_index("general") {
        Err(CliError::ChannelNotFound(s)) => assert_eq!(s, "general"),
        other => panic!("unexpected {:?}", other),
    }
}

#[test]
fn channel_secrets() {
    let key = "000102030405060708090a0b0c0d0E0F";
    let s = parse_channel_secret("x", Some(key)).ok().unwrap();
    assert_eq!(s, (0u8..16).collect::<Vec<u8>>());
    assert!(matches!(parse_channel_secret("x", Some("0011")), Err(CliError::InvalidArgument(_))));
    assert!(matches!(parse_channel_secret("x", Some("zz")), Err(CliError::InvalidArgument(_))));
    assert_eq!(parse_channel_secret("plain", None).ok().unwrap(), vec![0u8; 16]);
    let hashed = parse_channel_secret("#test", None).ok().unwrap();
    assert_eq!(hashed.len(), 16);
    // SHA-256("#test") starts with 9c d8 fc ...
    assert_eq!(hashed, scope_key("#test"));
    assert_ne!(hashed, vec![0u8; 16]);
    // SHA-256("abc") begins ba7816bf8f01cfea414140de5dae2223.
    assert_eq!(
        scope_key("abc"),
        vec![0xba, 0x78, 0x16, 0xbf, 0x8f, 0x01, 0xcf, 0xea, 0x41, 0x41, 0x40, 0xde, 0x5d, 0xae, 0x22, 0x23]
    );
}

#[test]
fn argument_words() {
    assert_eq!(parse_bool_arg("ON"), Ok(true));
    assert_eq!(parse_bool_arg("yes"), Ok(true));
    assert_eq!(parse_bool_arg("0"), Ok(false));
    assert_eq!(parse_bool_arg("Off"), Ok(false));
    assert_eq!(
        parse_bool_arg("maybe"),
        Err("Invalid value: maybe. Use on/off, true/false, or 1/0".to_string())
    );
    assert_eq!(parse_telemetry_mode("Device").ok(), Some(1));
    assert_eq!(parse_telemetry_mode("2").ok(), Some(2));
    assert!(matches!(parse_telemetry_mode("often"), Err(CliError::InvalidArgument(_))));
    assert_eq!(stats_type_of(" radio "), StatsTypeArg::Radio);
    assert_eq!(stats_type_of("packets"), StatsTypeArg::Packets);
    assert_eq!(stats_type_of(""), StatsTypeArg::Core);
}
