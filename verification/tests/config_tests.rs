use domectrl::config::{
    clamp_config, config_path, settle_config_load, validate_config, Config, ConfigLoad,
};
use std::path::PathBuf;

fn defaults() -> Config {
    Config::with_config_dir("/home/u/.config/domectrl".to_string())
}

#[test]
fn defaults_match_the_documented_table() {
    let c = defaults();
    assert_eq!(c.port, "COM4");
    assert_eq!(c.baud_rate, 9600);
    assert_eq!(c.send_interval_ms, 100);
    assert!(c.auto_reconnect);
    assert_eq!(c.reconnect_interval_ms, 3000);
    assert_eq!(c.cmd_lower_a, "a");
    assert_eq!(c.cmd_lower_b, "b");
    assert_eq!(c.cmd_raise_a, "A");
    assert_eq!(c.cmd_raise_b, "B");
    assert_eq!(c.config_dir, "/home/u/.config/domectrl");
}

#[test]
fn defaults_are_valid() {
    assert!(validate_config(&defaults()).is_empty());
}

#[test]
fn zero_baud_rate_is_refused() {
    let mut c = defaults();
    c.baud_rate = 0;
    assert_eq!(validate_config(&c), vec!["Baud rate must be a positive integer".to_string()]);
}

#[test]
fn commands_must_be_one_printable_ascii_character() {
    let bad = ["", "ab", "é", "\t", "\u{7f}", "\n"];
    for b in bad {
        let mut c = defaults();
        c.cmd_raise_b = b.to_string();
        assert_eq!(
            validate_config(&c),
            vec!["cmd_raise_b: must be exactly 1 printable ASCII character".to_string()],
            "input {:?}",
            b
        );
    }
    for good in [" ", "~", "z", "0"] {
        let mut c = defaults();
        c.cmd_lower_a = good.to_string();
        assert!(validate_config(&c).is_empty());
    }
}

#[test]
fn errors_come_in_check_order() {
    let mut c = defaults();
    c.baud_rate = 0;
    c.cmd_lower_a = String::new();
    c.cmd_raise_a = "xx".to_string();
    assert_eq!(
        validate_config(&c),
        vec![
            "Baud rate must be a positive integer".to_string(),
            "cmd_lower_a: must be exactly 1 printable ASCII character".to_string(),
            "cmd_raise_a: must be exactly 1 printable ASCII character".to_string(),
        ]
    );
}

#[test]
fn clamping_brings_intervals_into_range() {
    let mut c = defaults();
    c.send_interval_ms = 5;
    c.reconnect_interval_ms = 40000;
    clamp_config(&mut c);
    assert_eq!(c.send_interval_ms, 10);
    assert_eq!(c.reconnect_interval_ms, 30000);
    c.send_interval_ms = 5000;
    c.reconnect_interval_ms = 1;
    clamp_config(&mut c);
    assert_eq!(c.send_interval_ms, 2000);
    assert_eq!(c.reconnect_interval_ms, 500);
    c.send_interval_ms = 250;
    c.reconnect_interval_ms = 1234;
    clamp_config(&mut c);
    assert_eq!(c.send_interval_ms, 250);
    assert_eq!(c.reconnect_interval_ms, 1234);
    assert_eq!(c.port, "COM4");
}

#[test]
fn clamping_twice_is_clamping_once() {
    let mut c = defaults();
    c.send_interval_ms = 3;
    clamp_config(&mut c);
    let once = (c.send_interval_ms, c.reconnect_interval_ms);
    clamp_config(&mut c);
    assert_eq!((c.send_interval_ms, c.reconnect_interval_ms), once);
}

#[test]
fn config_file_lives_in_config_dir() {
    let c = Config::with_config_dir("/tmp/dome".to_string());
    assert_eq!(config_path(&c), PathBuf::from("/tmp/dome").join("config.json"));
    assert_eq!(config_path(&c), PathBuf::from("/tmp/dome/config.json"));
}

#[test]
fn clone_keeps_every_field() {
    let mut c = defaults();
    c.port = "/dev/ttyUSB0".to_string();
    let d = c.clone();
    assert_eq!(d.port, "/dev/ttyUSB0");
    assert_eq!(d.baud_rate, c.baud_rate);
    assert_eq!(d.cmd_raise_b, c.cmd_raise_b);
}

#[test]
fn missing_file_gives_defaults_quietly() {
    let (c, banner) = settle_config_load(defaults(), ConfigLoad::Missing);
    assert_eq!(c.port, "COM4");
    assert_eq!(banner, None);
}

#[test]
fn unreadable_file_gives_defaults_with_reason() {
    let (c, banner) = settle_config_load(defaults(), ConfigLoad::ReadFailed("denied".to_string()));
    assert_eq!(c.baud_rate, 9600);
    assert_eq!(banner, Some("Could not read config: denied".to_string()));
}

#[test]
fn unparseable_file_gives_defaults_with_reason() {
    let (c, banner) = settle_config_load(defaults(), ConfigLoad::ParseFailed("line 1".to_string()));
    assert_eq!(c.cmd_lower_a, "a");
    assert_eq!(banner, Some("Config parse error (using defaults): line 1".to_string()));
}

#[test]
fn parsed_file_is_used() {
    let mut loaded = defaults();
    loaded.port = "COM7".to_string();
    let (c, banner) = settle_config_load(defaults(), ConfigLoad::Parsed(loaded));
    assert_eq!(c.port, "COM7");
    assert_eq!(banner, None);
}

#[test]
fn parsed_file_out_of_range_is_clamped() {
    let mut loaded = defaults();
    loaded.send_interval_ms = 0;
    loaded.reconnect_interval_ms = 100;
    let (c, banner) = settle_config_load(defaults(), ConfigLoad::Parsed(loaded));
    assert_eq!(c.send_interval_ms, 10);
    assert_eq!(c.reconnect_interval_ms, 500);
    assert_eq!(banner, None);
}

#[test]
fn parsed_file_breaking_the_rules_gives_defaults() {
    let mut loaded = defaults();
    loaded.send_interval_ms = 0;
    loaded.reconnect_interval_ms = 100;
    loaded.cmd_lower_a = "ab".to_string();
    loaded.baud_rate = 0;
    let (c, banner) = settle_config_load(defaults(), ConfigLoad::Parsed(loaded));
    assert_eq!(c.send_interval_ms, 100);
    assert_eq!(c.reconnect_interval_ms, 3000);
    assert_eq!(c.cmd_lower_a, "a");
    assert!(validate_config(&c).is_empty());
    assert_eq!(
        banner,
        Some(
            "Config invalid (using defaults): Baud rate must be a positive integer; \
cmd_lower_a: must be exactly 1 printable ASCII character"
                .to_string()
        )
    );
}

#[test]
fn config_derives_debug() {
    let text = format!("{:?}", defaults());
    assert!(text.contains("COM4"));
}
