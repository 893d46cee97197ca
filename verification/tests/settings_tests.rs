use domectrl::config::Config;
use domectrl::settings::SettingsState;

fn defaults() -> Config {
    Config::with_config_dir("/cfg".to_string())
}

#[test]
fn form_shows_the_settings() {
    let f = SettingsState::from_config(&defaults(), vec!["/dev/ttyUSB0".to_string()]);
    assert_eq!(f.port_input, "COM4");
    assert_eq!(f.baud_input, "9600");
    assert_eq!(f.send_interval_input, "100");
    assert_eq!(f.reconnect_interval_input, "3000");
    assert_eq!(f.cmd_lower_a, "a");
    assert_eq!(f.cmd_raise_b, "B");
    assert_eq!(f.config_dir_input, "/cfg");
    assert!(f.auto_reconnect);
    assert!(f.errors.is_empty());
    assert_eq!(f.available_ports, vec!["/dev/ttyUSB0".to_string()]);
}

#[test]
fn untouched_form_gives_back_the_settings() {
    let mut original = defaults();
    original.port = "/dev/ttyACM0".to_string();
    original.send_interval_ms = 250;
    let f = SettingsState::from_config(&original, Vec::new());
    let mut target = Config::with_config_dir("/elsewhere".to_string());
    target.baud_rate = 1;
    let errors = f.apply_to_config(&mut target);
    assert!(errors.is_empty());
    assert_eq!(target.port, "/dev/ttyACM0");
    assert_eq!(target.baud_rate, 9600);
    assert_eq!(target.send_interval_ms, 250);
    assert_eq!(target.reconnect_interval_ms, 3000);
    assert_eq!(target.config_dir, "/cfg");
}

#[test]
fn applied_form_is_clamped() {
    let mut f = SettingsState::from_config(&defaults(), Vec::new());
    f.send_interval_input = "1".to_string();
    f.reconnect_interval_input = "+99999".to_string();
    let mut c = defaults();
    let errors = f.apply_to_config(&mut c);
    assert!(errors.is_empty());
    assert_eq!(c.send_interval_ms, 10);
    assert_eq!(c.reconnect_interval_ms, 30000);
}

#[test]
fn bad_numbers_are_reported_in_order() {
    let mut f = SettingsState::from_config(&defaults(), Vec::new());
    f.baud_input = "0".to_string();
    f.send_interval_input = "fast".to_string();
    f.reconnect_interval_input = "-5".to_string();
    let mut c = defaults();
    let errors = f.apply_to_config(&mut c);
    assert_eq!(
        errors,
        vec![
            "Baud rate: must be a positive integer".to_string(),
            "Send interval: must be an integer".to_string(),
            "Reconnect interval: must be an integer".to_string(),
        ]
    );
    assert_eq!(c.baud_rate, 9600);
    assert_eq!(c.send_interval_ms, 100);
    assert_eq!(c.reconnect_interval_ms, 3000);
}

#[test]
fn bad_command_is_reported_and_nothing_clamped() {
    let mut f = SettingsState::from_config(&defaults(), Vec::new());
    f.cmd_lower_b = "bb".to_string();
    f.send_interval_input = "1".to_string();
    let mut c = defaults();
    let errors = f.apply_to_config(&mut c);
    assert_eq!(errors, vec!["cmd_lower_b: must be exactly 1 printable ASCII character".to_string()]);
    assert_eq!(c.send_interval_ms, 1);
    assert_eq!(c.cmd_lower_b, "bb");
}

#[test]
fn zero_baud_in_target_is_reported_twice_when_input_is_bad() {
    let mut f = SettingsState::from_config(&defaults(), Vec::new());
    f.baud_input = "x".to_string();
    let mut c = defaults();
    c.baud_rate = 0;
    let errors = f.apply_to_config(&mut c);
    assert_eq!(
        errors,
        vec![
            "Baud rate: must be a positive integer".to_string(),
            "Baud rate must be a positive integer".to_string(),
        ]
    );
}

#[test]
fn applied_form_is_usable() {
    let mut f = SettingsState::from_config(&defaults(), Vec::new());
    f.send_interval_input = "99999".to_string();
    f.reconnect_interval_input = "0".to_string();
    f.cmd_raise_a = "R".to_string();
    let mut c = defaults();
    assert!(f.apply_to_config(&mut c).is_empty());
    assert!(domectrl::config::validate_config(&c).is_empty());
    assert!((10..=2000).contains(&c.send_interval_ms));
    assert!((500..=30000).contains(&c.reconnect_interval_ms));
    assert_eq!(c.cmd_raise_a, "R");
}
