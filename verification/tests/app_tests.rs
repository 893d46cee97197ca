use domectrl::app::{
    response_text, AppState, CmdKey, HoldState, HoldTick, Page, ReconnectTick, SettingsAction,
    LOG_LIMIT,
};
use domectrl::config::Config;
use domectrl::protocol::DomeResponse;
use domectrl::serial::{RxEvent, SerialConn};

fn fresh() -> AppState {
    AppState::new(Config::with_config_dir("/cfg".to_string()), None)
}

fn connected() -> AppState {
    let mut s = fresh();
    s.conn = SerialConn::Connected;
    s
}

fn log_lines(s: &AppState) -> Vec<String> {
    s.log.iter().cloned().collect()
}

#[test]
fn starts_idle_on_main_page() {
    let s = AppState::new(Config::with_config_dir("/cfg".to_string()), Some("oops".to_string()));
    assert_eq!(s.page, Page::Main);
    assert!(matches!(s.conn, SerialConn::Disconnected));
    assert_eq!(s.hold, HoldState::Idle);
    assert_eq!(s.response, DomeResponse::Unknown);
    assert!(s.log.is_empty());
    assert_eq!(s.banner, Some("oops".to_string()));
    assert!(s.settings_state.is_none());
}

#[test]
fn command_characters_come_from_the_settings() {
    let mut cfg = Config::with_config_dir("/cfg".to_string());
    assert_eq!(CmdKey::LowerA.to_char(&cfg), 'a');
    assert_eq!(CmdKey::LowerB.to_char(&cfg), 'b');
    assert_eq!(CmdKey::RaiseA.to_char(&cfg), 'A');
    assert_eq!(CmdKey::RaiseB.to_char(&cfg), 'B');
    cfg.cmd_raise_a = String::new();
    assert_eq!(CmdKey::RaiseA.to_char(&cfg), '?');
    cfg.cmd_raise_b = "xyz".to_string();
    assert_eq!(CmdKey::RaiseB.to_char(&cfg), 'x');
}

#[test]
fn retrying_without_auto_reconnect_becomes_error() {
    let mut s = fresh();
    s.conn = SerialConn::Reconnecting { reason: "cable".to_string(), reconnect_at: 10 };
    s.logic();
    assert!(matches!(&s.conn, SerialConn::Reconnecting { .. }));
    s.cfg.auto_reconnect = false;
    s.logic();
    match &s.conn {
        SerialConn::Error(e) => assert_eq!(e, "cable"),
        _ => panic!("expected error"),
    }
}

#[test]
fn holding_a_button_sends_its_command() {
    let mut s = connected();
    s.motor_button_input(CmdKey::LowerA, true, true, 1000);
    assert_eq!(s.hold, HoldState::Sending { cmd_key: CmdKey::LowerA, next_send: 1000 });
    assert!(s.is_held(CmdKey::LowerA));
    s.motor_button_input(CmdKey::LowerA, true, true, 1500);
    assert_eq!(s.hold, HoldState::Sending { cmd_key: CmdKey::LowerA, next_send: 1000 });
    s.motor_button_input(CmdKey::LowerB, false, true, 1500);
    assert_eq!(s.hold, HoldState::Sending { cmd_key: CmdKey::LowerA, next_send: 1000 });
    s.motor_button_input(CmdKey::LowerA, false, true, 1600);
    assert_eq!(s.hold, HoldState::Idle);
}

#[test]
fn only_one_command_at_a_time() {
    let mut s = connected();
    s.motor_button_input(CmdKey::RaiseA, true, true, 10);
    s.motor_button_input(CmdKey::RaiseB, true, true, 20);
    assert!(s.is_held(CmdKey::RaiseB));
    assert!(!s.is_held(CmdKey::RaiseA));
}

#[test]
fn abort_stops_the_motor_but_keeps_the_link() {
    let mut s = connected();
    s.motor_button_input(CmdKey::RaiseA, true, true, 10);
    s.abort();
    assert_eq!(s.hold, HoldState::Idle);
    assert!(s.conn.is_connected());
}

#[test]
fn sending_is_paced_by_the_send_interval() {
    let mut s = connected();
    assert_eq!(s.hold_tick(0), HoldTick::Idle);
    s.motor_button_input(CmdKey::LowerA, true, true, 1000);
    assert_eq!(s.hold_tick(1000), HoldTick::Send { byte: b'a' });
    s.hold_write_finished(1000, Ok(()), 1001);
    assert_eq!(s.hold, HoldState::Sending { cmd_key: CmdKey::LowerA, next_send: 1100 });
    assert_eq!(s.hold_tick(1050), HoldTick::Wait { until: 1100 });
    assert_eq!(s.hold_tick(1100), HoldTick::Send { byte: b'a' });
}

#[test]
fn command_byte_is_the_low_byte_of_the_character() {
    let mut s = connected();
    s.cfg.cmd_raise_b = "€".to_string();
    s.motor_button_input(CmdKey::RaiseB, true, true, 0);
    assert_eq!(s.hold_tick(0), HoldTick::Send { byte: '€' as u32 as u8 });
    assert_eq!(s.hold_tick(0), HoldTick::Send { byte: 0xAC });
    s.cfg.cmd_raise_b = String::new();
    assert_eq!(s.hold_tick(0), HoldTick::Send { byte: b'?' });
}

#[test]
fn failed_write_starts_retrying() {
    let mut s = connected();
    s.motor_button_input(CmdKey::LowerB, true, true, 0);
    s.hold_write_finished(0, Err("gone".to_string()), 5);
    assert_eq!(s.hold, HoldState::Idle);
    match &s.conn {
        SerialConn::Reconnecting { reason, reconnect_at } => {
            assert_eq!(reason, "gone");
            assert_eq!(*reconnect_at, 3005);
        }
        _ => panic!("expected retrying"),
    }
    assert_eq!(s.reconnect_tick(3004), ReconnectTick::Wait);
    assert_eq!(s.reconnect_tick(3005), ReconnectTick::Attempt);
}

#[test]
fn failed_write_without_auto_reconnect_is_an_error() {
    let mut s = connected();
    s.cfg.auto_reconnect = false;
    s.motor_button_input(CmdKey::LowerB, true, true, 0);
    s.hold_write_finished(0, Err("gone".to_string()), 5);
    assert_eq!(s.hold, HoldState::Idle);
    match &s.conn {
        SerialConn::Error(e) => assert_eq!(e, "gone"),
        _ => panic!("expected error"),
    }
    assert_eq!(s.reconnect_tick(99999), ReconnectTick::Idle);
}

#[test]
fn failed_retry_keeps_the_first_reason() {
    let mut s = fresh();
    s.conn = SerialConn::Reconnecting { reason: "cable".to_string(), reconnect_at: 100 };
    s.reconnect_finished(false, 200);
    match &s.conn {
        SerialConn::Reconnecting { reason, reconnect_at } => {
            assert_eq!(reason, "cable");
            assert_eq!(*reconnect_at, 3200);
        }
        _ => panic!("expected retrying"),
    }
    s.reconnect_finished(true, 3300);
    assert!(s.conn.is_connected());
}

#[test]
fn connection_button_disconnects_and_cancels() {
    let mut s = connected();
    assert_eq!(s.connection_button_label(), "Disconnect");
    s.motor_button_input(CmdKey::LowerA, true, true, 0);
    assert!(!s.connection_button_clicked());
    assert!(matches!(s.conn, SerialConn::Disconnected));
    assert_eq!(s.hold, HoldState::Idle);
    assert_eq!(s.reconnect_tick(1_000_000), ReconnectTick::Idle);

    s.conn = SerialConn::Reconnecting { reason: "r".to_string(), reconnect_at: 0 };
    assert_eq!(s.connection_button_label(), "Cancel");
    assert!(!s.connection_button_clicked());
    assert!(matches!(s.conn, SerialConn::Disconnected));
}

#[test]
fn connection_button_asks_to_connect() {
    let mut s = fresh();
    assert_eq!(s.connection_button_label(), "Connect");
    assert!(s.connection_button_clicked());
    s.connect_finished(Err("Failed to open COM4: no such port".to_string()));
    match &s.conn {
        SerialConn::Error(e) => assert_eq!(e, "Failed to open COM4: no such port"),
        _ => panic!("expected error"),
    }
    assert_eq!(s.connection_button_label(), "Connect");
    assert!(s.connection_button_clicked());
    s.connect_finished(Ok(()));
    assert!(s.conn.is_connected());
}

#[test]
fn status_lines() {
    let mut s = connected();
    assert_eq!(s.status_text(0), "CONNECTED");
    s.conn = SerialConn::Reconnecting { reason: "r".to_string(), reconnect_at: 12_500 };
    assert_eq!(s.status_text(10_000), "Reconnecting…  (2s)");
    assert_eq!(s.status_text(20_000), "Reconnecting…  (0s)");
    s.conn = SerialConn::Error("bad".to_string());
    assert_eq!(s.status_text(0), "ERROR: bad");
    s.conn = SerialConn::Disconnected;
    assert_eq!(s.status_text(0), "DISCONNECTED");
}

#[test]
fn response_lines() {
    assert_eq!(response_text(DomeResponse::Open), "OPEN detected  (Y)");
    assert_eq!(response_text(DomeResponse::Closed), "CLOSED detected  (X)");
    assert_eq!(response_text(DomeResponse::Unknown), "—");
}

#[test]
fn received_chunks_set_the_report_and_fill_the_log() {
    let mut s = connected();
    s.receive_events(
        vec![RxEvent::Data(b"X".to_vec()), RxEvent::Data(b"Y".to_vec()), RxEvent::Data(b"ok".to_vec())],
        0,
    );
    assert_eq!(s.response, DomeResponse::Open);
    assert_eq!(log_lines(&s), vec!["X".to_string(), "Y".to_string(), "ok".to_string()]);
}

#[test]
fn invalid_utf8_is_logged_with_replacement() {
    let mut s = connected();
    s.receive_events(vec![RxEvent::Data(vec![b'a', 0xff, b'b'])], 0);
    assert_eq!(log_lines(&s), vec!["a\u{fffd}b".to_string()]);
    assert_eq!(s.response, DomeResponse::Unknown);
}

#[test]
fn nothing_is_taken_in_while_not_connected() {
    let mut s = fresh();
    s.receive_events(vec![RxEvent::Data(b"Y".to_vec())], 0);
    assert_eq!(s.response, DomeResponse::Unknown);
    assert!(s.log.is_empty());
}

#[test]
fn a_failure_ends_the_events() {
    let mut s = connected();
    s.motor_button_input(CmdKey::LowerA, true, true, 0);
    s.receive_events(
        vec![
            RxEvent::Data(b"Y".to_vec()),
            RxEvent::Error("unplugged".to_string()),
            RxEvent::Data(b"X".to_vec()),
        ],
        100,
    );
    assert_eq!(s.response, DomeResponse::Open);
    assert_eq!(log_lines(&s), vec!["Y".to_string()]);
    assert_eq!(s.hold, HoldState::Idle);
    match &s.conn {
        SerialConn::Reconnecting { reason, reconnect_at } => {
            assert_eq!(reason, "unplugged");
            assert_eq!(*reconnect_at, 3100);
        }
        _ => panic!("expected retrying"),
    }
}

#[test]
fn log_keeps_the_last_lines() {
    let mut s = connected();
    let events: Vec<RxEvent> = (0..LOG_LIMIT + 5).map(|i| RxEvent::Data(i.to_string().into_bytes())).collect();
    s.receive_events(events, 0);
    assert_eq!(s.log.len(), 200);
    assert_eq!(s.log.front().map(|l| l.as_str()), Some("5"));
    assert_eq!(s.log.back().map(|l| l.as_str()), Some("204"));
}

#[test]
fn save_result_shows_in_banner() {
    let mut s = fresh();
    s.record_save_result(Err("Write error: denied".to_string()));
    assert_eq!(s.banner, Some("Write error: denied".to_string()));
    s.record_save_result(Ok(()));
    assert_eq!(s.banner, None);
}

#[test]
fn settings_form_opens_once() {
    let mut s = fresh();
    s.open_settings(vec!["COM1".to_string()]);
    s.settings_state.as_mut().unwrap().port_input = "COM9".to_string();
    s.open_settings(vec!["COM2".to_string()]);
    let f = s.settings_state.as_ref().unwrap();
    assert_eq!(f.port_input, "COM9");
    assert_eq!(f.available_ports, vec!["COM1".to_string()]);
}

#[test]
fn apply_takes_a_valid_form() {
    let mut s = fresh();
    s.page = Page::Settings;
    s.open_settings(Vec::new());
    s.settings_state.as_mut().unwrap().errors = vec!["old".to_string()];
    s.settings_state.as_mut().unwrap().baud_input = "115200".to_string();
    assert!(!s.settings_action(SettingsAction::Apply));
    assert_eq!(s.cfg.baud_rate, 115200);
    assert!(s.settings_state.as_ref().unwrap().errors.is_empty());
    assert_eq!(s.page, Page::Settings);
}

#[test]
fn invalid_form_keeps_the_settings() {
    let mut s = fresh();
    s.page = Page::Settings;
    s.open_settings(Vec::new());
    s.settings_state.as_mut().unwrap().baud_input = "fast".to_string();
    s.settings_state.as_mut().unwrap().port_input = "COM9".to_string();
    assert!(!s.settings_action(SettingsAction::Back));
    assert_eq!(s.page, Page::Settings);
    assert_eq!(s.cfg.port, "COM4");
    assert_eq!(
        s.settings_state.as_ref().unwrap().errors,
        vec!["Baud rate: must be a positive integer".to_string()]
    );
}

#[test]
fn back_closes_the_form() {
    let mut s = fresh();
    s.page = Page::Settings;
    s.open_settings(Vec::new());
    s.settings_state.as_mut().unwrap().send_interval_input = "5".to_string();
    assert!(!s.settings_action(SettingsAction::Back));
    assert_eq!(s.page, Page::Main);
    assert!(s.settings_state.is_none());
    assert_eq!(s.cfg.send_interval_ms, 10);
}

#[test]
fn save_to_file_asks_for_a_file() {
    let mut s = fresh();
    s.page = Page::Settings;
    s.open_settings(Vec::new());
    s.settings_state.as_mut().unwrap().port_input = "COM2".to_string();
    assert!(s.settings_action(SettingsAction::SaveToFile));
    assert_eq!(s.cfg.port, "COM2");
    s.settings_save_failed("Write error: denied".to_string());
    assert_eq!(
        s.settings_state.as_ref().unwrap().errors,
        vec!["Write error: denied".to_string()]
    );
    assert_eq!(s.page, Page::Settings);
}

#[test]
fn leaving_the_button_releases_it() {
    let mut s = connected();
    s.motor_button_input(CmdKey::RaiseA, true, true, 0);
    assert!(s.is_held(CmdKey::RaiseA));
    s.motor_button_input(CmdKey::RaiseA, true, false, 50);
    assert_eq!(s.hold, HoldState::Idle);
}

#[test]
fn buttons_do_nothing_while_not_connected() {
    let mut s = fresh();
    s.motor_button_input(CmdKey::LowerA, true, true, 0);
    assert_eq!(s.hold, HoldState::Idle);
    s.conn = SerialConn::Reconnecting { reason: "r".to_string(), reconnect_at: 0 };
    s.motor_button_input(CmdKey::LowerA, true, true, 0);
    assert_eq!(s.hold, HoldState::Idle);
}

#[test]
fn load_config_uses_the_configured_directory() {
    let mut s = fresh();
    s.cfg.config_dir = "/data/dome".to_string();
    assert_eq!(s.config_file_path(), std::path::PathBuf::from("/data/dome").join("config.json"));
}

#[test]
fn loaded_invalid_file_falls_back_to_defaults() {
    let mut s = fresh();
    let mut bad = Config::with_config_dir("/cfg".to_string());
    bad.port = "COM9".to_string();
    bad.cmd_lower_a = "ab".to_string();
    s.config_loaded(Config::with_config_dir("/cfg".to_string()), domectrl::config::ConfigLoad::Parsed(bad));
    assert_eq!(s.cfg.port, "COM4");
    assert_eq!(
        s.banner,
        Some("Config invalid (using defaults): cmd_lower_a: must be exactly 1 printable ASCII character".to_string())
    );
}
