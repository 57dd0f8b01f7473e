use keylogger::config::{choose_default_device, log_file_or_default, Config};

#[test]
fn config_fields() {
    let c = Config::new("/dev/input/event3".to_string(), "out.log".to_string());
    assert_eq!(c.device_file, "/dev/input/event3");
    assert_eq!(c.log_file, "out.log");
}

#[test]
fn default_device_when_one_is_detected() {
    let got = choose_default_device(vec!["/dev/input/event2".to_string()]);
    assert_eq!(got.as_deref(), Some("/dev/input/event2"));
}

#[test]
fn no_default_device_unless_exactly_one() {
    assert_eq!(choose_default_device(vec![]), None);
    let two = vec!["/dev/input/event2".to_string(), "/dev/input/event5".to_string()];
    assert_eq!(choose_default_device(two), None);
}

#[test]
fn log_file_choice() {
    assert_eq!(log_file_or_default(None), "keys.log");
    assert_eq!(log_file_or_default(Some("x.log".to_string())), "x.log");
}
