use dsmr_reader::config::{resolve_credentials, resolve_qos, Config, EnvValues};
use dsmr_reader::text::is_blank;

fn no_vars() -> EnvValues {
    EnvValues {
        mqtt_host: None,
        mqtt_topic: None,
        mqtt_qos: None,
        serial_port: None,
        mqtt_username: None,
        mqtt_password: None,
    }
}

#[test]
fn defaults_when_nothing_is_set() {
    let c = Config::from_vars(no_vars());
    assert_eq!(c.mqtt_host, "tcp://10.10.10.13:1883");
    assert_eq!(c.mqtt_topic_prefix, "dsmr");
    assert_eq!(c.mqtt_qos, 0);
    assert_eq!(c.serial_port, "/dev/ttyUSB1");
    assert!(c.credentials.is_none());
}

#[test]
fn default_impl_matches_defaults() {
    let c = Config::default();
    assert_eq!(c.mqtt_host, "tcp://10.10.10.13:1883");
    assert_eq!(c.mqtt_topic_prefix, "dsmr");
    assert_eq!(c.mqtt_qos, 0);
    assert_eq!(c.serial_port, "/dev/ttyUSB1");
    assert!(c.credentials.is_none());
}

#[test]
fn given_values_override_defaults() {
    let mut v = no_vars();
    v.mqtt_host = Some("broker.local".to_string());
    v.mqtt_topic = Some("meter".to_string());
    v.serial_port = Some("/dev/ttyAMA0".to_string());
    v.mqtt_qos = Some("1".to_string());
    let c = Config::from_vars(v);
    assert_eq!(c.mqtt_host, "broker.local");
    assert_eq!(c.mqtt_topic_prefix, "meter");
    assert_eq!(c.serial_port, "/dev/ttyAMA0");
    assert_eq!(c.mqtt_qos, 1);
    assert_eq!(c.qos(), Some(rumqttc::QoS::AtLeastOnce));
}

#[test]
fn bogus_qos_falls_back_to_default() {
    let mut v = no_vars();
    v.mqtt_qos = Some("bogus".to_string());
    let c = Config::from_vars(v);
    assert_eq!(c.mqtt_qos, 0);
    assert_eq!(c.qos(), Some(rumqttc::QoS::AtMostOnce));
}

#[test]
fn qos_levels_parse() {
    assert_eq!(resolve_qos(&Some("0".to_string())), 0);
    assert_eq!(resolve_qos(&Some("1".to_string())), 1);
    assert_eq!(resolve_qos(&Some("2".to_string())), 2);
    assert_eq!(resolve_qos(&Some("+2".to_string())), 2);
    assert_eq!(resolve_qos(&None), 0);
}

#[test]
fn parsable_qos_is_kept_without_range_check() {
    assert_eq!(resolve_qos(&Some("3".to_string())), 3);
    assert_eq!(resolve_qos(&Some("-1".to_string())), -1);
    let mut v = no_vars();
    v.mqtt_qos = Some("5".to_string());
    let c = Config::from_vars(v);
    assert_eq!(c.mqtt_qos, 5);
    assert_eq!(c.qos(), None);
}

#[test]
fn unparsable_qos_falls_back() {
    assert_eq!(resolve_qos(&Some(" 1".to_string())), 0);
    assert_eq!(resolve_qos(&Some("".to_string())), 0);
    assert_eq!(resolve_qos(&Some("99999999999".to_string())), 0);
}

#[test]
fn qos_two_is_exactly_once() {
    let mut v = no_vars();
    v.mqtt_qos = Some("2".to_string());
    assert_eq!(Config::from_vars(v).qos(), Some(rumqttc::QoS::ExactlyOnce));
}

#[test]
fn one_blank_credential_gives_none() {
    let mut v = no_vars();
    v.mqtt_username = Some("user".to_string());
    v.mqtt_password = Some("   ".to_string());
    assert!(Config::from_vars(v).credentials.is_none());

    let mut v = no_vars();
    v.mqtt_username = Some("".to_string());
    v.mqtt_password = Some("secret".to_string());
    assert!(Config::from_vars(v).credentials.is_none());
}

#[test]
fn both_credentials_are_kept() {
    let mut v = no_vars();
    v.mqtt_username = Some("user".to_string());
    v.mqtt_password = Some("secret".to_string());
    let c = Config::from_vars(v);
    assert_eq!(c.credentials, Some(("user".to_string(), "secret".to_string())));
}

#[test]
fn one_missing_credential_gives_none() {
    assert!(resolve_credentials(Some("user".to_string()), None).is_none());
    assert!(resolve_credentials(None, Some("secret".to_string())).is_none());
}

#[test]
fn blank_text() {
    assert!(is_blank(""));
    assert!(is_blank(" \t\r\n"));
    assert!(is_blank("\u{3000}\u{a0}"));
    assert!(!is_blank(" x "));
    assert!(!is_blank("user"));
}
