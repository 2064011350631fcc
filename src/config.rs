//! Settings of the bridge, resolved from environment values.

use vstd::prelude::*;
use crate::text::{is_blank, is_blank_text, parse_i32, i32_of_text};

verus! {

/// Relies on `rumqttc::qos`: levels 0, 1 and 2 map to at-most-once,
/// at-least-once and exactly-once; every other level is refused.
#[verifier::external_body]
pub(crate) fn qos_from_level(level: u8) -> (r: Option<rumqttc::QoS>)
    ensures
        r == qos_of_level(level as int),
{
    rumqttc::qos(level).ok()
}

/// The broker client's quality-of-service levels, `rumqttc::QoS`, a plain enum
/// of three variants.
#[verifier::external_type_specification]
pub struct ExQoS(rumqttc::QoS);

/// The quality-of-service that a numeric level names, if any.
pub open spec fn qos_of_level(level: int) -> Option<rumqttc::QoS> {
    if level == 0 {
        Some(rumqttc::QoS::AtMostOnce)
    } else if level == 1 {
        Some(rumqttc::QoS::AtLeastOnce)
    } else if level == 2 {
        Some(rumqttc::QoS::ExactlyOnce)
    } else {
        None
    }
}

pub open spec fn default_host() -> Seq<char> {
    "tcp://10.10.10.13:1883"@
}

pub open spec fn default_topic_prefix() -> Seq<char> {
    "dsmr"@
}

pub open spec fn default_serial_port() -> Seq<char> {
    "/dev/ttyUSB1"@
}

pub const DEFAULT_QOS: i32 = 0;

/// A value given in the environment, or the default when it is absent.
pub open spec fn value_or(v: Option<Seq<char>>, default: Seq<char>) -> Seq<char> {
    match v {
        Some(s) => s,
        None => default,
    }
}

/// The quality-of-service level that an optional `MQTT_QOS` value selects: the
/// integer it denotes when it parses as an `i32`, else the default.
pub open spec fn qos_level_of(v: Option<Seq<char>>) -> int {
    match v {
        Some(s) => match i32_of_text(s) {
            Some(n) => n,
            None => DEFAULT_QOS as int,
        },
        None => DEFAULT_QOS as int,
    }
}

/// A credential value counts only when it is present and not blank.
pub open spec fn usable(v: Option<Seq<char>>) -> bool {
    v matches Some(s) && !is_blank_text(s)
}

/// Credentials are used only when both halves are usable.
pub open spec fn credentials_of(user: Option<Seq<char>>, pass: Option<Seq<char>>) -> Option<
    (Seq<char>, Seq<char>),
> {
    if usable(user) && usable(pass) {
        Some((user.unwrap(), pass.unwrap()))
    } else {
        None
    }
}

/// The settings of the bridge, loaded once at start-up.
pub struct Config {
    pub mqtt_host: String,
    pub mqtt_topic_prefix: String,
    pub mqtt_qos: i32,
    pub serial_port: String,
    pub credentials: Option<(String, String)>,
}

/// The environment values that a configuration is resolved from; `None` for a
/// variable that is not set.
pub struct EnvValues {
    pub mqtt_host: Option<String>,
    pub mqtt_topic: Option<String>,
    pub mqtt_qos: Option<String>,
    pub serial_port: Option<String>,
    pub mqtt_username: Option<String>,
    pub mqtt_password: Option<String>,
}

pub open spec fn opt_view(v: Option<String>) -> Option<Seq<char>> {
    match v {
        Some(s) => Some(s@),
        None => None,
    }
}

pub open spec fn creds_view(c: Option<(String, String)>) -> Option<(Seq<char>, Seq<char>)> {
    match c {
        Some((u, p)) => Some((u@, p@)),
        None => None,
    }
}

impl Config {
    /// The configuration that the given environment values select.
    pub open spec fn resolved(env: EnvValues) -> (Seq<char>, Seq<char>, int, Seq<char>, Option<
        (Seq<char>, Seq<char>),
    >) {
        (
            value_or(opt_view(env.mqtt_host), default_host()),
            value_or(opt_view(env.mqtt_topic), default_topic_prefix()),
            qos_level_of(opt_view(env.mqtt_qos)),
            value_or(opt_view(env.serial_port), default_serial_port()),
            credentials_of(opt_view(env.mqtt_username), opt_view(env.mqtt_password)),
        )
    }

    pub open spec fn view_tuple(&self) -> (Seq<char>, Seq<char>, int, Seq<char>, Option<
        (Seq<char>, Seq<char>),
    >) {
        (
            self.mqtt_host@,
            self.mqtt_topic_prefix@,
            self.mqtt_qos as int,
            self.serial_port@,
            creds_view(self.credentials),
        )
    }

    /// Resolves the configuration from environment values: each absent value
    /// takes its default, an `MQTT_QOS` that is not a valid level falls back to
    /// the default level, and the credentials are kept only when both are
    /// present and neither is blank.
    pub fn from_vars(env: EnvValues) -> (r: Config)
        ensures
            r.view_tuple() == Config::resolved(env),
    {
        let ghost g = env;
        let EnvValues {
            mqtt_host,
            mqtt_topic,
            mqtt_qos,
            serial_port,
            mqtt_username,
            mqtt_password,
        } = env;
        let mqtt_host = match mqtt_host {
            Some(s) => s,
            None => "tcp://10.10.10.13:1883".to_string(),
        };
        let mqtt_topic_prefix = match mqtt_topic {
            Some(s) => s,
            None => "dsmr".to_string(),
        };
        let serial_port = match serial_port {
            Some(s) => s,
            None => "/dev/ttyUSB1".to_string(),
        };
        let mqtt_qos = resolve_qos(&mqtt_qos);
        let credentials = resolve_credentials(mqtt_username, mqtt_password);
        proof {
            reveal_strlit("tcp://10.10.10.13:1883");
            reveal_strlit("dsmr");
            reveal_strlit("/dev/ttyUSB1");
        }
        Config { mqtt_host, mqtt_topic_prefix, mqtt_qos, serial_port, credentials }
    }

    /// The quality-of-service that every message is published with, when the
    /// configured level is one that the broker client knows.
    pub fn qos(&self) -> (r: Option<rumqttc::QoS>)
        ensures
            r == qos_of_level(self.mqtt_qos as int),
    {
        if 0 <= self.mqtt_qos && self.mqtt_qos <= 255 {
            qos_from_level(self.mqtt_qos as u8)
        } else {
            None
        }
    }
}

impl Default for Config {
    fn default() -> (r: Config)
        ensures
            r.mqtt_host@ == default_host(),
            r.mqtt_topic_prefix@ == default_topic_prefix(),
            r.mqtt_qos == DEFAULT_QOS,
            r.serial_port@ == default_serial_port(),
            r.credentials is None,
    {
        proof {
            reveal_strlit("tcp://10.10.10.13:1883");
            reveal_strlit("dsmr");
            reveal_strlit("/dev/ttyUSB1");
        }
        Config {
            mqtt_host: "tcp://10.10.10.13:1883".to_string(),
            mqtt_topic_prefix: "dsmr".to_string(),
            mqtt_qos: DEFAULT_QOS,
            serial_port: "/dev/ttyUSB1".to_string(),
            credentials: None,
        }
    }
}

/// The quality-of-service level that an `MQTT_QOS` value selects.
pub fn resolve_qos(v: &Option<String>) -> (r: i32)
    ensures
        r as int == qos_level_of(opt_view(*v)),
{
    match v {
        Some(s) => match parse_i32(s.as_str()) {
            Some(n) => n,
            None => DEFAULT_QOS,
        },
        None => DEFAULT_QOS,
    }
}

/// The credential pair, kept only when both values are present and not blank.
pub fn resolve_credentials(user: Option<String>, pass: Option<String>) -> (r: Option<
    (String, String),
>)
    ensures
        creds_view(r) == credentials_of(opt_view(user), opt_view(pass)),
{
    match (user, pass) {
        (Some(u), Some(p)) => {
            if !is_blank(u.as_str()) && !is_blank(p.as_str()) {
                Some((u, p))
            } else {
                None
            }
        },
        _ => None,
    }
}

} // verus!
