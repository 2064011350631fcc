//! Bridges a DSMR smart-meter telegram stream to an MQTT broker.
//!
//! The library holds the decisions of the bridge: how the configuration is
//! resolved from environment values, how the data objects of one telegram fold
//! into a set of measurements and then into outbound messages, and the two state
//! machines that drive the publish pipeline and the connection supervisor. The
//! serial port, the broker connection and the timers are driven by the caller.

pub mod config;
pub mod measurement;
pub mod pipeline;
pub mod supervisor;
pub mod tags;
pub mod text;
