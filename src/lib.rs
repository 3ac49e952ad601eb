//! Decisions of a small MQTT device agent: which topics it uses, how control
//! commands are decoded and answered, and how status records are encoded.
//! The transport itself (TLS session, polling, publishing) is driven by the
//! caller, which performs the actions that this library returns.

pub mod agent;
pub mod command;
pub mod status;
