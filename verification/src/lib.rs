//! Core of a relay-command bridge: authenticated HTTP commands addressed to
//! individual devices are republished as messages on a publish/subscribe
//! broker. This crate holds the verified pipeline — request authentication,
//! command validation, topic and payload construction, response mapping, and
//! the broker-connection supervisor's retry state machine. The surrounding
//! process (HTTP server, broker client, configuration) drives these functions
//! from outside.

pub mod auth;
pub mod command;
pub mod gateway;
pub mod handler;
pub mod laws;
pub mod supervisor;
