//! Verified core of a serial dome controller: the controller's reply
//! protocol, the configuration rules, the settings form and the state
//! machine that drives the motor commands and the connection.

pub mod app;
pub mod config;
pub mod decimal;
pub mod protocol;
pub mod serial;
pub mod settings;
