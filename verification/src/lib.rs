//! A verified core for building USSD applications against the Africa's
//! Talking gateway: request-path parsing, `CON`/`END` response formatting,
//! menu building, a session-flow state machine, carrier-code lookup, and
//! the request builders of the surrounding SDK.

pub mod airtime;
pub mod config;
pub mod data;
pub mod error;
pub mod flow;
pub mod handler;
pub mod network;
pub mod payments;
pub mod sms;
pub mod strutil;
pub mod voice;
pub mod types;
pub mod ussd;
