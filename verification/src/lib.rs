//! Audit and repair of a device fleet that is registered with an update server.
//!
//! The crate plans every request of a fleet sweep and decides what each answer
//! means; sending the requests is left to the caller.

pub mod catalog;
pub mod client;
pub mod clock;
pub mod config;
pub mod endpoints;
pub mod error;
pub mod health;
pub mod json;
pub mod orchestrator;
pub mod pager;
pub mod reconcile;
pub mod remediate;
pub mod report;
pub mod request;
pub mod sweep;
pub mod text;
pub mod types;
