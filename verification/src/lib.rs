//! Decision core of a background-service plugin.
//!
//! A host application runs a long-lived service and wants it to survive what
//! mobile and desktop platforms do to background work. This crate decides what
//! happens: when a start is refused, what a stop means for recovery, how the
//! manager's belief follows the native side, and what a status query reports.
//! All of it is verified; the host carries out the decisions.

pub mod bridge;
pub mod config;
pub mod desired_state;
pub mod double;
pub mod error;
pub mod handle;
pub mod json;
pub mod laws;
pub mod manager;
pub mod models;
pub mod notifier;
pub mod policy;
pub mod run_laws;
pub mod status;
pub mod status_laws;
pub mod task;
pub mod text;
pub mod token;
pub mod validator;
