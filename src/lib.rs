//! Execution core of a dataflow runtime: readiness tokens and input rules,
//! the per-unit execution context, default rules and periodic timestamps.
pub mod context;
pub mod data;
pub mod error;
pub mod hlc;
pub mod input;
pub mod ports;
pub mod rules;
pub mod state;
pub mod token;
