//! Composing chat-platform webhook messages and validating them against the
//! platform's structural limits before they are sent.

pub mod client;
pub mod compatibility;
pub mod context;
pub mod decimal;
pub mod errors;
pub mod interval;
pub mod laws;
pub mod models;
