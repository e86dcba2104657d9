//! Remote build orchestration: one shared SSH session per host, incremental
//! file selection, transfer command composition, and a tiered status renderer,
//! all driven by a pipeline state machine whose effects are performed by the caller.
pub mod commands;
pub mod config;
pub mod laws;
pub mod pipeline;
pub mod select;
pub mod session;
pub mod status;
pub mod text;
