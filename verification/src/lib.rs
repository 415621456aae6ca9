//! Diagnostic snapshot of the globals a Wayland compositor advertises.
//!
//! The library holds the verified core: the in-memory data model filled by
//! per-protocol collectors, the staged collection plan that orders dependent
//! binds and round-trip barriers, and the pure renderers that turn a frozen
//! snapshot into text lines or a JSON-shaped value. Connection handling,
//! event dispatch and actual printing live outside, in the thin program
//! around this crate.

pub mod app;
pub mod cli;
pub mod orchestrator;
pub mod output;
pub mod protocols;
pub mod render;
pub mod sorting;
pub mod textfmt;
