//! Sandbox self-audit engine.
//!
//! Given a small line-oriented rule language describing expected filesystem
//! and capability restrictions, the library checks from inside the running
//! process whether those restrictions actually hold and aggregates the
//! results into a weighted score.

pub mod engine;
pub mod paths;
pub mod probe;
pub mod report;
pub mod rule;
pub mod score;
pub mod text;
pub mod utils;
