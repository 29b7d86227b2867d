//! Orchestration of a single-file refactoring run: a proposing, a reviewing and a
//! repairing agent around a build/test gate, with a local heuristic that can veto
//! a review's approval and a bounded repair loop.

pub mod config;
pub mod verification;
pub mod exec;
pub mod review;
pub mod orchestrator;
pub mod laws;
pub mod text;
pub mod agents;
pub mod prompts;
pub mod io_utils;
