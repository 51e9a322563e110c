//! A regular-expression tester: compile a pattern, scan a subject for all
//! matches, and render every match with its capture groups as a stable,
//! human-readable report.

pub mod engine;
pub mod eval;
pub mod render;
pub mod tables;
pub mod tester;
