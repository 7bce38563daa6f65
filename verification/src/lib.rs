//! Configuration model and transformation pipeline of a source-code obfuscator.
//!
//! The crate resolves a user-facing intensity and technique selection into an
//! ordered, validated sequence of transformation passes, runs them over a
//! program text and enforces the configured size budget.

pub mod config;
pub mod error;
pub mod host;
pub mod injection;
pub mod json;
pub mod passes;
pub mod pipeline;
pub mod program;
pub mod rng;
pub mod store;
pub mod substitution;
pub mod technique;
pub mod text;
