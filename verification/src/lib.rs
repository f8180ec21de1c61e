//! Verified core of a command-line simulator for quantum cryptography
//! protocols: channel models and channel mixes, experiment-configuration
//! resolution, protocol selection, per-shot run records, the samples of
//! aggregates, and the layout of the CSV files and text reports.
//!
//! Noise parameters, rates and statistics are real numbers in the program;
//! the library is generic over their type `N` and never inspects their
//! values, so every decision it takes is about presence, names, counts and
//! bits. Real numbers reach the reports as texts rendered by the caller.
mod text;

pub mod channel;
pub mod config;
pub mod protocol;
pub mod run;
pub mod stats;
pub mod output;
pub mod report;
