//! Factorial experiments on top of a timing harness.
//!
//! An experiment crosses the levels of its input factors with the levels of
//! its algorithm factors. Every pair is a treatment, which the harness
//! measures once. When the treatments have run, the estimates that the
//! harness left for them are drawn up into a summary: a csv text, a table
//! whose rows are ranked within each input level, and the draft of a prompt
//! to analyze them.
//!
//! The library decides and computes; it neither measures nor reads or
//! writes files. It lays out the run of the treatments, derives their keys
//! and the paths of their files, checks outputs, finds the estimate in the
//! statistics of a treatment, and draws up the summary.

pub mod alg_factors;
pub mod cells;
pub mod csv;
pub mod data;
pub mod estimate;
pub mod experiment;
pub mod experiment_sealed;
pub mod grid;
pub mod input_factors;
pub mod key;
pub mod progress;
pub mod prompt;
pub mod rank;
pub mod search;
pub mod summary;
pub mod table;
pub mod text;
pub mod treatment;
pub mod variant;

pub use alg_factors::AlgFactors;
pub use data::Data;
pub use experiment::Experiment;
pub use experiment_sealed::ExperimentSealed;
pub use input_factors::InputFactors;
pub use summary::{create_ai_prompt_to_analyze, summarize};
pub use treatment::Treatment;
pub use variant::Variant;
