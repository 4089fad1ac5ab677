//! Execution engine of a file copy and move tool: the decisions that turn a
//! precomputed transfer plan into filesystem work, stated and proved with
//! their contracts. The filesystem work itself is done by the caller, which
//! feeds each decision the facts it observed.

// The plan and the configuration it is carried out under.
pub mod options;
pub mod plan;
pub mod error;

// The execution driver: step order, outcome aggregation, clean-up after a move.
pub mod request;
pub mod driver;
pub mod report;
pub mod cleanup;

// One file: the strategy chain, sizing and progress, hard-link identity tracking.
pub mod transfer;
pub mod sizing;
pub mod tracker;

// Properties that tie the decisions together.
pub mod laws;

// Paths, configuration files and progress display.
pub mod text;
pub mod naming;
pub mod config;
pub mod progress_bar;
