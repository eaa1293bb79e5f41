//! Command-line handling for the `backup` tool: a tokenizer that classifies
//! raw arguments, a binder that turns the tokens into a validated
//! configuration, the cursor list that carries tokens between the two, and
//! the report that says what a run prints and how it exits.

pub mod config;
pub mod report;
pub mod utilities;
