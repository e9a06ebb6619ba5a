//! Executes a Cairo program, adapts the finished run into prover input and
//! sequences proving and verification of the run as one pipeline.

pub mod config;
pub mod engine;
pub mod pipeline;
pub mod program;
pub mod stage;
pub mod state;
