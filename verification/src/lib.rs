//! Harness logic for running one piece of EVM bytecode: the command-line
//! parameters are resolved into typed values, the output of one run is held
//! against the expected text, and a fixed number of timed runs is averaged.

pub mod args;
pub mod harness;
pub mod hex;
pub mod numeric;
