//! Snapshots of a host's processors, memory and processes, and the two
//! actions on its process table, as plain values with verified rules.
//!
//! Reading the operating system is left to the caller. Each builder takes
//! what one query answered, failure included, and gives the record that a
//! client is shown, or the kind of failure.

pub mod action;
pub mod cpu;
pub mod error;
pub mod listing;
pub mod measure;
pub mod process;
pub mod status;
