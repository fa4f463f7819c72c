//! The commands of the tool, as values in and text out.

pub mod benchmark;
pub mod hello;
pub mod process;
pub mod version;
pub mod workloads;
