//! Verified core of a small command-line toolkit: greeting, version banner,
//! micro-benchmark reporting and format-aware file handling.

pub mod commands;
pub mod utils;
