//! Building blocks shared by the commands.

pub mod digest;
pub mod file_handler;
pub mod file_task;
pub mod fs_model;
pub mod json;
pub mod logger;
pub mod records;
pub mod tabular;
pub mod text;
