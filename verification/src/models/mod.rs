//! The data that crosses the library's boundary.

pub mod config;
pub mod task;
