//! The process endpoints.

pub mod create;
pub mod get_processes;
pub mod github;
pub mod update;
