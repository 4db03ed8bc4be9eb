//! The server-rendered website: its guards, its pages and its shared state.

pub mod guards;
pub mod pages;
pub mod states;
