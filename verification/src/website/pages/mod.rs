//! The website's pages.

pub mod home;
