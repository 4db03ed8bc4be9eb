//! Guards of the website's routes.

pub mod timer;
