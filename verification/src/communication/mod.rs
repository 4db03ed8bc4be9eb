//! The messages exchanged between the front end, the handler and the processes.

pub mod protocols;
