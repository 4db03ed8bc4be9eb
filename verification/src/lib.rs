//! A process manager: a handler keeps track of managed processes and their
//! status, a web front end sends it requests over channels, and a small
//! authentication layer guards the endpoints.
//!
//! This crate holds the decisions of the manager: the message protocol, the
//! handler and process state machines, the text formats exchanged between
//! them, input sanitising, sessions and passwords.

pub mod channel;
pub mod communication;
pub mod database;
pub mod endpoints;
pub mod guards;
pub mod process_handler;
pub mod states;
pub mod text;
pub mod website;
