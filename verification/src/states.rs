//! State shared by the API endpoints.

use vstd::prelude::*;
use crossbeam::channel::Sender;
use crate::communication::protocols::Request;

verus! {

/// How long (in seconds) an endpoint waits for the handler's answer.
pub struct Timeout {
    pub timeout: usize,
}

/// The channel on which the endpoints reach the process handler.
pub struct ProcessComm {
    pub sender: Sender<Request>,
}

} // verus!
