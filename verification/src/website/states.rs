//! Handles states used in the website.

use vstd::prelude::*;
use crossbeam::channel::{Receiver, Sender};
use crate::communication::protocols::Request;

verus! {

/// Lets page functions talk to the process handler: `sender` sends requests
/// to the handler and `receiver` receives its messages.
pub struct ProcessComm {
    pub sender: Sender<Request>,
    pub receiver: Receiver<Request>,
}

} // verus!
