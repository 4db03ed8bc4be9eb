//! The message channels between the front end, the handler and the
//! processes (crossbeam's unbounded channels).

use vstd::prelude::*;

verus! {

#[verifier::external_type_specification]
#[verifier::external_body]
#[verifier::reject_recursive_types(T)]
pub struct ExSender<T>(crossbeam::channel::Sender<T>);

#[verifier::external_type_specification]
#[verifier::external_body]
#[verifier::reject_recursive_types(T)]
pub struct ExReceiver<T>(crossbeam::channel::Receiver<T>);

/// crossbeam's `channel::unbounded`: a new channel of unbounded capacity.
/// Nothing is claimed of the two ends beyond their types.
#[verifier::external_body]
pub(crate) fn unbounded<T>() -> (ends: (crossbeam::channel::Sender<T>, crossbeam::channel::Receiver<T>)) {
    crossbeam::channel::unbounded()
}

/// crossbeam's `Clone` for `Sender`: another handle on the same channel (it
/// only adds to the count of senders). Nothing is claimed of the handle,
/// since a contract cannot speak of which channel it reaches.
pub assume_specification<T>[<crossbeam::channel::Sender<T> as Clone>::clone](sender: &crossbeam::channel::Sender<T>) -> crossbeam::channel::Sender<T>;

} // verus!
