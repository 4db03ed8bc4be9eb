//! The answer to a login check.

use vstd::prelude::*;

verus! {

type User = String;

/// The logged-in user's name, if any.
#[derive(Clone, Debug)]
pub struct Task {
    pub user: Option<User>,
}

} // verus!
