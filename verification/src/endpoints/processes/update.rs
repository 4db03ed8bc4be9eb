//! Updating a process.

use vstd::prelude::*;
use crate::database::processes::ProcessSQLModel;

verus! {

/// The body of a request to update a process.
#[derive(Clone, Debug)]
pub struct ProcessUpdateRequest {
    pub name: String,
    pub path: String,
    pub start_cmd: String,
    pub stop_cmd: String,
    pub build_cmd: String,
    pub branch: String,
    pub git_url: String,
}

impl ProcessUpdateRequest {
    /// The model stored for the updated process: the request's fields.
    pub fn to_process_model(&self) -> (m: ProcessSQLModel)
        ensures
            m.name@ == self.name@,
            m.path@ == self.path@,
            m.start_cmd@ == self.start_cmd@,
            m.stop_cmd@ == self.stop_cmd@,
            m.build_cmd@ == self.build_cmd@,
            m.branch@ == self.branch@,
            m.git_url@ == self.git_url@,
    {
        ProcessSQLModel {
            name: self.name.clone(),
            path: self.path.clone(),
            start_cmd: self.start_cmd.clone(),
            build_cmd: self.build_cmd.clone(),
            stop_cmd: self.stop_cmd.clone(),
            branch: self.branch.clone(),
            git_url: self.git_url.clone(),
        }
    }
}

} // verus!
