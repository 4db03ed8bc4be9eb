//! Creating a process.

use vstd::prelude::*;
use crate::database::processes::ProcessSQLModel;

verus! {

/// The body of a request to create a process.
#[derive(Clone, Debug)]
pub struct ProcessCreateRequest {
    pub name: String,
    pub start_cmd: String,
    pub stop_cmd: String,
    pub build_cmd: String,
    pub branch: String,
    pub git_url: String,
}

impl ProcessCreateRequest {
    /// The model stored for a new process: the request's fields and an empty path.
    pub fn to_process_model(&self) -> (m: ProcessSQLModel)
        ensures
            m.name@ == self.name@,
            m.path@.len() == 0,
            m.start_cmd@ == self.start_cmd@,
            m.stop_cmd@ == self.stop_cmd@,
            m.build_cmd@ == self.build_cmd@,
            m.branch@ == self.branch@,
            m.git_url@ == self.git_url@,
    {
        ProcessSQLModel {
            name: self.name.clone(),
            path: String::new(),
            start_cmd: self.start_cmd.clone(),
            build_cmd: self.build_cmd.clone(),
            stop_cmd: self.stop_cmd.clone(),
            branch: self.branch.clone(),
            git_url: self.git_url.clone(),
        }
    }
}

} // verus!
