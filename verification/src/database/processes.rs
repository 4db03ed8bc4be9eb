//! The stored description of a managed process.

use vstd::prelude::*;
use super::{is_sane, sanitize_string, SanitizeError};

verus! {

/// A process as the database stores it.
#[derive(Debug, Clone)]
pub struct ProcessSQLModel {
    pub name: String,
    pub path: String,
    pub start_cmd: String,
    pub stop_cmd: String,
    pub build_cmd: String,
    pub branch: String,
    pub git_url: String,
}

/// Every text field of the model is accepted by the database.
pub open spec fn model_is_sane(p: ProcessSQLModel) -> bool {
    &&& is_sane(p.name@)
    &&& is_sane(p.path@)
    &&& is_sane(p.start_cmd@)
    &&& is_sane(p.stop_cmd@)
    &&& is_sane(p.build_cmd@)
    &&& is_sane(p.branch@)
    &&& is_sane(p.git_url@)
}

/// Checks every text field of a process before it is written to the database.
pub fn sanitize_process_sql_model(process: ProcessSQLModel) -> (r: Result<(), SanitizeError>)
    ensures
        r is Ok <==> model_is_sane(process),
        r is Ok <==> (is_sane(process.name@) && is_sane(process.path@) && is_sane(process.start_cmd@)
            && is_sane(process.stop_cmd@) && is_sane(process.build_cmd@) && is_sane(process.branch@)
            && is_sane(process.git_url@)),
        r matches Err(e) ==> e == SanitizeError::IllegalString,
{
    if let Err(_) = sanitize_string(process.name) {
        return Err(SanitizeError::IllegalString);
    }
    if let Err(_) = sanitize_string(process.path) {
        return Err(SanitizeError::IllegalString);
    }
    if let Err(_) = sanitize_string(process.start_cmd) {
        return Err(SanitizeError::IllegalString);
    }
    if let Err(_) = sanitize_string(process.stop_cmd) {
        return Err(SanitizeError::IllegalString);
    }
    if let Err(_) = sanitize_string(process.build_cmd) {
        return Err(SanitizeError::IllegalString);
    }
    if let Err(_) = sanitize_string(process.branch) {
        return Err(SanitizeError::IllegalString);
    }
    if let Err(_) = sanitize_string(process.git_url) {
        return Err(SanitizeError::IllegalString);
    }
    Ok(())
}

/// A stored process is accepted exactly when each of its seven text fields
/// is accepted on its own; in particular a record with any refused field
/// (its name included) is refused.
pub proof fn law_model_sane_fieldwise(p: ProcessSQLModel)
    ensures
        model_is_sane(p) <==> (is_sane(p.name@) && is_sane(p.path@) && is_sane(p.start_cmd@)
            && is_sane(p.stop_cmd@) && is_sane(p.build_cmd@) && is_sane(p.branch@) && is_sane(p.git_url@)),
        !is_sane(p.name@) ==> !model_is_sane(p),
        !is_sane(p.git_url@) ==> !model_is_sane(p),
{
}

} // verus!
