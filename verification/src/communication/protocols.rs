//! Protocols used in the communication between the web front end, the
//! process handler and the processes.

use vstd::prelude::*;
use crossbeam::channel::Sender;
use crate::process_handler::process::ProcessStatus;
use crate::text::{str_equals};

verus! {

/// Who sent a request.
#[derive(Clone, Copy, Debug, PartialEq, Eq, Structural)]
pub enum From {
    Rocket,
    Process,
    Handler,
}

/// What a request asks for.
#[derive(Clone, Copy, Debug, PartialEq, Eq, Structural)]
pub enum RequestType {
    Status,
    Start,
    Restart,
    Stop,
    RestartPull,
    GetProcesses,
    Github,
    ProcessAdded,
    ProcessUpdated,
    ProcessRemoved,
}

/// The name under which a request type is displayed.
pub open spec fn request_type_name(t: RequestType) -> Seq<char> {
    match t {
        RequestType::Status => "Status"@,
        RequestType::Start => "Start"@,
        RequestType::Restart => "Restart"@,
        RequestType::Stop => "Stop"@,
        RequestType::RestartPull => "RestartPull"@,
        RequestType::GetProcesses => "GetProcesses"@,
        RequestType::Github => "Github"@,
        RequestType::ProcessAdded => "ProcessAdded"@,
        RequestType::ProcessRemoved => "ProcessRemoved"@,
        RequestType::ProcessUpdated => "ProcessUpdated"@,
    }
}

impl RequestType {
    /// The displayed name of the request type.
    pub fn to_string(&self) -> (s: String)
        ensures
            s@ == request_type_name(*self),
    {
        match *self {
            RequestType::Status => String::from_str("Status"),
            RequestType::Start => String::from_str("Start"),
            RequestType::Restart => String::from_str("Restart"),
            RequestType::Stop => String::from_str("Stop"),
            RequestType::RestartPull => String::from_str("RestartPull"),
            RequestType::GetProcesses => String::from_str("GetProcesses"),
            RequestType::Github => String::from_str("Github"),
            RequestType::ProcessAdded => String::from_str("ProcessAdded"),
            RequestType::ProcessRemoved => String::from_str("ProcessRemoved"),
            RequestType::ProcessUpdated => String::from_str("ProcessUpdated"),
        }
    }
}

/// The request type that a button label names; anything unknown restarts and pulls.
pub open spec fn rtype_named(s: Seq<char>) -> RequestType {
    if s == "stop"@ {
        RequestType::Stop
    } else if s == "start"@ {
        RequestType::Start
    } else if s == "restart"@ {
        RequestType::Restart
    } else {
        RequestType::RestartPull
    }
}

/// Converts a button label into a request type.
pub fn string_to_rtype(string: &str) -> (t: RequestType)
    ensures
        t == rtype_named(string@),
{
    if str_equals(string, "stop") {
        RequestType::Stop
    } else if str_equals(string, "start") {
        RequestType::Start
    } else if str_equals(string, "restart") {
        RequestType::Restart
    } else {
        RequestType::RestartPull
    }
}

/// One managed process as listed to the front end: its name, its id and its
/// status, each as text.
#[derive(Clone, Debug)]
pub struct ProcessEntry {
    pub name: String,
    pub id: String,
    pub status: String,
}

/// The structure of messages from the frontend to the process handler, and
/// from the handler to the processes.
#[derive(Clone, Debug)]
pub struct Request {
    pub from: From,
    pub rtype: RequestType,
    pub id: Option<usize>,
    pub processes: Option<Vec<ProcessEntry>>,
    pub push_branch: Option<String>,
    pub status: Option<ProcessStatus>,
    pub answer_channel: Option<Sender<RequestResult>>,
}

impl Default for Request {
    fn default() -> (r: Self)
        ensures
            r.from == From::Handler,
            r.rtype == RequestType::Stop,
            r.id is None,
            r.processes is None,
            r.push_branch is None,
            r.status is None,
            r.answer_channel is None,
    {
        Request {
            from: From::Handler,
            rtype: RequestType::Stop,
            id: None,
            processes: None,
            push_branch: None,
            status: None,
            answer_channel: None,
        }
    }
}

impl Request {
    /// A request from the web front end, as the endpoints send them.
    pub fn from_frontend(
        rtype: RequestType,
        id: Option<usize>,
        answer_channel: Option<Sender<RequestResult>>,
    ) -> (r: Request)
        ensures
            r.from == From::Rocket,
            r.rtype == rtype,
            r.id == id,
            r.processes is None,
            r.push_branch is None,
            r.status is None,
            r.answer_channel == answer_channel,
    {
        Request { from: From::Rocket, rtype, id, processes: None, push_branch: None, status: None, answer_channel }
    }
}

/// How a request went.
#[derive(Clone, Copy, Debug, PartialEq, Eq, Structural)]
pub enum RequestResultStatus {
    Success,
    Failed,
    Update,
}

/// An answer to a request, or a status update from a process.
#[derive(Debug)]
pub struct RequestResult {
    pub status: RequestResultStatus,
    pub body: Option<String>,
    pub process_status: Option<ProcessStatus>,
    pub id: Option<usize>,
}

impl Default for RequestResult {
    fn default() -> (r: Self)
        ensures
            r.status == RequestResultStatus::Update,
            r.body is None,
            r.process_status is None,
            r.id is None,
    {
        RequestResult { status: RequestResultStatus::Update, body: None, process_status: None, id: None }
    }
}

} // verus!
