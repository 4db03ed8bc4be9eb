//! Functions for the home page.

use vstd::prelude::*;
use crate::communication::protocols::{From, ProcessEntry, Request, RequestType, rtype_named, string_to_rtype};
use crate::text::{chars_of, parse_unsigned, parse_unsigned_chars, split_chars, split_on, string_of};

verus! {

/// What the home page shows: a header, a line of text and the processes.
#[derive(Clone, Debug)]
pub struct HomeContext<'a> {
    pub header: &'a str,
    pub index: &'a str,
    pub processes: Vec<ProcessEntry>,
}

/// A button's description, `<action>-<id>`, can be read: it has a `-`, and
/// what follows up to the next `-` is an id.
pub open spec fn task_readable(description: Seq<char>) -> bool {
    let parts = split_on(description, '-');
    parts.len() >= 2 && parse_unsigned(parts[1], usize::MAX as nat) is Some
}

/// The request that a button's description asks for: the action before the
/// first `-` and the id after it.
pub open spec fn task_request(description: Seq<char>) -> (RequestType, usize) {
    let parts = split_on(description, '-');
    (rtype_named(parts[0]), parse_unsigned(parts[1], usize::MAX as nat)->0 as usize)
}

/// Reads the request that a button's description asks for.
pub fn parse_task_description(description: &str) -> (r: (RequestType, usize))
    requires
        task_readable(description@),
    ensures
        r == task_request(description@),
{
    let parts = split_chars(&chars_of(description), '-');
    proof {
        let pv = parts@.map_values(|p: Vec<char>| p@);
        assert(pv[0] == parts@[0]@);
        assert(pv[1] == parts@[1]@);
    }
    let action = string_of(&parts[0]);
    let rtype = string_to_rtype(action.as_str());
    let id = parse_unsigned_chars(&parts[1], usize::MAX as u64);
    match id {
        Some(v) => (rtype, v as usize),
        None => (rtype, 0),
    }
}

/// Why a button press on the home page is refused.
#[derive(Clone, Copy, Debug, PartialEq, Eq, Structural)]
pub enum HomePostError {
    /// The client is not logged in.
    Unauthorized,
}

impl HomePostError {
    /// The HTTP status of the refusal.
    pub fn status_code(&self) -> (code: u16)
        ensures
            code == 401,
    {
        401
    }

    /// The text sent with the refusal.
    pub fn message(&self) -> (s: String)
        ensures
            s@ == "You need to be authorized to access this"@,
    {
        String::from_str("You need to be authorized to access this")
    }
}

/// `r` is a request from the front end of type `rtype` for `id`, with
/// nothing else set.
pub open spec fn is_frontend_request(r: Request, rtype: RequestType, id: Option<usize>) -> bool {
    &&& r.from == From::Rocket
    &&& r.rtype == rtype
    &&& r.id == id
    &&& r.processes is None
    &&& r.push_branch is None
    &&& r.status is None
    &&& r.answer_channel is None
}

/// The requests that a button press with `description` sends to the
/// handler, in order: the process list, then the action that the description
/// names for its process. Refused when the client is not authorized.
pub fn home_post_requests(authorized: bool, description: &str) -> (r: Result<(Request, Request), HomePostError>)
    requires
        authorized ==> task_readable(description@),
    ensures
        !authorized ==> r == Err::<(Request, Request), HomePostError>(HomePostError::Unauthorized),
        authorized ==> (r matches Ok((list, action))
            && is_frontend_request(list, RequestType::GetProcesses, None)
            && is_frontend_request(action, task_request(description@).0, Some(task_request(description@).1))),
{
    if !authorized {
        return Err(HomePostError::Unauthorized);
    }
    let list = Request {
        from: From::Rocket,
        rtype: RequestType::GetProcesses,
        id: None,
        processes: None,
        push_branch: None,
        status: None,
        answer_channel: None,
    };
    let (rtype, id) = parse_task_description(description);
    let action = Request {
        from: From::Rocket,
        rtype,
        id: Some(id),
        processes: None,
        push_branch: None,
        status: None,
        answer_channel: None,
    };
    Ok((list, action))
}

impl<'a> HomeContext<'a> {
    /// The home page as first shown.
    pub fn index_page(processes: Vec<ProcessEntry>) -> (c: HomeContext<'a>)
        ensures
            c.header@ == "Header"@,
            c.index@ == "Website"@,
            c.processes@ == processes@,
    {
        HomeContext { header: "Header", index: "Website", processes }
    }

    /// The home page after a button press with the given description; `None`
    /// when the description is empty (the task itself is shown then).
    pub fn after_task(description: &'a str, processes: Vec<ProcessEntry>) -> (c: Option<HomeContext<'a>>)
        ensures
            description@.len() == 0 ==> c is None,
            description@.len() != 0 && description@ == "upvote"@ ==> (c matches Some(h)
                && h.header@ == "Header lmao"@ && h.index@ == "You pressed the upvote button"@
                && h.processes@ == processes@),
            description@.len() != 0 && description@ != "upvote"@ ==> (c matches Some(h)
                && h.header@ == "header lmao"@ && h.index@ == description@
                && h.processes@ == processes@),
    {
        if description.is_empty() {
            None
        } else if crate::text::str_equals(description, "upvote") {
            Some(HomeContext { header: "Header lmao", index: "You pressed the upvote button", processes })
        } else {
            Some(HomeContext { header: "header lmao", index: description, processes })
        }
    }
}

} // verus!
