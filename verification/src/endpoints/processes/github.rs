//! Handle push notifications from GitHub.

use vstd::prelude::*;
use crossbeam::channel::Sender;
use crate::communication::protocols::{From, Request, RequestResult, RequestType};
use crate::text::{chars_of, split_chars, split_on, string_of, lemma_split_nonempty};

verus! {

/// The part of GitHub's push notification that matters: the pushed ref, in
/// the form `refs/heads/<branch>`.
#[derive(Clone, Debug)]
pub struct GitHubJSON {
    pub reference: String,
}

/// The branch of a ref: what follows its last `/`.
pub open spec fn branch_of(git_ref: Seq<char>) -> Seq<char> {
    split_on(git_ref, '/').last()
}

/// The branch named by a pushed ref.
pub fn branch_from_ref(git_ref: &str) -> (branch: String)
    ensures
        branch@ == branch_of(git_ref@),
{
    let parts = split_chars(&chars_of(git_ref), '/');
    proof {
        lemma_split_nonempty(git_ref@, '/');
        assert(parts@.len() == split_on(git_ref@, '/').len());
        assert(parts@.map_values(|p: Vec<char>| p@)[parts@.len() - 1] == parts@[parts@.len() - 1]@);
    }
    string_of(&parts[parts.len() - 1])
}

/// The request sent to the handler for a push to process `id`: a request
/// from the front end to restart the process and pull the pushed code, with
/// the pushed branch; the handler answers on `answer_channel`.
pub fn github_request(id: usize, data: &GitHubJSON, answer_channel: Sender<RequestResult>) -> (r: Request)
    ensures
        r.from == From::Rocket,
        r.rtype == RequestType::RestartPull,
        r.id == Some(id),
        r.push_branch matches Some(b) && b@ == branch_of(data.reference@),
        r.processes is None,
        r.status is None,
        r.answer_channel == Some(answer_channel),
{
    Request {
        from: From::Rocket,
        rtype: RequestType::RestartPull,
        id: Some(id),
        processes: None,
        push_branch: Some(branch_from_ref(data.reference.as_str())),
        status: None,
        answer_channel: Some(answer_channel),
    }
}

} // verus!
