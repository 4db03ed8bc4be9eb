//! The process handler manages all the smaller processes, on request from
//! the front end. Every action meant for a process goes through this handler
//! first, to make sure that the request is valid before sending it to the
//! process. The handler communicates with the website by message passing.

pub mod process;

use vstd::prelude::*;
use std::collections::HashMap;
use crossbeam::channel::{Receiver, Sender};
use crate::channel::unbounded;
use crate::communication::protocols::{From, Request, RequestResult, RequestResultStatus, RequestType};
use crate::database::processes::ProcessSQLModel;
use crate::text::{decimal, join_with, push_char, push_decimal, push_all, chars_of};
use process::{Process, ProcessStatus, Operation, status_name, status_to_string, busy_status, reported_statuses,
    records_status, status_after_phases, operation_updates, phase_update, status_in_phase, lemma_operation_final_status};

verus! {

broadcast use vstd::std_specs::hash::group_hash_axioms;

/// One line of the process list: `name,id,status`.
pub open spec fn entry_text(p: Process) -> Seq<char> {
    p.name@ + seq![','] + decimal(p.process_id as nat) + seq![','] + status_name(p.status)
}

/// `order` lists the entries of `m`, each exactly once.
pub open spec fn is_listing(order: Seq<(usize, Process)>, m: Map<usize, Process>) -> bool {
    &&& order.len() == m.dom().len()
    &&& forall|i: int| 0 <= i < order.len() ==> m.contains_key(#[trigger] order[i].0) && m[order[i].0] == order[i].1
    &&& forall|i: int, j: int| 0 <= i < j < order.len() ==> #[trigger] order[i].0 != #[trigger] order[j].0
}

/// The process list in the given order: the entries joined with `:`.
pub open spec fn proclist_text(order: Seq<(usize, Process)>) -> Seq<char> {
    join_with(order.map_values(|e: (usize, Process)| entry_text(e.1)), ':')
}

/// The process list of a map, in the order in which the map is walked.
pub open spec fn is_proclist_of(text: Seq<char>, m: Map<usize, Process>) -> bool {
    exists|order: Seq<(usize, Process)>| is_listing(order, m) && text == proclist_text(order)
}

/// A process as the configuration file lists it.
#[derive(Clone, Debug)]
pub struct ConfigProcess {
    pub path: String,
    pub git_url: String,
    pub name: String,
    pub branch: String,
    pub id: usize,
}

/// The message sent back when an action is refused because the process is busy.
pub open spec fn busy_message() -> Seq<char> {
    "That process is busy with. Please try again later."@
}

/// The reply to an action request: refused when the process is busy, failed
/// when the process did not take the request, a success otherwise.
pub open spec fn action_reply_spec(busy: bool, forwarded: bool) -> (RequestResultStatus, Option<Seq<char>>) {
    if busy {
        (RequestResultStatus::Failed, Some(busy_message()))
    } else if !forwarded {
        (RequestResultStatus::Failed, None)
    } else {
        (RequestResultStatus::Success, None)
    }
}

pub open spec fn reply_view(r: (RequestResultStatus, Option<String>)) -> (RequestResultStatus, Option<Seq<char>>) {
    (r.0, match r.1 { Some(b) => Some(b@), None => None })
}

/// Decides the reply to an action request from whether the process was busy
/// and, if not, whether it took the forwarded request.
pub fn action_reply(busy: bool, forwarded: bool) -> (r: (RequestResultStatus, Option<String>))
    ensures
        reply_view(r) == action_reply_spec(busy, forwarded),
{
    if busy {
        (RequestResultStatus::Failed, Some(String::from_str("That process is busy with. Please try again later.")))
    } else if !forwarded {
        (RequestResultStatus::Failed, None)
    } else {
        (RequestResultStatus::Success, None)
    }
}

/// `p` is the process that the handler registers for `id` from a stored model.
pub open spec fn registered_from_model(p: Process, id: usize, m: ProcessSQLModel) -> bool {
    &&& p.name@ == m.name@
    &&& p.process_id == id
    &&& p.git_url@ == m.git_url@
    &&& p.branch@ == m.branch@
    &&& p.path@ == m.path@
    &&& p.start_cmd@ == m.start_cmd@
    &&& p.stop_cmd@ == m.stop_cmd@
    &&& p.build_cmd@ == m.build_cmd@
    &&& p.status == ProcessStatus::Off
}

/// `p` is the process that the configuration lists as `c`.
pub open spec fn registered_from_config(p: Process, c: ConfigProcess) -> bool {
    &&& p.path@ == c.path@
    &&& p.git_url@ == c.git_url@
    &&& p.status == ProcessStatus::Off
    &&& p.process_id == c.id
    &&& p.name@ == c.name@
    &&& p.branch@ == c.branch@
    &&& p.start_cmd@.len() == 0
    &&& p.stop_cmd@.len() == 0
    &&& p.build_cmd@.len() == 0
}

/// Entry `i` of `db` is the last one with its id.
pub open spec fn last_with_id<T>(db: Seq<(usize, T)>, i: int) -> bool {
    forall|j: int| i < j < db.len() ==> #[trigger] db[j].0 != db[i].0
}

/// Some entry of `db` has the id `k`.
pub open spec fn has_id<T>(db: Seq<(usize, T)>, k: usize) -> bool {
    exists|i: int| 0 <= i < db.len() && #[trigger] db[i].0 == k
}

/// The ids that a message from the front end makes the handler look up.
pub open spec fn looked_up_id(m: Request) -> Option<usize> {
    if m.from == From::Rocket && m.rtype == RequestType::GetProcesses && m.answer_channel is Some {
        None
    } else if m.from == From::Process && m.rtype == RequestType::Status && m.id is Some
        && m.status is Some && m.answer_channel is Some {
        m.id
    } else if m.from == From::Rocket && m.id is Some && m.answer_channel is Some {
        m.id
    } else {
        None
    }
}

/// The id of the process that serving `m` looks up, if any (`looked_up_id`).
pub fn looked_up_process(m: &Request) -> (r: Option<usize>)
    ensures
        r == looked_up_id(*m),
{
    if m.from == From::Rocket && m.rtype == RequestType::GetProcesses && m.answer_channel.is_some() {
        None
    } else if m.from == From::Process && m.rtype == RequestType::Status && m.id.is_some()
        && m.status.is_some() && m.answer_channel.is_some() {
        m.id
    } else if m.from == From::Rocket && m.id.is_some() && m.answer_channel.is_some() {
        m.id
    } else {
        None
    }
}

/// The text sent to the front end for a list of processes: for each process
/// `name,id,status`, the entries separated by `:` (in the map's own order).
pub fn proclist_as_string(list: &HashMap<usize, Process>) -> (s: String)
    ensures
        is_proclist_of(s@, list@),
{
    let mut rv: String = String::new();
    let ghost mut order: Seq<(usize, Process)> = Seq::empty();
    let mut first = true;
    for (k, p) in it: list.iter()
        invariant
            order.len() == it.index(),
            first == (it.index() == 0),
            forall|i: int| 0 <= i < it.index() ==> order[i] == (*it.seq()[i].0, *it.seq()[i].1),
            rv@ == proclist_text(order),
    {
        let ghost prev = order;
        if !first {
            push_char(&mut rv, ':');
        }
        first = false;
        push_all(&mut rv, &chars_of(p.name.as_str()));
        push_char(&mut rv, ',');
        push_decimal(&mut rv, p.get_id());
        push_char(&mut rv, ',');
        push_all(&mut rv, &chars_of(status_to_string(p.get_status()).as_str()));
        proof {
            order = order.push((*k, *p));
            let texts = order.map_values(|e: (usize, Process)| entry_text(e.1));
            assert(texts.drop_last() =~= prev.map_values(|e: (usize, Process)| entry_text(e.1)));
            assert(texts.last() == entry_text(*p));
            if prev.len() == 0 {
                assert(texts =~= seq![entry_text(*p)]);
            }
            assert(rv@ =~= proclist_text(order));
        }
    }
    proof {
        assert(is_listing(order, list@)) by {
            assert forall|i: int, j: int| 0 <= i < j < order.len() implies #[trigger] order[i].0 != #[trigger] order[j].0 by {
                if order[i].0 == order[j].0 {
                    assert(order[i].1 == list@[order[i].0]);
                    assert(order[j].1 == list@[order[j].0]);
                }
            }
        }
    }
    rv
}

/// `r` is a reply with status `status` and body `body` (by its text), and
/// neither a process status nor an id.
pub open spec fn is_reply(r: RequestResult, status: RequestResultStatus, body: Option<Seq<char>>) -> bool {
    &&& r.status == status
    &&& match (r.body, body) {
        (Some(b), Some(t)) => b@ == t,
        (None, None) => true,
        _ => false,
    }
    &&& r.process_status is None
    &&& r.id is None
}

/// `r` is the request by which the handler passes `action` on to a process:
/// from the handler, of type `action`, with nothing else set.
pub open spec fn is_forwarded(r: Request, action: RequestType) -> bool {
    &&& r.from == From::Handler
    &&& r.rtype == action
    &&& r.id is None
    &&& r.processes is None
    &&& r.push_branch is None
    &&& r.status is None
    &&& r.answer_channel is None
}

/// What serving one message from the front end leaves to be sent.
#[derive(Debug)]
pub enum ApiOutcome {
    /// Send `reply` on `to`.
    Reply { to: Sender<RequestResult>, reply: RequestResult },
    /// Send `request` to process `id`, then answer on `answer_channel` with
    /// `forward_reply` of whether the process took it.
    Forward { id: usize, request: Request, answer_channel: Sender<RequestResult> },
    /// The message asked for nothing.
    Ignored,
}

/// The outcome of an action for process `id` (whose entry is `p`) that is to
/// be answered on `answer`: the busy refusal when the process is busy, else
/// the action passed on to the process.
pub open spec fn action_outcome(out: ApiOutcome, p: Process, id: usize, action: RequestType, answer: Sender<RequestResult>) -> bool {
    if busy_status(p.status) {
        out matches ApiOutcome::Reply { to, reply } && to == answer
            && is_reply(reply, RequestResultStatus::Failed, Some(busy_message()))
    } else {
        out matches ApiOutcome::Forward { id: fid, request, answer_channel } && fid == id
            && answer_channel == answer && is_forwarded(request, action)
    }
}

/// Serving `m` took the handler's entries from `before` to `after` and left
/// `out` to be sent: the process list, or the acknowledgement of a status
/// report (recorded), on the message's answer channel; for an action, what
/// `action_outcome` says; nothing for any other message.
pub open spec fn api_served(m: Request, before: Map<usize, Process>, after: Map<usize, Process>, out: ApiOutcome) -> bool {
    if m.from == From::Rocket && m.rtype == RequestType::GetProcesses && m.answer_channel is Some {
        &&& after == before
        &&& out matches ApiOutcome::Reply { to, reply } && to == m.answer_channel->0
            && reply.status == RequestResultStatus::Success && reply.process_status is None
            && reply.id is None && reply.body is Some && is_proclist_of(reply.body->0@, before)
    } else if m.from == From::Process && m.rtype == RequestType::Status && m.id is Some
        && m.status is Some && m.answer_channel is Some {
        &&& after == before.insert(m.id->0, Process { status: m.status->0, ..before[m.id->0] })
        &&& out matches ApiOutcome::Reply { to, reply } && to == m.answer_channel->0
            && is_reply(reply, RequestResultStatus::Success, None)
    } else if m.from == From::Rocket && m.id is Some && m.answer_channel is Some {
        &&& after == before
        &&& action_outcome(out, before[m.id->0], m.id->0, m.rtype, m.answer_channel->0)
    } else {
        &&& after == before
        &&& out is Ignored
    }
}

/// When the handler records the report with which a phase of an operation of
/// process `p` begins, the process's entry takes the reported status and no
/// other entry changes; for starting and stopping, an entry that matched the
/// process before the phase matches the process after it.
pub proof fn law_phase_report_recorded(m: Map<usize, Process>, p: Process, op: Operation, phase: int)
    requires
        m.contains_key(p.process_id),
        0 <= phase < reported_statuses(op).len(),
    ensures
        apply_update(m, phase_update(op, phase, p.process_id)).dom() == m.dom(),
        apply_update(m, phase_update(op, phase, p.process_id))[p.process_id].status == reported_statuses(op)[phase],
        forall|k: usize| k != p.process_id && m.contains_key(k)
            ==> #[trigger] apply_update(m, phase_update(op, phase, p.process_id))[k] == m[k],
        m[p.process_id] == p && records_status(op) ==> apply_update(m, phase_update(op, phase, p.process_id))[p.process_id]
            == (Process { status: status_in_phase(op, phase, p.status), ..p }),
{
    assert(apply_update(m, phase_update(op, phase, p.process_id)).dom() =~= m.dom());
}

/// Once the handler has recorded every report of an operation of process `p`,
/// in order, the process's entry shows the operation's last reported status
/// (on after starting, off after stopping or pulling) and no other entry has
/// changed; an entry that matched the process before matches the process as
/// the operation left it, for starting and stopping, and for pulling a
/// process that was off.
pub proof fn law_handler_follows_operation(m: Map<usize, Process>, p: Process, op: Operation)
    requires
        m.contains_key(p.process_id),
    ensures
        apply_updates(m, operation_updates(op, p.process_id))
            == m.insert(p.process_id, Process { status: reported_statuses(op).last(), ..m[p.process_id] }),
        m[p.process_id] == p && (records_status(op) || p.status == ProcessStatus::Off)
            ==> apply_updates(m, operation_updates(op, p.process_id))[p.process_id]
                == (Process { status: status_after_phases(op, reported_statuses(op).len(), p.status), ..p }),
{
    reveal_with_fuel(apply_updates, 4);
    lemma_operation_final_status(op, p.status);
    let id = p.process_id;
    let us = operation_updates(op, id);
    let last = Process { status: reported_statuses(op).last(), ..m[id] };
    match op {
        Operation::Start => {
            assert(us.drop_last().drop_last().drop_last() =~= Seq::<RequestResult>::empty());
            assert(us.drop_last().drop_last() =~= seq![us[0]]);
            assert(us.drop_last() =~= seq![us[0], us[1]]);
        },
        _ => {
            assert(us.drop_last().drop_last() =~= Seq::<RequestResult>::empty());
            assert(us.drop_last() =~= seq![us[0]]);
        },
    }
    assert(apply_updates(m, us) =~= m.insert(id, last));
}

/// An action for a process is refused with the busy reply exactly when the
/// process is terminating, starting, pulling or building, and passed on to
/// the process exactly when it is on or off.
pub proof fn law_action_refused_exactly_when_busy(
    out: ApiOutcome,
    p: Process,
    id: usize,
    action: RequestType,
    answer: Sender<RequestResult>,
)
    requires
        action_outcome(out, p, id, action, answer),
    ensures
        out is Reply <==> (p.status == ProcessStatus::Terminating || p.status == ProcessStatus::Starting
            || p.status == ProcessStatus::Pulling || p.status == ProcessStatus::Building),
        out is Forward <==> (p.status == ProcessStatus::On || p.status == ProcessStatus::Off),
        out matches ApiOutcome::Reply { to, reply } ==> to == answer && reply.status == RequestResultStatus::Failed
            && reply.body is Some && reply.body->0@ == "That process is busy with. Please try again later."@,
        out matches ApiOutcome::Forward { id: fid, request, answer_channel } ==> fid == id
            && answer_channel == answer && request.from == From::Handler && request.rtype == action,
{
}

/// A reply with the given status and body (nothing else set).
fn reply_with(status: RequestResultStatus, body: Option<String>) -> (r: RequestResult)
    ensures
        r.status == status,
        r.body == body,
        r.process_status is None,
        r.id is None,
{
    RequestResult { status: status, body: body, process_status: None, id: None }
}

/// The answer to a forwarded action: a success when the process took the
/// request, a failure otherwise.
pub fn forward_reply(delivered: bool) -> (r: RequestResult)
    ensures
        is_reply(r, action_reply_spec(false, delivered).0, action_reply_spec(false, delivered).1),
{
    let (status, body) = action_reply(false, delivered);
    reply_with(status, body)
}

/// The handler's entries after it records the status update `r`; any other
/// message leaves them as they are.
pub open spec fn apply_update(m: Map<usize, Process>, r: RequestResult) -> Map<usize, Process> {
    if r.status == RequestResultStatus::Update && r.id is Some && r.process_status is Some {
        m.insert(r.id->0, Process { status: r.process_status->0, ..m[r.id->0] })
    } else {
        m
    }
}

/// The handler's entries after it records `rs`, in order.
pub open spec fn apply_updates(m: Map<usize, Process>, rs: Seq<RequestResult>) -> Map<usize, Process>
    decreases rs.len(),
{
    if rs.len() == 0 {
        m
    } else {
        apply_update(apply_updates(m, rs.drop_last()), rs.last())
    }
}

pub struct ProcessHandler {
    processes: HashMap<usize, Process>,
    rocket_handler_ch: Receiver<Request>,
    process_handler_ch: Receiver<RequestResult>,
    handler_process_ch: Sender<RequestResult>,
}

impl ProcessHandler {
    /// The managed processes, by id.
    pub closed spec fn processes(&self) -> Map<usize, Process> {
        self.processes@
    }

    /// A handler with no processes, listening to the front end on `rocket_handler_ch`.
    /// The receiver on which requests from the front end arrive.
    pub closed spec fn request_receiver(&self) -> Receiver<Request> {
        self.rocket_handler_ch
    }

    /// The receiver on which the processes' status updates arrive.
    pub closed spec fn update_receiver(&self) -> Receiver<RequestResult> {
        self.process_handler_ch
    }

    /// The sender that the processes use for their status updates.
    pub closed spec fn update_sending_end(&self) -> Sender<RequestResult> {
        self.handler_process_ch
    }

    /// `other` has the same three channel ends as `self`.
    pub open spec fn same_channels(&self, other: &ProcessHandler) -> bool {
        &&& other.request_receiver() == self.request_receiver()
        &&& other.update_receiver() == self.update_receiver()
        &&& other.update_sending_end() == self.update_sending_end()
    }

    pub fn new(rocket_handler_ch: Receiver<Request>) -> (h: ProcessHandler)
        ensures
            h.processes() == Map::<usize, Process>::empty(),
            h.request_receiver() == rocket_handler_ch,
    {
        let (handler_process_ch, process_handler_ch) = unbounded();
        ProcessHandler {
            processes: HashMap::new(),
            rocket_handler_ch,
            process_handler_ch,
            handler_process_ch,
        }
    }

    /// Whether a process is registered under `id`.
    pub fn has_process(&self, id: usize) -> (b: bool)
        ensures
            b == self.processes().contains_key(id),
    {
        self.processes.contains_key(&id)
    }

    /// Where requests from the front end arrive.
    pub fn requests(&self) -> (r: &Receiver<Request>)
        ensures
            *r == self.request_receiver(),
    {
        &self.rocket_handler_ch
    }

    /// Where status updates from the processes arrive.
    pub fn updates(&self) -> (r: &Receiver<RequestResult>)
        ensures
            *r == self.update_receiver(),
    {
        &self.process_handler_ch
    }

    /// Where processes send their status updates.
    pub fn update_sender(&self) -> (s: &Sender<RequestResult>)
        ensures
            *s == self.update_sending_end(),
    {
        &self.handler_process_ch
    }

    /// Registers a process (off, with a fresh request channel) under its id,
    /// replacing any process registered under that id.
    pub fn start_process(
        &mut self,
        name: String,
        process_id: usize,
        git_url: String,
        branch: String,
        path: String,
        start_cmd: String,
        stop_cmd: String,
        build_cmd: String,
    )
        ensures
            old(self).same_channels(&*final(self)),
            final(self).processes().dom() == old(self).processes().dom().insert(process_id),
            forall|k: usize| k != process_id && #[trigger] old(self).processes().contains_key(k)
                ==> final(self).processes()[k] == old(self).processes()[k],
            ({
                let p = final(self).processes()[process_id];
                &&& p.name@ == name@
                &&& p.process_id == process_id
                &&& p.git_url@ == git_url@
                &&& p.branch@ == branch@
                &&& p.path@ == path@
                &&& p.start_cmd@ == start_cmd@
                &&& p.stop_cmd@ == stop_cmd@
                &&& p.build_cmd@ == build_cmd@
                &&& p.status == ProcessStatus::Off
            }),
    {
        let (tx2, _rx2) = unbounded();
        let process = Process {
            name,
            git_url,
            process_id,
            branch,
            path,
            start_cmd,
            stop_cmd,
            build_cmd,
            status: ProcessStatus::Off,
            sender: tx2,
        };
        let id = process.get_id();
        self.processes.insert(id, process);
        assert(self.processes@.dom() =~= old(self).processes@.dom().insert(process_id));
    }

    /// Registers the processes read from the database, in order.
    pub fn start_processes(&mut self, db_processes: Vec<(usize, ProcessSQLModel)>)
        ensures
            old(self).same_channels(&*final(self)),
            forall|k: usize| #[trigger] final(self).processes().contains_key(k)
                <==> old(self).processes().contains_key(k) || has_id(db_processes@, k),
            forall|k: usize| #[trigger] old(self).processes().contains_key(k) && !has_id(db_processes@, k)
                ==> final(self).processes()[k] == old(self).processes()[k],
            forall|i: int| 0 <= i < db_processes@.len() && last_with_id(db_processes@, i)
                ==> registered_from_model(final(self).processes()[#[trigger] db_processes@[i].0], db_processes@[i].0, db_processes@[i].1),
    {
        let n = db_processes.len();
        let mut idx: usize = 0;
        while idx < n
            invariant
                n == db_processes@.len(),
                idx <= n,
                old(self).same_channels(&*self),
                forall|k: usize| #[trigger] self.processes().contains_key(k)
                    <==> old(self).processes().contains_key(k) || has_id(db_processes@.take(idx as int), k),
                forall|k: usize| #[trigger] old(self).processes().contains_key(k) && !has_id(db_processes@.take(idx as int), k)
                    ==> self.processes()[k] == old(self).processes()[k],
                forall|i: int| 0 <= i < idx && last_with_id(db_processes@.take(idx as int), i)
                    ==> registered_from_model(self.processes()[#[trigger] db_processes@[i].0], db_processes@[i].0, db_processes@[i].1),
            decreases n - idx,
        {
            let id = db_processes[idx].0;
            let proc_ = &db_processes[idx].1;
            let ghost before = self.processes();
            let ghost pre = db_processes@.take(idx as int);
            let ghost post = db_processes@.take(idx + 1);
            assert(post =~= pre.push(db_processes@[idx as int]));
            self.start_process(
                proc_.name.clone(),
                id,
                proc_.git_url.clone(),
                proc_.branch.clone(),
                proc_.path.clone(),
                proc_.start_cmd.clone(),
                proc_.stop_cmd.clone(),
                proc_.build_cmd.clone(),
            );
            proof {
                assert forall|k: usize| #[trigger] self.processes().contains_key(k)
                    <==> old(self).processes().contains_key(k) || has_id(post, k) by {
                    if has_id(post, k) && !has_id(pre, k) {
                        let i = choose|i: int| 0 <= i < post.len() && #[trigger] post[i].0 == k;
                        assert(i == idx);
                    }
                    if has_id(pre, k) {
                        let i = choose|i: int| 0 <= i < pre.len() && #[trigger] pre[i].0 == k;
                        assert(post[i].0 == k);
                    }
                    if k == id {
                        assert(post[idx as int].0 == k);
                    }
                }
                assert forall|k: usize| #[trigger] old(self).processes().contains_key(k) && !has_id(post, k)
                    implies self.processes()[k] == old(self).processes()[k] by {
                    if has_id(pre, k) {
                        let i = choose|i: int| 0 <= i < pre.len() && #[trigger] pre[i].0 == k;
                        assert(post[i].0 == k);
                    }
                    if k == id {
                        assert(post[idx as int].0 == k);
                    }
                    assert(k != id);
                    assert(!has_id(pre, k));
                    assert(before.contains_key(k));
                    assert(self.processes()[k] == before[k]);
                }
                assert forall|i: int| 0 <= i < idx + 1 && last_with_id(post, i)
                    implies registered_from_model(self.processes()[#[trigger] db_processes@[i].0], db_processes@[i].0, db_processes@[i].1) by {
                    if i < idx {
                        assert(post[idx as int].0 != post[i].0);
                        assert(last_with_id(pre, i)) by {
                            assert forall|j: int| i < j < pre.len() implies #[trigger] pre[j].0 != pre[i].0 by {
                                assert(post[j] == pre[j]);
                            }
                        }
                        let k = db_processes@[i].0;
                        assert(pre[i].0 == k);
                        assert(has_id(pre, k));
                        assert(before.contains_key(k));
                        assert(k != id);
                        assert(self.processes()[k] == before[k]);
                        assert(registered_from_model(before[k], k, db_processes@[i].1));
                    } else {
                        assert(i == idx);
                        assert(db_processes@[i].0 == id);
                    }
                }
            }
            idx = idx + 1;
        }
        assert(db_processes@.take(n as int) =~= db_processes@);
    }

    /// Records a status update from a process.
    pub fn handle_process_requests(&mut self, mail: Option<RequestResult>)
        requires
            match mail {
                Some(r) => r.status == RequestResultStatus::Update && r.id is Some && r.process_status is Some
                    ==> old(self).processes().contains_key(r.id->0),
                None => true,
            },
        ensures
            old(self).same_channels(&*final(self)),
            match mail {
                Some(r) => final(self).processes() == apply_update(old(self).processes(), r),
                None => final(self).processes() == old(self).processes(),
            },
    {
        match mail {
            Some(RequestResult { status: RequestResultStatus::Update, body: _, id: Some(id), process_status: Some(process_status) }) => {
                self.set_process_status(id, process_status);
            },
            _ => {},
        }
    }

    fn set_process_status(&mut self, id: usize, status: ProcessStatus)
        requires
            old(self).processes().contains_key(id),
        ensures
            old(self).same_channels(&*final(self)),
            final(self).processes() == old(self).processes().insert(
                id,
                Process { status: status, ..old(self).processes()[id] },
            ),
    {
        let removed = self.processes.remove(&id);
        match removed {
            Some(mut process) => {
                process.set_status(status);
                self.processes.insert(id, process);
                assert(self.processes@ =~= old(self).processes@.insert(
                    id,
                    Process { status: status, ..old(self).processes@[id] },
                ));
            },
            None => {},
        }
    }

    /// Serves one message from the front end and gives what is to be sent
    /// for it: the process list, or the acknowledgement of a status report,
    /// as a reply on the message's answer channel; for an action, the busy
    /// refusal, or the action to pass on to the process.
    pub fn handle_api_requests(&mut self, mail: Option<Request>) -> (out: ApiOutcome)
        requires
            match mail {
                Some(m) => looked_up_id(m) is Some ==> old(self).processes().contains_key(looked_up_id(m)->0),
                None => true,
            },
        ensures
            old(self).same_channels(&*final(self)),
            match mail {
                Some(m) => api_served(m, old(self).processes(), final(self).processes(), out),
                None => final(self).processes() == old(self).processes() && out is Ignored,
            },
    {
        match mail {
            Some(Request {
                from: From::Rocket,
                rtype: RequestType::GetProcesses,
                id: _,
                processes: _,
                push_branch: _,
                status: _,
                answer_channel: Some(answer_channel),
            }) => {
                let body = proclist_as_string(&self.processes);
                let reply = reply_with(RequestResultStatus::Success, Some(body));
                ApiOutcome::Reply { to: answer_channel, reply }
            },
            Some(Request {
                from: From::Process,
                rtype: RequestType::Status,
                id: Some(id),
                processes: _,
                push_branch: _,
                status: Some(status),
                answer_channel: Some(answer_channel),
            }) => {
                self.set_process_status(id, status);
                ApiOutcome::Reply { to: answer_channel, reply: reply_with(RequestResultStatus::Success, None) }
            },
            Some(Request {
                from: From::Rocket,
                rtype: action,
                id: Some(id),
                processes: _,
                push_branch: _,
                status: _,
                answer_channel: Some(answer_channel),
            }) => self.send_action(id, answer_channel, action),
            _ => ApiOutcome::Ignored,
        }
    }

    /// Decides an action for process `id`: the busy refusal, to be sent on
    /// `answer_channel`, when the process is busy; otherwise the request that
    /// passes the action on to the process.
    pub fn send_action(
        &self,
        id: usize,
        answer_channel: Sender<RequestResult>,
        action: RequestType,
    ) -> (out: ApiOutcome)
        requires
            self.processes().contains_key(id),
        ensures
            action_outcome(out, self.processes()[id], id, action, answer_channel),
            out is Reply <==> (self.processes()[id].status == ProcessStatus::Terminating
                || self.processes()[id].status == ProcessStatus::Starting
                || self.processes()[id].status == ProcessStatus::Pulling
                || self.processes()[id].status == ProcessStatus::Building),
            out is Forward <==> (self.processes()[id].status == ProcessStatus::On
                || self.processes()[id].status == ProcessStatus::Off),
    {
        let process = self.processes.get(&id).unwrap();
        if process.is_busy() {
            let (status, body) = action_reply(true, false);
            return ApiOutcome::Reply { to: answer_channel, reply: reply_with(status, body) };
        }
        let request = Request {
            from: From::Handler,
            rtype: action,
            id: None,
            processes: None,
            push_branch: None,
            status: None,
            answer_channel: None,
        };
        ApiOutcome::Forward { id, request, answer_channel }
    }

    /// The channel on which process `id` takes requests from the handler.
    pub fn process_sender(&self, id: usize) -> (s: &Sender<Request>)
        requires
            self.processes().contains_key(id),
        ensures
            *s == self.processes()[id].sender,
    {
        &self.processes.get(&id).unwrap().sender
    }

    /// The processes that a configuration lists, by id (later entries replace
    /// earlier ones with the same id), each off and with a fresh channel.
    pub fn processes_from_config(config: Vec<ConfigProcess>) -> (map: HashMap<usize, Process>)
        ensures
            forall|k: usize| #[trigger] map@.contains_key(k)
                <==> exists|i: int| 0 <= i < config@.len() && #[trigger] config@[i].id == k,
            forall|i: int| 0 <= i < config@.len()
                && (forall|j: int| i < j < config@.len() ==> #[trigger] config@[j].id != config@[i].id)
                ==> registered_from_config(map@[#[trigger] config@[i].id], config@[i]),
    {
        let mut map: HashMap<usize, Process> = HashMap::new();
        let n = config.len();
        let mut idx: usize = 0;
        while idx < n
            invariant
                n == config@.len(),
                idx <= n,
                forall|k: usize| #[trigger] map@.contains_key(k)
                    <==> exists|i: int| 0 <= i < idx && #[trigger] config@[i].id == k,
                forall|i: int| 0 <= i < idx
                    && (forall|j: int| i < j < idx ==> #[trigger] config@[j].id != config@[i].id)
                    ==> registered_from_config(map@[#[trigger] config@[i].id], config@[i]),
            decreases n - idx,
        {
            let process = &config[idx];
            let (tx1, _rx1) = unbounded::<Request>();
            let id = process.id;
            map.insert(
                id,
                Process {
                    path: process.path.clone(),
                    git_url: process.git_url.clone(),
                    status: ProcessStatus::Off,
                    process_id: process.id,
                    name: process.name.clone(),
                    sender: tx1,
                    branch: process.branch.clone(),
                    start_cmd: String::new(),
                    stop_cmd: String::new(),
                    build_cmd: String::new(),
                },
            );
            proof {
                assert forall|k: usize| #[trigger] map@.contains_key(k)
                    <==> exists|i: int| 0 <= i < idx + 1 && #[trigger] config@[i].id == k by {
                    if k == id {
                        assert(config@[idx as int].id == k);
                    }
                }
            }
            idx = idx + 1;
        }
        map
    }
}

} // verus!
