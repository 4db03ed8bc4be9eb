//! Contains the process struct: its status, the steps of starting, stopping
//! and pulling a process, and the decisions of the loop that serves the
//! handler's requests for one process.

use vstd::prelude::*;
use crossbeam::channel::Sender;
use crate::communication::protocols::{From, Request, RequestResult, RequestResultStatus, RequestType};

verus! {

/// Enum to differentiate the status of the process.
#[derive(Clone, Copy, PartialEq, Eq, Debug, Structural)]
pub enum ProcessStatus {
    On,
    Starting,
    Building,
    Pulling,
    Terminating,
    Off,
}

/// The text of a status.
pub open spec fn status_name(status: ProcessStatus) -> Seq<char> {
    match status {
        ProcessStatus::On => "On"@,
        ProcessStatus::Starting => "Starting"@,
        ProcessStatus::Pulling => "Pulling"@,
        ProcessStatus::Terminating => "Terminating"@,
        ProcessStatus::Off => "Off"@,
        ProcessStatus::Building => "Building"@,
    }
}

/// A status that only holds while an operation is under way.
pub open spec fn busy_status(status: ProcessStatus) -> bool {
    status == ProcessStatus::Terminating || status == ProcessStatus::Starting
        || status == ProcessStatus::Pulling || status == ProcessStatus::Building
}

/// Convert ProcessStatus to a String.
pub fn status_to_string(status: ProcessStatus) -> (s: String)
    ensures
        s@ == status_name(status),
{
    match status {
        ProcessStatus::On => String::from_str("On"),
        ProcessStatus::Starting => String::from_str("Starting"),
        ProcessStatus::Pulling => String::from_str("Pulling"),
        ProcessStatus::Terminating => String::from_str("Terminating"),
        ProcessStatus::Off => String::from_str("Off"),
        ProcessStatus::Building => String::from_str("Building"),
    }
}

/// Status texts hold neither of the separators of the process list.
pub proof fn lemma_status_name_plain(status: ProcessStatus)
    ensures
        !status_name(status).contains(','),
        !status_name(status).contains(':'),
{
    reveal_strlit("On");
    reveal_strlit("Starting");
    reveal_strlit("Pulling");
    reveal_strlit("Terminating");
    reveal_strlit("Off");
    reveal_strlit("Building");
    let s = status_name(status);
    assert forall|i: int| 0 <= i < s.len() implies s[i] != ',' && s[i] != ':' by {}
}

/// The process struct and its fields.
#[derive(Clone, Debug)]
pub struct Process {
    pub path: String,
    pub git_url: String,
    pub status: ProcessStatus,
    pub process_id: usize,
    pub name: String,
    pub sender: Sender<Request>,
    pub branch: String,
    pub start_cmd: String,
    pub stop_cmd: String,
    pub build_cmd: String,
}

/// An operation that a process performs on request.
#[derive(Clone, Copy, PartialEq, Eq, Debug, Structural)]
pub enum Operation {
    Start,
    Stop,
    Pull,
}

/// The statuses reported while an operation runs, one per phase, in order.
pub open spec fn reported_statuses(op: Operation) -> Seq<ProcessStatus> {
    match op {
        Operation::Start => seq![ProcessStatus::Building, ProcessStatus::Starting, ProcessStatus::On],
        Operation::Stop => seq![ProcessStatus::Terminating, ProcessStatus::Off],
        Operation::Pull => seq![ProcessStatus::Pulling, ProcessStatus::Off],
    }
}

/// Whether the process records the reported statuses as its own status
/// (starting and stopping do; pulling only reports them).
pub open spec fn records_status(op: Operation) -> bool {
    op != Operation::Pull
}

/// The process's own status once phase `phase` of `op` has begun.
pub open spec fn status_in_phase(op: Operation, phase: int, before: ProcessStatus) -> ProcessStatus {
    if records_status(op) { reported_statuses(op)[phase] } else { before }
}

/// The process's own status after phases `0..k` of `op`, starting from `s`.
pub open spec fn status_after_phases(op: Operation, k: nat, s: ProcessStatus) -> ProcessStatus
    decreases k,
{
    if k == 0 { s } else { status_in_phase(op, k - 1, status_after_phases(op, (k - 1) as nat, s)) }
}

/// A command that a phase runs in the process's directory: `program arg`,
/// waited for, or spawned and left running.
#[derive(Clone, Debug)]
pub struct CommandSpec {
    pub program: String,
    pub arg: String,
    pub dir: String,
    pub spawn: bool,
}

/// What a process does when a phase of an operation begins: the status report
/// it sends to the handler, then the command it runs, if any.
#[derive(Debug)]
pub struct PhaseStep {
    pub update: RequestResult,
    pub command: Option<CommandSpec>,
}

/// The report that tells the handler that process `id` now has `status`.
pub open spec fn status_update(status: ProcessStatus, id: usize) -> RequestResult {
    RequestResult {
        status: RequestResultStatus::Update,
        body: None,
        process_status: Some(status),
        id: Some(id),
    }
}

/// The report sent when phase `phase` of `op` begins for process `id`.
pub open spec fn phase_update(op: Operation, phase: int, id: usize) -> RequestResult {
    status_update(reported_statuses(op)[phase], id)
}

/// Every report that an operation of process `id` sends, in order.
pub open spec fn operation_updates(op: Operation, id: usize) -> Seq<RequestResult> {
    match op {
        Operation::Start => seq![
            status_update(ProcessStatus::Building, id),
            status_update(ProcessStatus::Starting, id),
            status_update(ProcessStatus::On, id),
        ],
        Operation::Stop => seq![status_update(ProcessStatus::Terminating, id), status_update(ProcessStatus::Off, id)],
        Operation::Pull => seq![status_update(ProcessStatus::Pulling, id), status_update(ProcessStatus::Off, id)],
    }
}

/// The reports of an operation are those of its phases, one per phase.
pub proof fn lemma_operation_updates_are_phase_updates(op: Operation, id: usize)
    ensures
        operation_updates(op, id).len() == reported_statuses(op).len(),
        forall|i: int| 0 <= i < reported_statuses(op).len()
            ==> #[trigger] operation_updates(op, id)[i] == phase_update(op, i, id),
{
}

impl Operation {
    /// How many phases the operation has.
    pub fn phase_count(&self) -> (n: usize)
        ensures
            n == reported_statuses(*self).len(),
    {
        match self {
            Operation::Start => 3,
            Operation::Stop => 2,
            Operation::Pull => 2,
        }
    }
}

/// The script under `<path>/api` that a process keeps for `name`.
pub open spec fn script_path(p: Process, name: Seq<char>) -> Seq<char> {
    p.path@ + "/api/"@ + name
}

/// The command that follows the status report of a phase: the build script
/// (waited for), then the start script (left running) when starting; the stop
/// script when stopping; the pull script when pulling. Each is run by `sh` in
/// the process's directory.
pub open spec fn phase_command(p: Process, op: Operation, phase: int) -> Option<(Seq<char>, Seq<char>, Seq<char>, bool)> {
    match op {
        Operation::Start => if phase == 0 {
            Some(("sh"@, script_path(p, "build.sh"@), p.path@, false))
        } else if phase == 1 {
            Some(("sh"@, script_path(p, "start.sh"@), p.path@, true))
        } else {
            None
        },
        Operation::Stop => if phase == 0 { Some(("sh"@, script_path(p, "stop.sh"@), p.path@, false)) } else { None },
        Operation::Pull => if phase == 0 { Some(("sh"@, script_path(p, "pull.sh"@), p.path@, false)) } else { None },
    }
}

pub open spec fn command_matches(c: Option<CommandSpec>, s: Option<(Seq<char>, Seq<char>, Seq<char>, bool)>) -> bool {
    match (c, s) {
        (Some(c), Some(s)) => c.program@ == s.0 && c.arg@ == s.1 && c.dir@ == s.2 && c.spawn == s.3,
        (None, None) => true,
        _ => false,
    }
}

impl Process {
    /// Determines the channel the process should use to communicate with the handler.
    pub fn set_sender(&mut self, new_sender: Sender<Request>)
        ensures
            final(self).sender == new_sender,
            final(self).path == old(self).path,
            final(self).git_url == old(self).git_url,
            final(self).status == old(self).status,
            final(self).process_id == old(self).process_id,
            final(self).name == old(self).name,
            final(self).branch == old(self).branch,
            final(self).start_cmd == old(self).start_cmd,
            final(self).stop_cmd == old(self).stop_cmd,
            final(self).build_cmd == old(self).build_cmd,
    {
        self.sender = new_sender;
    }

    /// Get the name of the process.
    pub fn get_name(&mut self) -> (name: String)
        ensures
            name@ == old(self).name@,
            *final(self) == *old(self),
    {
        self.name.clone()
    }

    /// Set the status of the process.
    pub fn set_status(&mut self, new_status: ProcessStatus)
        ensures
            *final(self) == (Process { status: new_status, ..*old(self) }),
    {
        self.status = new_status;
    }

    /// Get the status of the process.
    pub fn get_status(&self) -> (status: ProcessStatus)
        ensures
            status == self.status,
    {
        self.status
    }

    /// Get the id of the process.
    pub fn get_id(&self) -> (id: usize)
        ensures
            id == self.process_id,
    {
        self.process_id
    }

    /// Whether the process is in the middle of an operation.
    pub fn is_busy(&self) -> (busy: bool)
        ensures
            busy == busy_status(self.status),
    {
        return self.status == ProcessStatus::Terminating || self.status == ProcessStatus::Starting
            || self.status == ProcessStatus::Pulling || self.status == ProcessStatus::Building;
    }

    /// The command that runs the script `name` under `<path>/api` with `sh`
    /// in the process's directory.
    fn script_command(&self, name: &str, spawn: bool) -> (c: CommandSpec)
        ensures
            c.program@ == "sh"@,
            c.arg@ == self.path@ + "/api/"@ + name@,
            c.dir@ == self.path@,
            c.spawn == spawn,
    {
        let arg = self.path.clone().concat("/api/").concat(name);
        CommandSpec { program: String::from_str("sh"), arg, dir: self.path.clone(), spawn }
    }

    /// Begins phase `phase` of `op`: records the phase's status (for starting
    /// and stopping) and gives the report to send to the handler and the
    /// command that the phase then runs, if any.
    pub fn enter_phase(&mut self, op: Operation, phase: usize) -> (step: PhaseStep)
        requires
            phase < reported_statuses(op).len(),
        ensures
            *final(self) == (Process { status: status_in_phase(op, phase as int, old(self).status), ..*old(self) }),
            step.update == phase_update(op, phase as int, old(self).process_id),
            command_matches(step.command, phase_command(*old(self), op, phase as int)),
    {
        let reported = match op {
            Operation::Start => if phase == 0 {
                ProcessStatus::Building
            } else if phase == 1 {
                ProcessStatus::Starting
            } else {
                ProcessStatus::On
            },
            Operation::Stop => if phase == 0 { ProcessStatus::Terminating } else { ProcessStatus::Off },
            Operation::Pull => if phase == 0 { ProcessStatus::Pulling } else { ProcessStatus::Off },
        };
        assert(reported == reported_statuses(op)[phase as int]);
        if op != Operation::Pull {
            self.set_status(reported);
        }
        let update = RequestResult {
            status: RequestResultStatus::Update,
            body: None,
            process_status: Some(reported),
            id: Some(self.get_id()),
        };
        let command = match op {
            Operation::Start => if phase == 0 {
                Some(self.script_command("build.sh", false))
            } else if phase == 1 {
                Some(self.script_command("start.sh", true))
            } else {
                None
            },
            Operation::Stop => if phase == 0 { Some(self.script_command("stop.sh", false)) } else { None },
            Operation::Pull => if phase == 0 { Some(self.script_command("pull.sh", false)) } else { None },
        };
        PhaseStep { update, command }
    }
}

/// The operations that a request from the handler calls for, given the
/// process's status; `None` means that a restart-and-pull is put off until
/// the process is idle.
pub open spec fn request_operations(status: ProcessStatus, rtype: RequestType) -> Option<Seq<Operation>> {
    match rtype {
        RequestType::Start => Some(seq![Operation::Start]),
        RequestType::Stop => Some(seq![Operation::Stop]),
        RequestType::Restart => Some(seq![Operation::Stop, Operation::Start]),
        RequestType::RestartPull => match status {
            ProcessStatus::Off => Some(seq![Operation::Pull]),
            ProcessStatus::On => Some(seq![Operation::Stop, Operation::Pull, Operation::Start]),
            _ => None,
        },
        _ => Some(Seq::empty()),
    }
}

/// The state that the loop of a process keeps between requests: whether a
/// restart-and-pull is waiting for the process to become idle.
#[derive(Clone, Copy, Debug)]
pub struct ProcessLoop {
    pub restart_and_pull: bool,
}

impl ProcessLoop {
    pub fn new() -> (l: ProcessLoop)
        ensures
            !l.restart_and_pull,
    {
        ProcessLoop { restart_and_pull: false }
    }

    /// What the loop does before serving requests: pull, then start.
    pub fn initial_operations() -> (ops: Vec<Operation>)
        ensures
            ops@ == seq![Operation::Pull, Operation::Start],
    {
        vec![Operation::Pull, Operation::Start]
    }

    /// The operations for one received message (`None` when the channel gave
    /// none). Only requests from the handler are served; a restart-and-pull
    /// that arrives while the process is busy is remembered instead.
    pub fn on_mail(&mut self, status: ProcessStatus, mail: Option<&Request>) -> (ops: Vec<Operation>)
        ensures
            mail matches Some(m) && m.from == From::Handler && m.rtype == RequestType::Restart
                ==> ops@ == seq![Operation::Stop, Operation::Start],
            mail matches Some(m) && m.from == From::Handler && m.rtype == RequestType::Start
                ==> ops@ == seq![Operation::Start],
            mail matches Some(m) && m.from == From::Handler && m.rtype == RequestType::Stop
                ==> ops@ == seq![Operation::Stop],
            match mail {
                Some(m) if m.from == From::Handler => match request_operations(status, m.rtype) {
                    Some(s) => ops@ == s && final(self).restart_and_pull == old(self).restart_and_pull,
                    None => ops@.len() == 0 && final(self).restart_and_pull,
                },
                _ => ops@.len() == 0 && final(self).restart_and_pull == old(self).restart_and_pull,
            },
    {
        match mail {
            Some(m) => {
                if m.from != From::Handler {
                    return Vec::new();
                }
                match m.rtype {
                    RequestType::Start => vec![Operation::Start],
                    RequestType::Stop => vec![Operation::Stop],
                    RequestType::Restart => vec![Operation::Stop, Operation::Start],
                    RequestType::RestartPull => match status {
                        ProcessStatus::Off => vec![Operation::Pull],
                        ProcessStatus::On => vec![Operation::Stop, Operation::Pull, Operation::Start],
                        _ => {
                            self.restart_and_pull = true;
                            Vec::new()
                        },
                    },
                    _ => Vec::new(),
                }
            },
            None => Vec::new(),
        }
    }

    /// After each message: a remembered restart-and-pull is carried out as
    /// soon as the process is on or off, and forgotten then.
    pub fn on_pending(&mut self, status: ProcessStatus) -> (ops: Vec<Operation>)
        ensures
            old(self).restart_and_pull && !busy_status(status) ==> {
                &&& Some(ops@) == request_operations(status, RequestType::RestartPull)
                &&& !final(self).restart_and_pull
            },
            !(old(self).restart_and_pull && !busy_status(status)) ==> {
                &&& ops@.len() == 0
                &&& final(self).restart_and_pull == old(self).restart_and_pull
            },
    {
        if !self.restart_and_pull {
            return Vec::new();
        }
        match status {
            ProcessStatus::Off => {
                self.restart_and_pull = false;
                vec![Operation::Pull]
            },
            ProcessStatus::On => {
                self.restart_and_pull = false;
                vec![Operation::Stop, Operation::Pull, Operation::Start]
            },
            _ => Vec::new(),
        }
    }
}


/// The busy statuses are exactly the statuses that an operation reports
/// before its last phase; the last status that an operation reports is never
/// busy.
pub proof fn lemma_busy_means_mid_operation(status: ProcessStatus)
    ensures
        busy_status(status) <==> exists|op: Operation, i: int|
            0 <= i < reported_statuses(op).len() - 1 && #[trigger] reported_statuses(op)[i] == status,
        forall|op: Operation| !busy_status(#[trigger] reported_statuses(op).last()),
{
    if busy_status(status) {
        match status {
            ProcessStatus::Building => { assert(reported_statuses(Operation::Start)[0] == status); },
            ProcessStatus::Starting => { assert(reported_statuses(Operation::Start)[1] == status); },
            ProcessStatus::Terminating => { assert(reported_statuses(Operation::Stop)[0] == status); },
            _ => { assert(reported_statuses(Operation::Pull)[0] == status); },
        }
    }
    assert forall|op: Operation, i: int|
        0 <= i < reported_statuses(op).len() - 1 && #[trigger] reported_statuses(op)[i] == status
        implies busy_status(status) by {
        match op {
            Operation::Start => { assert(i == 0 || i == 1); },
            Operation::Stop => { assert(i == 0); },
            Operation::Pull => { assert(i == 0); },
        }
    }
}

/// Once every phase of an operation has begun, starting leaves the process
/// on, stopping leaves it off, and pulling leaves its own status as it was.
pub proof fn lemma_operation_final_status(op: Operation, s: ProcessStatus)
    ensures
        status_after_phases(op, reported_statuses(op).len(), s) == (match op {
            Operation::Start => ProcessStatus::On,
            Operation::Stop => ProcessStatus::Off,
            Operation::Pull => s,
        }),
{
    reveal_with_fuel(status_after_phases, 4);
}

/// A restart-and-pull is put off exactly when the process is busy.
pub proof fn lemma_restart_pull_put_off_when_busy(status: ProcessStatus)
    ensures
        request_operations(status, RequestType::RestartPull) is None <==> busy_status(status),
{
}

/// The process's own status after running `ops` in order, from `s`.
pub open spec fn status_after_operations(ops: Seq<Operation>, s: ProcessStatus) -> ProcessStatus
    decreases ops.len(),
{
    if ops.len() == 0 {
        s
    } else {
        let before = status_after_operations(ops.drop_last(), s);
        status_after_phases(ops.last(), reported_statuses(ops.last()).len(), before)
    }
}

/// A restart from the handler stops the process and then starts it, whatever
/// its status, so it ends on; a start ends on and a stop ends off.
pub proof fn law_restart_stops_then_starts(status: ProcessStatus)
    ensures
        request_operations(status, RequestType::Restart) == Some(seq![Operation::Stop, Operation::Start]),
        status_after_operations(seq![Operation::Stop, Operation::Start], status) == ProcessStatus::On,
        request_operations(status, RequestType::Start) == Some(seq![Operation::Start]),
        status_after_operations(seq![Operation::Start], status) == ProcessStatus::On,
        request_operations(status, RequestType::Stop) == Some(seq![Operation::Stop]),
        status_after_operations(seq![Operation::Stop], status) == ProcessStatus::Off,
{
    lemma_operation_final_status(Operation::Stop, status);
    lemma_operation_final_status(Operation::Start, status);
    lemma_operation_final_status(Operation::Start, ProcessStatus::Off);
    let two = seq![Operation::Stop, Operation::Start];
    assert(two.drop_last() =~= seq![Operation::Stop]);
    assert(seq![Operation::Stop].drop_last() =~= Seq::<Operation>::empty());
    assert(seq![Operation::Start].drop_last() =~= Seq::<Operation>::empty());
    reveal_with_fuel(status_after_operations, 3);
}

} // verus!
