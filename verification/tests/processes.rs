use crossbeam::channel::unbounded;
use viloz::communication::protocols::{
    From, Request, RequestResult, RequestResultStatus, RequestType,
};
use viloz::database::processes::ProcessSQLModel;
use viloz::endpoints::processes::get_processes::{
    procstring_as_list, procstring_is_well_formed, processes_from_answer,
};
use viloz::process_handler::process::{
    Operation, Process, ProcessLoop, ProcessStatus,
};
use viloz::process_handler::{
    action_reply, forward_reply, proclist_as_string, ApiOutcome, ConfigProcess, ProcessHandler,
};
use std::collections::HashMap;

fn process(id: usize, name: &str, status: ProcessStatus) -> (Process, crossbeam::channel::Receiver<Request>) {
    let (tx, rx) = unbounded();
    (
        Process {
            path: "/srv/app".to_string(),
            git_url: "https://example.org/app.git".to_string(),
            status,
            process_id: id,
            name: name.to_string(),
            sender: tx,
            branch: "main".to_string(),
            start_cmd: "run".to_string(),
            stop_cmd: "halt".to_string(),
            build_cmd: "build".to_string(),
        },
        rx,
    )
}

fn model(name: &str) -> ProcessSQLModel {
    ProcessSQLModel {
        name: name.to_string(),
        path: "/srv".to_string(),
        start_cmd: "up".to_string(),
        stop_cmd: "down".to_string(),
        build_cmd: "all".to_string(),
        branch: "main".to_string(),
        git_url: "git@host:x".to_string(),
    }
}

#[test]
fn busy_statuses() {
    for (s, busy) in [
        (ProcessStatus::On, false),
        (ProcessStatus::Off, false),
        (ProcessStatus::Starting, true),
        (ProcessStatus::Building, true),
        (ProcessStatus::Pulling, true),
        (ProcessStatus::Terminating, true),
    ] {
        let (p, _rx) = process(1, "a", s);
        assert_eq!(p.is_busy(), busy);
    }
}

#[test]
fn getters_and_setters() {
    let (mut p, _rx) = process(9, "web", ProcessStatus::Off);
    assert_eq!(p.get_name(), "web");
    assert_eq!(p.get_id(), 9);
    p.set_status(ProcessStatus::On);
    assert_eq!(p.get_status(), ProcessStatus::On);
    let (tx, _rx2) = unbounded();
    p.set_sender(tx);
    assert_eq!(p.get_status(), ProcessStatus::On);
}

#[test]
fn start_reports_building_starting_on() {
    let (mut p, _rx) = process(3, "web", ProcessStatus::Off);
    let mut updates = Vec::new();
    let mut commands = Vec::new();
    for phase in 0..Operation::Start.phase_count() {
        let step = p.enter_phase(Operation::Start, phase);
        updates.push((step.update.status, step.update.process_status, step.update.id, step.update.body));
        commands.push(step.command.map(|c| (c.program, c.arg, c.dir, c.spawn)));
    }
    assert_eq!(p.get_status(), ProcessStatus::On);
    assert_eq!(
        updates,
        vec![
            (RequestResultStatus::Update, Some(ProcessStatus::Building), Some(3), None),
            (RequestResultStatus::Update, Some(ProcessStatus::Starting), Some(3), None),
            (RequestResultStatus::Update, Some(ProcessStatus::On), Some(3), None),
        ]
    );
    assert_eq!(
        commands,
        vec![
            Some(("sh".to_string(), "/srv/app/api/build.sh".to_string(), "/srv/app".to_string(), false)),
            Some(("sh".to_string(), "/srv/app/api/start.sh".to_string(), "/srv/app".to_string(), true)),
            None,
        ]
    );
}

#[test]
fn stop_and_pull_phases() {
    let (mut p, _rx) = process(4, "web", ProcessStatus::On);
    let mut statuses = Vec::new();
    let step = p.enter_phase(Operation::Stop, 0);
    statuses.push(step.update.process_status);
    let c = step.command.unwrap();
    assert_eq!((c.program.as_str(), c.arg.as_str(), c.spawn), ("sh", "/srv/app/api/stop.sh", false));
    assert_eq!(p.get_status(), ProcessStatus::Terminating);
    let step = p.enter_phase(Operation::Stop, 1);
    statuses.push(step.update.process_status);
    assert!(step.command.is_none());
    assert_eq!(p.get_status(), ProcessStatus::Off);
    let step = p.enter_phase(Operation::Pull, 0);
    statuses.push(step.update.process_status);
    let c = step.command.unwrap();
    assert_eq!((c.program.as_str(), c.arg.as_str(), c.dir.as_str()), ("sh", "/srv/app/api/pull.sh", "/srv/app"));
    // pulling only reports its statuses
    assert_eq!(p.get_status(), ProcessStatus::Off);
    let step = p.enter_phase(Operation::Pull, 1);
    statuses.push(step.update.process_status);
    assert!(step.command.is_none());
    assert_eq!(step.update.id, Some(4));
    assert_eq!(
        statuses,
        vec![
            Some(ProcessStatus::Terminating),
            Some(ProcessStatus::Off),
            Some(ProcessStatus::Pulling),
            Some(ProcessStatus::Off),
        ]
    );
}

#[test]
fn handler_follows_the_reports_of_an_operation() {
    let (_tx, rx) = unbounded();
    let mut h = ProcessHandler::new(rx);
    h.start_processes(vec![(5, model("svc"))]);
    let (mut p, _prx) = process(5, "svc", ProcessStatus::Off);
    for phase in 0..Operation::Start.phase_count() {
        let step = p.enter_phase(Operation::Start, phase);
        h.handle_process_requests(Some(step.update));
    }
    assert_eq!(listing(&mut h), "svc,5,On");
    for phase in 0..Operation::Stop.phase_count() {
        let step = p.enter_phase(Operation::Stop, phase);
        h.handle_process_requests(Some(step.update));
        if phase == 0 {
            assert_eq!(listing(&mut h), "svc,5,Terminating");
        }
    }
    assert_eq!(listing(&mut h), "svc,5,Off");
    assert_eq!(p.get_status(), ProcessStatus::Off);
}

fn handler_request(rtype: RequestType) -> Request {
    Request { from: From::Handler, rtype, ..Default::default() }
}

#[test]
fn loop_decisions() {
    assert_eq!(ProcessLoop::initial_operations(), vec![Operation::Pull, Operation::Start]);
    let mut l = ProcessLoop::new();
    assert_eq!(l.on_mail(ProcessStatus::Off, Some(&handler_request(RequestType::Start))), vec![Operation::Start]);
    assert_eq!(l.on_mail(ProcessStatus::On, Some(&handler_request(RequestType::Stop))), vec![Operation::Stop]);
    assert_eq!(
        l.on_mail(ProcessStatus::On, Some(&handler_request(RequestType::Restart))),
        vec![Operation::Stop, Operation::Start]
    );
    assert_eq!(l.on_mail(ProcessStatus::Off, Some(&handler_request(RequestType::RestartPull))), vec![Operation::Pull]);
    assert_eq!(
        l.on_mail(ProcessStatus::On, Some(&handler_request(RequestType::RestartPull))),
        vec![Operation::Stop, Operation::Pull, Operation::Start]
    );
    assert!(l.on_mail(ProcessStatus::On, Some(&handler_request(RequestType::Github))).is_empty());
    let from_front = Request { from: From::Rocket, rtype: RequestType::Start, ..Default::default() };
    assert!(l.on_mail(ProcessStatus::Off, Some(&from_front)).is_empty());
    assert!(l.on_mail(ProcessStatus::Off, None).is_empty());
    assert!(!l.restart_and_pull);
}

#[test]
fn restart_pull_waits_while_busy() {
    let mut l = ProcessLoop::new();
    assert!(l.on_mail(ProcessStatus::Starting, Some(&handler_request(RequestType::RestartPull))).is_empty());
    assert!(l.restart_and_pull);
    assert!(l.on_pending(ProcessStatus::Building).is_empty());
    assert!(l.restart_and_pull);
    assert_eq!(l.on_pending(ProcessStatus::On), vec![Operation::Stop, Operation::Pull, Operation::Start]);
    assert!(!l.restart_and_pull);
    assert!(l.on_pending(ProcessStatus::On).is_empty());
    assert!(l.on_mail(ProcessStatus::Pulling, Some(&handler_request(RequestType::RestartPull))).is_empty());
    assert_eq!(l.on_pending(ProcessStatus::Off), vec![Operation::Pull]);
}

#[test]
fn process_list_text_and_back() {
    let mut m = HashMap::new();
    let (a, _ra) = process(1, "alpha", ProcessStatus::On);
    let (b, _rb) = process(22, "beta", ProcessStatus::Off);
    m.insert(1, a);
    m.insert(22, b);
    let text = proclist_as_string(&m);
    assert!(text == "alpha,1,On:beta,22,Off" || text == "beta,22,Off:alpha,1,On", "{}", text);
    assert!(procstring_is_well_formed(&text));
    let mut entries: Vec<(String, String, String)> =
        procstring_as_list(text).into_iter().map(|e| (e.name, e.id, e.status)).collect();
    entries.sort();
    assert_eq!(
        entries,
        vec![
            ("alpha".to_string(), "1".to_string(), "On".to_string()),
            ("beta".to_string(), "22".to_string(), "Off".to_string()),
        ]
    );
    assert_eq!(proclist_as_string(&HashMap::new()), "");
}

#[test]
fn process_list_reading_edge_cases() {
    assert!(procstring_as_list(String::new()).is_empty());
    let one = procstring_as_list("n,7,Pulling,extra".to_string());
    assert_eq!((one[0].name.as_str(), one[0].id.as_str(), one[0].status.as_str()), ("n", "7", "Pulling"));
    assert!(!procstring_is_well_formed(&"a,1".to_string()));
    assert!(!procstring_is_well_formed(&"a,1,On:".to_string()));
    assert!(procstring_is_well_formed(&"".to_string()));
}

#[test]
fn answers_to_process_listing() {
    let ok = RequestResult {
        status: RequestResultStatus::Success,
        body: Some("a,1,On".to_string()),
        process_status: None,
        id: None,
    };
    let task = processes_from_answer(Some(ok)).unwrap();
    assert_eq!(task.processes.len(), 1);
    assert_eq!(task.processes[0].name, "a");
    let no_body = RequestResult { status: RequestResultStatus::Success, ..Default::default() };
    assert!(processes_from_answer(Some(no_body)).is_none());
    let failed = RequestResult { status: RequestResultStatus::Failed, body: Some("x".into()), ..Default::default() };
    assert!(processes_from_answer(Some(failed)).is_none());
    assert!(processes_from_answer(None).is_none());
}

fn listing(h: &mut ProcessHandler) -> String {
    let (tx, _rx) = unbounded();
    match h.handle_api_requests(Some(Request::from_frontend(RequestType::GetProcesses, None, Some(tx.clone())))) {
        ApiOutcome::Reply { to, reply } => {
            assert!(to.same_channel(&tx));
            assert_eq!((reply.status, reply.process_status, reply.id), (RequestResultStatus::Success, None, None));
            reply.body.unwrap()
        }
        other => panic!("unexpected outcome {:?}", other),
    }
}

#[test]
fn handler_registers_and_lists_processes() {
    let (_tx, rx) = unbounded();
    let mut h = ProcessHandler::new(rx);
    assert_eq!(listing(&mut h), "");
    h.start_processes(vec![(4, model("one")), (4, model("two"))]);
    assert_eq!(listing(&mut h), "two,4,Off");
    h.start_process(
        "x".into(), 4, "g".into(), "b".into(), "p".into(), "s".into(), "t".into(), "u".into(),
    );
    assert_eq!(listing(&mut h), "x,4,Off");
}

#[test]
fn handler_records_status_updates() {
    let (_tx, rx) = unbounded();
    let mut h = ProcessHandler::new(rx);
    h.start_processes(vec![(1, model("svc"))]);
    h.handle_process_requests(Some(RequestResult {
        status: RequestResultStatus::Update,
        body: None,
        process_status: Some(ProcessStatus::Starting),
        id: Some(1),
    }));
    assert_eq!(listing(&mut h), "svc,1,Starting");
    // anything but an update leaves the processes alone
    h.handle_process_requests(Some(RequestResult { status: RequestResultStatus::Success, id: Some(1), process_status: Some(ProcessStatus::On), body: None }));
    h.handle_process_requests(None);
    assert_eq!(listing(&mut h), "svc,1,Starting");
    let (atx, _arx) = unbounded();
    let out = h.handle_api_requests(Some(Request {
        from: From::Process,
        rtype: RequestType::Status,
        id: Some(1),
        status: Some(ProcessStatus::On),
        answer_channel: Some(atx.clone()),
        ..Default::default()
    }));
    match out {
        ApiOutcome::Reply { to, reply } => {
            assert!(to.same_channel(&atx));
            assert_eq!((reply.status, reply.body, reply.process_status, reply.id), (RequestResultStatus::Success, None, None, None));
        }
        other => panic!("unexpected outcome {:?}", other),
    }
    assert_eq!(listing(&mut h), "svc,1,On");
}

#[test]
fn handler_refuses_actions_on_busy_processes() {
    let (_tx, rx) = unbounded();
    let mut h = ProcessHandler::new(rx);
    h.start_processes(vec![(2, model("svc"))]);
    h.handle_process_requests(Some(RequestResult {
        status: RequestResultStatus::Update,
        body: None,
        process_status: Some(ProcessStatus::Pulling),
        id: Some(2),
    }));
    let (atx, _arx) = unbounded();
    let out = h.handle_api_requests(Some(Request::from_frontend(RequestType::Stop, Some(2), Some(atx.clone()))));
    let msg = "That process is busy with. Please try again later.".to_string();
    match out {
        ApiOutcome::Reply { to, reply } => {
            assert!(to.same_channel(&atx));
            assert_eq!((reply.status, reply.body, reply.process_status, reply.id), (RequestResultStatus::Failed, Some(msg), None, None));
        }
        other => panic!("unexpected outcome {:?}", other),
    }
}

#[test]
fn handler_forwards_actions_to_idle_processes() {
    let (_tx, rx) = unbounded();
    let mut h = ProcessHandler::new(rx);
    h.start_processes(vec![(2, model("svc"))]);
    let (atx, _arx) = unbounded();
    let out = h.handle_api_requests(Some(Request::from_frontend(RequestType::Restart, Some(2), Some(atx.clone()))));
    match out {
        ApiOutcome::Forward { id, request, answer_channel } => {
            assert_eq!(id, 2);
            assert!(answer_channel.same_channel(&atx));
            assert_eq!((request.from, request.rtype, request.id), (From::Handler, RequestType::Restart, None));
            assert!(request.processes.is_none() && request.push_branch.is_none());
            assert!(request.status.is_none() && request.answer_channel.is_none());
            // the handler keeps no receiver for a registered process, so the request is not taken
            assert!(h.process_sender(2).send(request).is_err());
        }
        other => panic!("unexpected outcome {:?}", other),
    }
    // messages that match no case are ignored
    assert!(matches!(
        h.handle_api_requests(Some(Request::from_frontend(RequestType::Start, Some(2), None))),
        ApiOutcome::Ignored
    ));
    assert!(matches!(h.handle_api_requests(None), ApiOutcome::Ignored));
}

#[test]
fn answers_to_forwarded_actions() {
    let taken = forward_reply(true);
    assert_eq!((taken.status, taken.body, taken.process_status, taken.id), (RequestResultStatus::Success, None, None, None));
    let refused = forward_reply(false);
    assert_eq!((refused.status, refused.body, refused.process_status, refused.id), (RequestResultStatus::Failed, None, None, None));
}

#[test]
fn action_replies() {
    assert_eq!(action_reply(false, true), (RequestResultStatus::Success, None));
    assert_eq!(action_reply(false, false), (RequestResultStatus::Failed, None));
    assert_eq!(action_reply(true, true).0, RequestResultStatus::Failed);
}

#[test]
fn processes_from_a_configuration() {
    let config = vec![
        ConfigProcess { path: "/a".into(), git_url: "u".into(), name: "a".into(), branch: "main".into(), id: 1 },
        ConfigProcess { path: "/b".into(), git_url: "v".into(), name: "b".into(), branch: "dev".into(), id: 1 },
    ];
    let map = ProcessHandler::processes_from_config(config);
    assert_eq!(map.len(), 1);
    let p = &map[&1];
    assert_eq!((p.name.as_str(), p.path.as_str(), p.branch.as_str(), p.status), ("b", "/b", "dev", ProcessStatus::Off));
    assert!(p.start_cmd.is_empty() && p.stop_cmd.is_empty() && p.build_cmd.is_empty());
}

#[test]
fn handler_channel_ends() {
    let (tx, rx) = unbounded();
    let h = ProcessHandler::new(rx);
    tx.send(Request::default()).unwrap();
    assert!(h.requests().try_recv().is_ok());
    h.update_sender().send(RequestResult::default()).unwrap();
    assert_eq!(h.updates().try_recv().unwrap().status, RequestResultStatus::Update);
}

#[test]
fn handler_keeps_its_channels() {
    let (tx, rx) = unbounded();
    let mut h = ProcessHandler::new(rx);
    h.start_processes(vec![(1, model("svc"))]);
    h.handle_process_requests(Some(RequestResult::default()));
    let _ = h.handle_api_requests(None);
    tx.send(handler_request(RequestType::Start)).unwrap();
    assert_eq!(h.requests().try_recv().unwrap().rtype, RequestType::Start);
    h.update_sender().send(RequestResult::default()).unwrap();
    assert!(h.updates().try_recv().is_ok());
}

#[test]
fn processes_can_be_cloned() {
    let (p, rx) = process(6, "web", ProcessStatus::On);
    let q = p.clone();
    assert_eq!((q.get_id(), q.get_status(), q.name.as_str()), (6, ProcessStatus::On, "web"));
    q.sender.send(handler_request(RequestType::Stop)).unwrap();
    assert_eq!(rx.try_recv().unwrap().rtype, RequestType::Stop);
}
