use viloz::communication::protocols::{From, RequestResult, RequestResultStatus, RequestType};
use viloz::database::processes::{sanitize_process_sql_model, ProcessSQLModel};
use viloz::database::{sanitize_lowercased, sanitize_string, SanitizeError};
use viloz::endpoints::processes::create::ProcessCreateRequest;
use viloz::endpoints::processes::github::{branch_from_ref, github_request, GitHubJSON};
use viloz::endpoints::processes::update::ProcessUpdateRequest;
use viloz::endpoints::{HttpStatus, ResponseWait};
use viloz::guards::cors::CORS;
use viloz::guards::githubip::{host_part, GithubIP, GithubIPError};
use viloz::website::guards::timer::{TimerRequest, TimerRequestError};
use viloz::website::pages::home::{home_post_requests, parse_task_description, HomeContext, HomePostError};

fn sane_model() -> ProcessSQLModel {
    ProcessSQLModel {
        name: "web".into(),
        path: "/srv/web".into(),
        start_cmd: "run".into(),
        stop_cmd: "halt".into(),
        build_cmd: "build".into(),
        branch: "main".into(),
        git_url: "https://example.org/web.git".into(),
    }
}

#[test]
fn sanitizing_texts() {
    assert_eq!(sanitize_string("hello".into()), Ok(()));
    assert_eq!(sanitize_string("DROP it".into()), Err(SanitizeError::IllegalString));
    assert_eq!(sanitize_string("TaBle".into()), Err(SanitizeError::IllegalString));
    assert_eq!(sanitize_string("a;b".into()), Err(SanitizeError::IllegalString));
    assert_eq!(sanitize_string("a,b".into()), Err(SanitizeError::IllegalString));
    assert_eq!(sanitize_string("C:\\dir".into()), Err(SanitizeError::IllegalString));
    assert_eq!(sanitize_string("it's".into()), Err(SanitizeError::IllegalString));
    assert_eq!(sanitize_string("say \"hi\"".into()), Err(SanitizeError::IllegalString));
    assert_eq!(sanitize_string("somewhere".into()), Err(SanitizeError::IllegalString));
    assert_eq!(sanitize_string("".into()), Ok(()));
    // the check is on the lowercase form
    assert_eq!(sanitize_lowercased("DROP"), Ok(()));
    assert_eq!(sanitize_lowercased("drop"), Err(SanitizeError::IllegalString));
}

#[test]
fn sanitizing_process_models() {
    assert_eq!(sanitize_process_sql_model(sane_model()), Ok(()));
    let mut bad = sane_model();
    bad.git_url = "x'; drop table Processes".into();
    assert_eq!(sanitize_process_sql_model(bad), Err(SanitizeError::IllegalString));
    let mut bad = sane_model();
    bad.branch = "Insert".into();
    assert_eq!(sanitize_process_sql_model(bad), Err(SanitizeError::IllegalString));
}

#[test]
fn create_and_update_models() {
    let c = ProcessCreateRequest {
        name: "n".into(),
        start_cmd: "s".into(),
        stop_cmd: "t".into(),
        build_cmd: "b".into(),
        branch: "br".into(),
        git_url: "g".into(),
    };
    let m = c.to_process_model();
    assert_eq!(
        (m.name.as_str(), m.path.as_str(), m.start_cmd.as_str(), m.stop_cmd.as_str(), m.build_cmd.as_str(), m.branch.as_str(), m.git_url.as_str()),
        ("n", "", "s", "t", "b", "br", "g")
    );
    let u = ProcessUpdateRequest {
        name: "n".into(),
        path: "/p".into(),
        start_cmd: "s".into(),
        stop_cmd: "t".into(),
        build_cmd: "b".into(),
        branch: "br".into(),
        git_url: "g".into(),
    };
    assert_eq!(u.to_process_model().path, "/p");
}

#[test]
fn github_refs() {
    assert_eq!(branch_from_ref("refs/heads/main"), "main");
    assert_eq!(branch_from_ref("main"), "main");
    assert_eq!(branch_from_ref("refs/heads/"), "");
    let (atx, _arx) = crossbeam::channel::unbounded();
    let r = github_request(7, &GitHubJSON { reference: "refs/heads/dev".into() }, atx.clone());
    assert_eq!((r.from, r.rtype, r.id), (From::Rocket, RequestType::RestartPull, Some(7)));
    assert_eq!(r.push_branch.as_deref(), Some("dev"));
    assert!(r.answer_channel.unwrap().same_channel(&atx));
    assert!(r.processes.is_none() && r.status.is_none());
}

fn answer(status: RequestResultStatus, body: Option<&str>) -> RequestResult {
    RequestResult { status, body: body.map(|b| b.to_string()), process_status: None, id: None }
}

#[test]
fn waiting_for_the_handler() {
    let mut w = ResponseWait::new(1);
    assert_eq!(w.rounds_left, 2);
    assert!(w.waiting());
    assert!(w.on_answer(answer(RequestResultStatus::Update, None)).is_none());
    assert!(w.on_answer(answer(RequestResultStatus::Update, None)).is_none());
    assert!(!w.waiting());
    let mut w = ResponseWait::new(3);
    let r = w.on_answer(answer(RequestResultStatus::Success, Some("ignored"))).unwrap();
    assert_eq!((r.status, r.body), (HttpStatus::Success, None));
    let r = w.on_answer(answer(RequestResultStatus::Failed, Some("busy"))).unwrap();
    assert_eq!((r.status, r.body.as_deref()), (HttpStatus::InternalServerError, Some("busy")));
    let t = ResponseWait::timed_out();
    assert_eq!((t.status, t.body), (HttpStatus::InternalServerError, None));
    assert!(!ResponseWait::new(0).waiting());
}

#[test]
fn cors_headers() {
    let h = CORS.on_response(true, None);
    assert_eq!(h[0], ("Access-Control-Allow-Origin".to_string(), "http://localhost:4200".to_string()));
    assert_eq!(h[1], ("Access-Control-Allow-Headers".to_string(), "*".to_string()));
    assert_eq!(h[2].1, "POST, GET, PATCH, OPTIONS");
    assert_eq!(h[3], ("Access-Control-Allow-Credentials".to_string(), "true".to_string()));
    let h = CORS.on_response(false, Some("Content-Type"));
    assert_eq!(h[0].1, "https://server.viloz.xyz");
    assert_eq!(h[1].1, "Content-Type");
}

#[test]
fn github_addresses() {
    let list = vec!["192.30.252.0/22".to_string(), "2a0a:a440::/29".to_string()];
    assert_eq!(host_part("192.30.252.7:443"), "192.30.252.7");
    let ok = GithubIP::from_parts("192.30.252.7:443", &list).ok().unwrap();
    assert_eq!(ok.0, "192.30.252.7:443");
    assert!(matches!(GithubIP::from_parts("10.0.0.1:80", &list), Err(GithubIPError::WrongIP)));
    assert!(GithubIP::try_from_parts("10.0.0.1:80", &vec!["not a subnet".to_string()]).is_none());
    assert!(matches!(GithubIP::try_from_parts("10.0.0.1:80", &vec![]), Some(Err(GithubIPError::WrongIP))));
    assert!(matches!(GithubIP::try_from_parts("192.30.252.9:1", &list), Some(Ok(_))));
}

#[test]
fn request_timer() {
    let (r, cookie) = TimerRequest::from_parts(100, None);
    assert_eq!(r.ok().unwrap().0, "100");
    assert_eq!(cookie, "100");
    let (r, cookie) = TimerRequest::from_parts(100, Some("99"));
    assert!(matches!(r, Err(TimerRequestError::TooQuick)));
    assert_eq!(cookie, "100");
    let (r, _) = TimerRequest::from_parts(100, Some("97"));
    assert_eq!(r.ok().unwrap().0, "100");
    let (r, _) = TimerRequest::from_parts(100, Some("98"));
    assert!(r.is_err());
    // a time on record that lies ahead of now is refused too
    let (r, cookie) = TimerRequest::from_parts(100, Some("150"));
    assert!(matches!(r, Err(TimerRequestError::TooQuick)));
    assert_eq!(cookie, "100");
}

#[test]
fn home_page_tasks() {
    assert_eq!(parse_task_description("stop-3"), (RequestType::Stop, 3));
    assert_eq!(parse_task_description("restartpull-12-x"), (RequestType::RestartPull, 12));
    assert_eq!(parse_task_description("start-0"), (RequestType::Start, 0));
    let c = HomeContext::index_page(vec![]);
    assert_eq!((c.header, c.index), ("Header", "Website"));
    assert!(HomeContext::after_task("", vec![]).is_none());
    let c = HomeContext::after_task("upvote", vec![]).unwrap();
    assert_eq!((c.header, c.index), ("Header lmao", "You pressed the upvote button"));
    let c = HomeContext::after_task("stop-1", vec![]).unwrap();
    assert_eq!((c.header, c.index), ("header lmao", "stop-1"));
}

#[test]
fn home_page_button_requests() {
    let err = home_post_requests(false, "stop-3").err().unwrap();
    assert_eq!(err, HomePostError::Unauthorized);
    assert_eq!(err.status_code(), 401);
    assert_eq!(err.message(), "You need to be authorized to access this");
    // an unauthorized press is refused before its description is read
    assert!(home_post_requests(false, "nonsense").is_err());
    let (list, action) = home_post_requests(true, "restart-12").ok().unwrap();
    assert_eq!((list.from, list.rtype, list.id), (From::Rocket, RequestType::GetProcesses, None));
    assert!(list.answer_channel.is_none() && list.processes.is_none() && list.push_branch.is_none());
    assert_eq!((action.from, action.rtype, action.id), (From::Rocket, RequestType::Restart, Some(12)));
    assert!(action.answer_channel.is_none() && action.status.is_none());
}
