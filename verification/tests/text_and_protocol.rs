use viloz::communication::protocols::{
    string_to_rtype, From, Request, RequestResult, RequestResultStatus, RequestType,
};
use viloz::process_handler::process::{status_to_string, ProcessStatus};
use viloz::text::{
    chars_of, contains_chars, decimal_string, parse_unsigned_chars, split_chars, string_of,
};

fn chars(s: &str) -> Vec<char> {
    s.chars().collect()
}

#[test]
fn decimal_strings() {
    assert_eq!(decimal_string(0), "0");
    assert_eq!(decimal_string(7), "7");
    assert_eq!(decimal_string(1234), "1234");
    assert_eq!(decimal_string(usize::MAX), usize::MAX.to_string());
}

#[test]
fn unsigned_parsing_follows_str_parse() {
    for s in ["0", "007", "+5", "+", "", "-1", "12a", "++1", "18446744073709551615", "18446744073709551616"] {
        let expected = s.parse::<u64>().ok();
        assert_eq!(parse_unsigned_chars(&chars(s), u64::MAX), expected, "input {:?}", s);
    }
    assert_eq!(parse_unsigned_chars(&chars("256"), 255), None);
    assert_eq!(parse_unsigned_chars(&chars("255"), 255), Some(255));
}

#[test]
fn substring_search() {
    assert!(contains_chars(&chars("hello world"), &chars("o w")));
    assert!(contains_chars(&chars("abc"), &chars("")));
    assert!(!contains_chars(&chars("abc"), &chars("abcd")));
    assert!(!contains_chars(&chars("abc"), &chars("cb")));
}

#[test]
fn splitting_like_str_split() {
    for (s, sep) in [("a:b::", ':'), ("", ':'), (":", ':'), ("x,y,z", ','), ("noseparator", '/')] {
        let parts: Vec<String> = split_chars(&chars(s), sep).iter().map(|p| string_of(p)).collect();
        let expected: Vec<String> = s.split(sep).map(|p| p.to_string()).collect();
        assert_eq!(parts, expected);
    }
    assert_eq!(chars_of("héllo"), chars("héllo"));
}

#[test]
fn button_labels_name_request_types() {
    assert_eq!(string_to_rtype("stop"), RequestType::Stop);
    assert_eq!(string_to_rtype("start"), RequestType::Start);
    assert_eq!(string_to_rtype("restart"), RequestType::Restart);
    assert_eq!(string_to_rtype("restartpull"), RequestType::RestartPull);
    assert_eq!(string_to_rtype("Stop"), RequestType::RestartPull);
    assert_eq!(string_to_rtype(""), RequestType::RestartPull);
}

#[test]
fn request_type_names() {
    assert_eq!(RequestType::Status.to_string(), "Status");
    assert_eq!(RequestType::RestartPull.to_string(), "RestartPull");
    assert_eq!(RequestType::GetProcesses.to_string(), "GetProcesses");
    assert_eq!(RequestType::ProcessRemoved.to_string(), "ProcessRemoved");
    assert_eq!(RequestType::ProcessUpdated.to_string(), "ProcessUpdated");
}

#[test]
fn status_names() {
    assert_eq!(status_to_string(ProcessStatus::On), "On");
    assert_eq!(status_to_string(ProcessStatus::Starting), "Starting");
    assert_eq!(status_to_string(ProcessStatus::Building), "Building");
    assert_eq!(status_to_string(ProcessStatus::Pulling), "Pulling");
    assert_eq!(status_to_string(ProcessStatus::Terminating), "Terminating");
    assert_eq!(status_to_string(ProcessStatus::Off), "Off");
}

#[test]
fn default_messages() {
    let r = Request::default();
    assert_eq!(r.from, From::Handler);
    assert_eq!(r.rtype, RequestType::Stop);
    assert!(r.id.is_none() && r.processes.is_none() && r.push_branch.is_none());
    assert!(r.status.is_none() && r.answer_channel.is_none());
    let a = RequestResult::default();
    assert_eq!(a.status, RequestResultStatus::Update);
    assert!(a.body.is_none() && a.process_status.is_none() && a.id.is_none());
    let (tx, _rx) = crossbeam::channel::unbounded();
    let f = Request::from_frontend(RequestType::Start, Some(4), Some(tx));
    assert_eq!(f.from, From::Rocket);
    assert_eq!(f.rtype, RequestType::Start);
    assert_eq!(f.id, Some(4));
    assert!(f.answer_channel.is_some());
}
