use monitor_services::monitor::{
    check_match, check_status, command_outcome, command_words, custom_check_precondition,
    finish_custom_check, finish_web_check, request_method, target_timeouts, Error, HttpMethod,
    MonitorAction,
};
use monitor_services::prog_settings::MonitorTarget;

fn target(kind: &str, expect_match: Option<&str>, expect_unmatch: Option<&str>) -> MonitorTarget {
    MonitorTarget {
        kind: kind.to_string(),
        url: "http://localhost/".to_string(),
        method: "GET".to_string(),
        body: None,
        check_interval_secs: None,
        expect_status_code: None,
        expect_match: expect_match.map(|s| s.to_string()),
        expect_unmatch: expect_unmatch.map(|s| s.to_string()),
        custom_check_cmd: String::new(),
        recovery_cmd: String::new(),
        connect_timeout: None,
        timeout: None,
        read_timeout: None,
    }
}

#[test]
fn error_keeps_its_message() {
    let e = Error::new("connection refused");
    assert_eq!(e.to_string(), "connection refused");
}

#[test]
fn action_from_kind() {
    assert_eq!(MonitorAction::from_target(&target("web", None, None)), Some(MonitorAction::Web));
    assert_eq!(MonitorAction::from_target(&target("custom", None, None)), Some(MonitorAction::CustomCommand));
    assert_eq!(MonitorAction::from_target(&target("ping", None, None)), None);
    assert_eq!(MonitorAction::from_target(&target("Web", None, None)), None);
}

#[test]
fn no_expectations_pass() {
    let t = target("web", None, None);
    assert_eq!(check_match(&t, Ok("anything")), Ok(None));
    assert_eq!(finish_web_check(&t, Ok("body".to_string())), Ok(Some("Web check succeeded.".to_string())));
    assert_eq!(
        finish_custom_check(&t, Ok(Some("out\n".to_string()))),
        Ok(Some("Custom command succeeded.".to_string()))
    );
}

#[test]
fn expect_match_passes_and_fails() {
    let t = target("web", Some("^status: (ok|up)$"), None);
    assert_eq!(check_match(&t, Ok("status: up")), Ok(None));
    assert_eq!(
        check_match(&t, Ok("status: down")),
        Err("Content did not match against regex: ^status: (ok|up)$".to_string())
    );
}

#[test]
fn unmatched_text_fails() {
    let t = target("web", Some("healthy"), Some("error"));
    assert_eq!(check_match(&t, Ok("sick")), Err("Content did not match against regex: healthy".to_string()));
}

#[test]
fn expect_unmatch_names_its_pattern() {
    let t = target("web", Some("ok"), Some("error"));
    assert_eq!(check_match(&t, Ok("ok but error")), Err("Content unexpectedly matched against regex: error".to_string()));
    assert_eq!(check_match(&t, Ok("ok")), Ok(None));
}

#[test]
fn expect_unmatch_alone_fails_a_matching_text() {
    let t = target("web", None, Some("down"));
    assert_eq!(check_match(&t, Ok("service down")), Err("Content unexpectedly matched against regex: down".to_string()));
    assert_eq!(check_match(&t, Ok("fine")), Ok(None));
    assert_eq!(
        finish_web_check(&t, Ok("service down".to_string())),
        Err("Content unexpectedly matched against regex: down".to_string())
    );
    let mut c = target("custom", None, Some("down"));
    c.custom_check_cmd = "status".to_string();
    assert_eq!(
        finish_custom_check(&c, Ok(Some("down\n".to_string()))),
        Err("Content unexpectedly matched against regex: down".to_string())
    );
}

#[test]
fn bad_pattern_reports_the_regex_error() {
    let t = target("web", Some("(unclosed"), None);
    let r = check_match(&t, Ok("x")).err().unwrap();
    assert!(r.contains("unclosed group"), "{}", r);
    let u = target("web", None, Some("[z-a]"));
    let r = check_match(&u, Ok("x")).err().unwrap();
    assert!(r.contains("invalid character class range"), "{}", r);
}

#[test]
fn missing_text_reports_its_error() {
    let t = target("web", Some("x"), None);
    assert_eq!(check_match(&t, Err(Error::new("no body"))), Err("no body".to_string()));
    let n = target("web", None, None);
    assert_eq!(check_match(&n, Err(Error::new("no body"))), Ok(None));
}

#[test]
fn command_words_split_like_a_shell() {
    assert_eq!(
        command_words("curl -s 'http://a b' \"x\\\"y\" # note"),
        Ok(vec!["curl".to_string(), "-s".to_string(), "http://a b".to_string(), "x\"y".to_string()])
    );
    assert_eq!(command_words(""), Ok(Vec::new()));
    assert_eq!(command_words("echo 'open"), Err("missing closing quote".to_string()));
}

#[test]
fn command_outcome_by_exit_status() {
    assert_eq!(command_outcome(true, "out", "err"), Ok(Some("out\nerr".to_string())));
    assert_eq!(command_outcome(false, "out", "err"), Err("Stdout:\nout\n\nStderr:\nerr\n".to_string()));
}

#[test]
fn failed_command_fails_check() {
    let t = target("custom", Some("never"), None);
    let failure = command_outcome(false, "o", "e");
    assert_eq!(finish_custom_check(&t, failure.clone()), failure);
}

#[test]
fn custom_check_needs_a_command() {
    let mut t = target("custom", None, None);
    assert_eq!(
        custom_check_precondition(&t),
        Err("The custom_check_cmd is not defined for the target.".to_string())
    );
    t.custom_check_cmd = "true".to_string();
    assert_eq!(custom_check_precondition(&t), Ok(()));
}

#[test]
fn custom_check_output_is_matched() {
    let t = target("custom", Some("^ready"), None);
    assert_eq!(finish_custom_check(&t, Ok(Some("ready\n".to_string()))), Ok(Some("Custom command succeeded.".to_string())));
    assert_eq!(
        finish_custom_check(&t, Ok(Some("starting\n".to_string()))),
        Err("Content did not match against regex: ^ready".to_string())
    );
}

#[test]
fn status_codes() {
    assert_eq!(check_status(200, None), Ok(()));
    assert_eq!(check_status(204, Some(204)), Ok(()));
    assert_eq!(
        check_status(404, Some(200)),
        Err("Got status code [404] != expected status code [200].".to_string())
    );
    assert_eq!(
        check_status(200, Some(301)),
        Err("Got status code [200] != expected status code [301].".to_string())
    );
}

#[test]
fn unreadable_body_fails_web_check() {
    let t = target("web", None, None);
    assert_eq!(
        finish_web_check(&t, Err("timed out".to_string())),
        Err("Failed to get body bytes: timed out".to_string())
    );
    let m = target("web", Some("ok"), None);
    assert_eq!(
        finish_web_check(&m, Ok("nope".to_string())),
        Err("Content did not match against regex: ok".to_string())
    );
}

#[test]
fn request_methods() {
    let mut t = target("web", None, None);
    for (name, m) in [
        ("OPTIONS", HttpMethod::Options), ("GET", HttpMethod::Get), ("POST", HttpMethod::Post),
        ("PUT", HttpMethod::Put), ("DELETE", HttpMethod::Delete), ("HEAD", HttpMethod::Head),
        ("TRACE", HttpMethod::Trace), ("CONNECT", HttpMethod::Connect), ("PATCH", HttpMethod::Patch),
    ] {
        t.method = name.to_string();
        assert_eq!(request_method(&t), Ok(m));
    }
    t.method = "get".to_string();
    assert_eq!(request_method(&t), Err("Unsupported method: get".to_string()));
}

#[test]
fn timeouts_default_to_common() {
    let mut t = target("web", None, None);
    t.read_timeout = Some(5);
    let common = monitor_services::prog_settings::CommonSettings {
        report_to: None, report_from: None, smtp_host: None, smtp_port: None, smtp_user: None, smtp_pass: None,
        smtp_starttls: false, smtp_no_verify_hostname: false, smtp_no_check_certificate: false,
        check_interval_secs: 30, min_log_level: monitor_services::log::LogLevel::Info,
        connect_timeout: 11, read_timeout: 12, timeout: 13,
    };
    let r = target_timeouts(&t, &common);
    assert_eq!((r.connect, r.read, r.general), (11, 5, 13));
}
