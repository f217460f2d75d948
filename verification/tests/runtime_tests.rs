use monitor_services::log::LogLevel;
use monitor_services::monitor::MonitorAction;
use monitor_services::prog_settings::{CommonSettings, MonitorTarget};
use monitor_services::report_by_email::{checked_report_email, plan_report_email, report_outcome_log, ReportKind};
use monitor_services::runtime::{
    plan_run, react_to_check, react_to_recovery, Effect, IdleTackler, MonitorRuntime, RunPlan,
};

fn target(kind: &str, recovery: &str) -> MonitorTarget {
    MonitorTarget {
        kind: kind.to_string(),
        url: "http://localhost/".to_string(),
        method: "GET".to_string(),
        body: None,
        check_interval_secs: None,
        expect_status_code: None,
        expect_match: None,
        expect_unmatch: None,
        custom_check_cmd: String::new(),
        recovery_cmd: recovery.to_string(),
        connect_timeout: None,
        timeout: None,
        read_timeout: None,
    }
}

fn common() -> CommonSettings {
    CommonSettings {
        report_to: Some("ops@example.com".to_string()),
        report_from: Some("monitor@example.com".to_string()),
        smtp_host: Some("smtp.example.com".to_string()),
        smtp_port: Some(587),
        smtp_user: Some("monitor".to_string()),
        smtp_pass: Some("SECRET-REDACTED".to_string()),
        smtp_starttls: true,
        smtp_no_verify_hostname: false,
        smtp_no_check_certificate: true,
        check_interval_secs: 30,
        min_log_level: LogLevel::Info,
        connect_timeout: 30,
        read_timeout: 30,
        timeout: 30,
    }
}

#[test]
fn plan_runs_once_the_interval_passed() {
    assert_eq!(plan_run(10_000, 0, 10), RunPlan::Run);
    assert_eq!(plan_run(10_001, 0, 10), RunPlan::Run);
    assert_eq!(plan_run(9_999, 0, 10), RunPlan::Wait(0));
    assert_eq!(plan_run(2_500, 0, 10), RunPlan::Wait(7));
    assert_eq!(plan_run(0, 0, 30), RunPlan::Wait(30));
    assert_eq!(plan_run(0, 0, 0), RunPlan::Run);
    assert_eq!(plan_run(0, 0, -5), RunPlan::Run);
    assert_eq!(plan_run(-1_000, 0, 1), RunPlan::Wait(2));
}

#[test]
fn plan_handles_extreme_clocks() {
    assert_eq!(plan_run(i64::MAX, i64::MIN, i32::MAX), RunPlan::Run);
    assert_eq!(plan_run(i64::MIN, i64::MAX, i32::MAX), RunPlan::Wait(18446746221193198));
}

#[test]
fn new_target_is_due_at_once() {
    let t = target("web", "");
    let mut rt = MonitorRuntime::new(&"site".to_string(), &t);
    assert_eq!(rt.last_ran_ms, -8334601228800000);
    assert_eq!(rt.action, MonitorAction::Sleep(0));
    assert_eq!(plan_run(0, rt.last_ran_ms, i32::MAX), RunPlan::Run);
    assert!(rt.schedule(30));
    assert_eq!(rt.action, MonitorAction::Web);
    assert!(rt.last_ran_ms > 1_600_000_000_000);
    assert!(rt.schedule(30));
    assert!(matches!(rt.action, MonitorAction::Sleep(s) if s >= 28 && s <= 30));
}

#[test]
fn target_interval_overrides_common() {
    let mut t = target("custom", "");
    t.check_interval_secs = Some(5);
    let mut rt = MonitorRuntime::new(&"c".to_string(), &t);
    assert_eq!(rt.interval(30), 5);
    rt.schedule_at(1_000_000, 1_000_001, 30);
    assert_eq!(rt.action, MonitorAction::CustomCommand);
    assert_eq!(rt.last_ran_ms, 1_000_001);
    rt.schedule_at(1_004_000, 1_004_000, 30);
    assert_eq!(rt.action, MonitorAction::Sleep(1));
    assert_eq!(rt.last_ran_ms, 1_000_001);
    rt.schedule_at(1_006_001, 1_006_002, 30);
    assert_eq!(rt.action, MonitorAction::CustomCommand);
    assert_eq!(rt.last_ran_ms, 1_006_002);
}

#[test]
fn unknown_kind_is_not_scheduled() {
    let t = target("ftp", "");
    let mut rt = MonitorRuntime::new(&"f".to_string(), &t);
    assert!(!rt.schedule(30));
    assert_eq!(rt.action, MonitorAction::Sleep(0));
    assert_eq!(rt.last_ran_ms, -8334601228800000);
}

#[test]
fn success_is_logged_not_reported() {
    let t = target("web", "systemctl restart web");
    assert_eq!(
        react_to_check("site", &t, Ok(Some("Web check succeeded.".to_string()))),
        vec![Effect::Log(LogLevel::Info, "Ok: Web check succeeded.".to_string())]
    );
    assert_eq!(react_to_check("site", &t, Ok(None)), Vec::new());
}

#[test]
fn failure_without_recovery_is_reported() {
    let t = target("web", "");
    assert_eq!(
        react_to_check("site", &t, Err("timeout".to_string())),
        vec![Effect::ReportError("[site]Fail: timeout".to_string())]
    );
}

#[test]
fn failure_with_recovery_runs_it() {
    let t = target("web", "systemctl restart web");
    assert_eq!(
        react_to_check("site", &t, Err("timeout".to_string())),
        vec![
            Effect::Log(LogLevel::Debug, "Recovery Exec: systemctl restart web".to_string()),
            Effect::RunRecovery("systemctl restart web".to_string()),
        ]
    );
}

#[test]
fn recovery_outcomes_are_reported_once() {
    assert_eq!(
        react_to_recovery("site", Ok(Some("restarted\n".to_string()))),
        vec![
            Effect::Log(LogLevel::Debug, "restarted\n".to_string()),
            Effect::Log(LogLevel::Warning, "Recovery command succeeded.".to_string()),
            Effect::ReportWarning("Failed but recovery command succeeded.".to_string()),
        ]
    );
    assert_eq!(
        react_to_recovery("site", Ok(None)),
        vec![
            Effect::Log(LogLevel::Warning, "Recovery command succeeded.".to_string()),
            Effect::ReportWarning("Failed but recovery command succeeded.".to_string()),
        ]
    );
    assert_eq!(
        react_to_recovery("site", Err("Stdout:\n\n\nStderr:\nno unit\n".to_string())),
        vec![Effect::ReportError("[site]Fail: Stdout:\n\n\nStderr:\nno unit\n".to_string())]
    );
}

#[test]
fn idle_tackler_pauses_after_idle_rounds() {
    let mut t = IdleTackler::new().idle_limit(2).sleep_limit(3);
    assert_eq!(t.idle_limit, 2);
    assert_eq!(t.sleep_limit, 3);
    let mut pauses = Vec::new();
    for _ in 0..12 {
        pauses.push(t.on_idle());
    }
    assert_eq!(
        pauses,
        vec![None, None, Some(10), None, None, Some(20), None, None, Some(30), None, None, Some(30)]
    );
    t.on_busy();
    assert_eq!(t.idle_count, 0);
    assert_eq!(t.sleep_count, 0);
    assert_eq!(t.on_idle(), None);
}

#[test]
fn idle_tackler_defaults() {
    let t = IdleTackler::new();
    assert_eq!((t.idle_count, t.idle_limit, t.sleep_count, t.sleep_limit), (0, 10, 0, 50));
    let mut z = IdleTackler::new().idle_limit(0).sleep_limit(0);
    assert_eq!(z.on_idle(), Some(0));
}

#[test]
fn report_titles() {
    assert_eq!(ReportKind::Error.title_prefix(), "Monitor error on ");
    assert_eq!(ReportKind::Warning.title_prefix(), "Monitor warning on ");
}

#[test]
fn report_plan_carries_settings() {
    let c = common();
    let p = plan_report_email("[t][error][site]Fail: x", "Monitor error on ", "site", "MonitorTarget {}", &c).unwrap();
    assert_eq!(p.from, "monitor@example.com");
    assert_eq!(p.reply_to, "monitor@example.com");
    assert_eq!(p.to, "ops@example.com");
    assert_eq!(p.subject, "Monitor error on site");
    assert_eq!(p.body, "[t][error][site]Fail: x\n\nOn target: site\nMonitorTarget {}");
    assert_eq!(p.smtp_host, "smtp.example.com");
    assert!(p.starttls);
    assert!(!p.accept_invalid_hostnames);
    assert!(p.accept_invalid_certs);
    assert_eq!(p.smtp_port, 587);
    assert_eq!(p.credentials, ("monitor".to_string(), "SECRET-REDACTED".to_string()));
}

#[test]
fn no_report_without_settings() {
    let mut c = common();
    c.smtp_port = None;
    assert!(plan_report_email("l", "p", "n", "t", &c).is_none());
    let mut c = common();
    c.report_to = None;
    assert!(plan_report_email("l", "p", "n", "t", &c).is_none());
    let mut c = common();
    c.report_from = None;
    assert!(plan_report_email("l", "p", "n", "t", &c).is_none());
    let mut c = common();
    c.smtp_host = None;
    assert!(plan_report_email("l", "p", "n", "t", &c).is_none());
}

#[test]
fn no_report_without_login() {
    let mut c = common();
    c.smtp_pass = None;
    assert!(plan_report_email("l", "p", "n", "t", &c).is_none());
    let mut c = common();
    c.smtp_user = None;
    assert!(plan_report_email("l", "p", "n", "t", &c).is_none());
}

#[test]
fn addresses_are_checked() {
    let c = common();
    assert_eq!(checked_report_email("l", "p", "n", "t", &c).unwrap().unwrap().to, "ops@example.com");
    let mut bad = common();
    bad.report_to = Some("not-an-address".to_string());
    assert!(checked_report_email("l", "p", "n", "t", &bad).is_none());
    let mut off = common();
    off.report_to = Some("not-an-address".to_string());
    off.smtp_port = None;
    assert!(checked_report_email("l", "p", "n", "t", &off).unwrap().is_none());
}

#[test]
fn starts_are_interval_apart() {
    let mut t = target("web", "");
    t.check_interval_secs = Some(10);
    let mut rt = MonitorRuntime::new(&"s".to_string(), &t);
    let mut starts = Vec::new();
    for now in (0..60_000).step_by(700) {
        let now = 1_000_000 + now as i64;
        rt.schedule_at(now, now + 3, 30);
        if rt.action == MonitorAction::Web {
            starts.push(rt.last_ran_ms);
        }
    }
    assert_eq!(starts[0], 1_000_003);
    for w in starts.windows(2) {
        assert!(w[1] - w[0] >= 10_000);
    }
    assert!(starts.len() >= 5);
}

#[test]
fn idle_counts_stay_bounded() {
    let mut t = IdleTackler::new().idle_limit(3).sleep_limit(2);
    for k in 0..100 {
        let p = if k % 17 == 16 { t.on_busy(); None } else { t.on_idle() };
        assert!(t.idle_count <= t.idle_limit && t.sleep_count <= t.sleep_limit);
        if let Some(ms) = p {
            assert!(ms <= 20);
        }
    }
}

#[test]
fn report_outcome_logging() {
    assert_eq!(report_outcome_log(&Ok(())), (LogLevel::Debug, "Successfully sent email report".to_string()));
    assert_eq!(
        report_outcome_log(&Err("connection refused".to_string())),
        (LogLevel::Error, "Failed to send email: connection refused".to_string())
    );
}
