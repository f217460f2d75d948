use monitor_services::log::{format_log_line, log_line, log_line_f, LogLevel};

#[test]
fn as_str_names_each_level() {
    assert_eq!(LogLevel::Error.as_str(), "error");
    assert_eq!(LogLevel::Warning.as_str(), "warning");
    assert_eq!(LogLevel::Info.as_str(), "info");
    assert_eq!(LogLevel::Debug.as_str(), "debug");
    assert_eq!(LogLevel::Trace.as_str(), "trace");
}

#[test]
fn from_name_reads_the_accepted_spellings() {
    assert_eq!(LogLevel::from_name("error"), Some(LogLevel::Error));
    assert_eq!(LogLevel::from_name("warning"), Some(LogLevel::Warning));
    assert_eq!(LogLevel::from_name("info"), Some(LogLevel::Info));
    assert_eq!(LogLevel::from_name("debug"), Some(LogLevel::Debug));
    assert_eq!(LogLevel::from_name("trace"), Some(LogLevel::Trace));
    assert_eq!(LogLevel::from_name("Debug"), None);
    assert_eq!(LogLevel::from_name("Trace"), None);
    assert_eq!(LogLevel::from_name("fatal"), None);
    assert_eq!(LogLevel::from_name(""), None);
}

#[test]
fn severity_orders_levels() {
    assert_eq!(LogLevel::Trace.severity(), 0);
    assert_eq!(LogLevel::Debug.severity(), 1);
    assert_eq!(LogLevel::Info.severity(), 2);
    assert_eq!(LogLevel::Warning.severity(), 3);
    assert_eq!(LogLevel::Error.severity(), 4);
    assert!(LogLevel::Info.passes(LogLevel::Info));
    assert!(LogLevel::Warning.passes(LogLevel::Info));
    assert!(!LogLevel::Debug.passes(LogLevel::Info));
}

#[test]
fn errors_always_pass_any_minimum() {
    for min in [LogLevel::Trace, LogLevel::Debug, LogLevel::Info, LogLevel::Warning, LogLevel::Error] {
        assert!(LogLevel::Error.passes(min));
    }
}

#[test]
fn lower_minimum_keeps_lines() {
    assert!(LogLevel::Warning.passes(LogLevel::Warning));
    assert!(LogLevel::Warning.passes(LogLevel::Debug));
}

#[test]
fn printed_name_reads_back() {
    for level in [LogLevel::Error, LogLevel::Warning, LogLevel::Info, LogLevel::Debug, LogLevel::Trace] {
        assert_eq!(LogLevel::from_name(level.as_str()), Some(level));
    }
}

#[test]
fn format_log_line_joins_the_parts() {
    let line = format_log_line("2024-01-02 03:04:05", LogLevel::Warning, "web1", "Recovery command succeeded.");
    assert_eq!(line, "[2024-01-02 03:04:05][warning][web1]Recovery command succeeded.");
}

#[test]
fn log_line_below_minimum_is_empty() {
    assert_eq!(log_line(LogLevel::Debug, LogLevel::Info, "svc", "hidden"), "");
}

#[test]
fn log_line_is_stamped() {
    let line = log_line(LogLevel::Info, LogLevel::Info, "svc", "Ok: fine");
    assert!(line.starts_with('['));
    assert!(line.ends_with("][info][svc]Ok: fine"));
    let stamp = &line[1..20];
    assert_eq!(stamp.len(), 19);
    assert_eq!(&stamp[4..5], "-");
    assert_eq!(&stamp[10..11], " ");
    assert_eq!(&line[20..21], "]");
}

#[test]
fn log_line_f_uses_the_message() {
    let line = log_line_f(LogLevel::Error, LogLevel::Warning, "svc", || String::from("boom"));
    assert!(line.ends_with("][error][svc]boom"));
    let hidden = log_line_f(LogLevel::Trace, LogLevel::Warning, "svc", || String::from("x"));
    assert_eq!(hidden, "");
}
