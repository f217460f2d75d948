use monitor_services::defaults;
use monitor_services::log::LogLevel;
use monitor_services::text::{chars_of, decimal_string, push_decimal, str_eq};

#[test]
fn decimal_string_writes_digits() {
    assert_eq!(decimal_string(0), "0");
    assert_eq!(decimal_string(7), "7");
    assert_eq!(decimal_string(404), "404");
    assert_eq!(decimal_string(18446744073709551615), "18446744073709551615");
}

#[test]
fn push_decimal_appends() {
    let mut s = String::from("code ");
    push_decimal(&mut s, 200);
    assert_eq!(s, "code 200");
}

#[test]
fn str_eq_compares_characters() {
    assert!(str_eq("web", "web"));
    assert!(!str_eq("web", "Web"));
    assert!(!str_eq("web", "webs"));
    assert!(str_eq("", ""));
    assert!(str_eq("héllo", "héllo"));
}

#[test]
fn chars_of_lists_characters() {
    assert_eq!(chars_of("aé$"), vec!['a', 'é', '$']);
    assert!(chars_of("").is_empty());
}

#[test]
fn defaults_have_their_values() {
    assert_eq!(defaults::check_interval_secs(), 30);
    assert_eq!(defaults::min_log_level(), LogLevel::Info);
    assert_eq!(defaults::method(), "GET");
    assert_eq!(defaults::none::<u64>(), None);
    assert_eq!(defaults::connect_timeout(), 30);
    assert_eq!(defaults::timeout(), 30);
    assert_eq!(defaults::read_timeout(), 30);
}
