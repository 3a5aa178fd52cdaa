use ussd_smpp::text::{
    concat_strs, eq_ignore_ascii_case, is_ussd_code, starts_with_str, str_eq, trim_hash, trim_str,
};
use ussd_smpp::user::{MobilePhone, PerformanceStats};

#[test]
fn stats_count_successes_and_failures_separately() {
    let mut stats = PerformanceStats::new_at(1_700_000_000);
    stats.record_request_at(120, true, 1_700_000_001);
    stats.record_request_at(80, true, 1_700_000_002);
    stats.record_request_at(500, false, 1_700_000_003);
    assert_eq!(stats.total_requests, 3);
    assert_eq!(stats.successful_requests, 2);
    assert_eq!(stats.failed_requests, 1);
    assert_eq!(stats.min_response_time_ms, 80);
    assert_eq!(stats.max_response_time_ms, 500);
    assert_eq!(stats.last_request_time, Some(1_700_000_003));
    assert_eq!(stats.response_times, vec![120, 80, 500]);
}

#[test]
fn stats_window_keeps_the_last_thousand_readings() {
    let mut stats = PerformanceStats::new_at(0);
    for i in 0..1005u64 {
        stats.record_request_at(i, true, i);
    }
    assert_eq!(stats.total_requests, 1005);
    assert_eq!(stats.response_times.len(), 1000);
    assert_eq!(stats.response_times[0], 5);
    assert_eq!(*stats.response_times.last().unwrap(), 1004);
}

#[test]
fn uptime_never_runs_backwards() {
    let stats = PerformanceStats::new_at(1000);
    assert_eq!(stats.get_uptime_seconds_at(1300), 300);
    assert_eq!(stats.get_uptime_seconds_at(900), 0);
}

#[test]
fn a_phone_carries_its_balances() {
    let phone = MobilePhone::new("1234567890", "MyTelecom", 2550, 2560);
    assert_eq!(phone.msisdn, "1234567890");
    assert_eq!(phone.operator, "MyTelecom");
    assert_eq!(phone.balance_cents, 2550);
    assert_eq!(phone.data_balance_mb, 2560);
}

#[test]
fn text_predicates_behave_like_their_std_counterparts() {
    assert!(str_eq("abc", "abc"));
    assert!(!str_eq("abc", "abd"));
    assert!(!str_eq("abc", "ab"));
    assert!(starts_with_str("*123#", "*123"));
    assert!(!starts_with_str("*12", "*123"));
    assert!(is_ussd_code("*123#"));
    assert!(is_ussd_code("*#"));
    assert!(!is_ussd_code("*123"));
    assert!(!is_ussd_code("123#"));
    assert!(!is_ussd_code("*"));
    assert!(!is_ussd_code(""));
    assert_eq!(trim_hash("*123#"), "*123");
    assert_eq!(trim_hash("*123##"), "*123");
    assert_eq!(trim_hash("abc"), "abc");
    assert_eq!(trim_str("  hi \n"), "hi");
    assert_eq!(trim_str("hi"), "hi");
    assert_eq!(trim_str(" \t "), "");
    assert!(eq_ignore_ascii_case("yes", "YES"));
    assert!(eq_ignore_ascii_case("YeS", "yEs"));
    assert!(!eq_ignore_ascii_case("no", "YES"));
    assert_eq!(concat_strs("a", "b"), "ab");
}
