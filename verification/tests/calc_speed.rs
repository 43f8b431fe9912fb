use regex_speed::calc_regex_speed::{calc_duration_for_text, probe, CompiledRegex, SpeedTestResult};
use regex_speed::enums::{RegexMethod, RegexSpeedError};

#[test]
fn test_can_create_speed_test_result() {
    let length = 10;
    let duration = 1_000_000_000;
    let result = SpeedTestResult::new(length, duration);
    assert_eq!(result.length, length);
    assert_eq!(result.duration, duration);
}

#[test]
fn test_calc_duration_for_text_match_method() {
    let regex = CompiledRegex::new(r"(\d{4})-(\d{2})-(\d{2})").unwrap();
    let text = "2012-03-14, 2013-01-01 and 2014-07-05";
    let result = calc_duration_for_text(&regex, RegexMethod::Match, text);
    assert!(result.duration > 0);
}

#[test]
fn test_calc_duration_for_text_find_method() {
    let regex = CompiledRegex::new(r"(\d{4})-(\d{2})-(\d{2})").unwrap();
    let text = "2012-03-14, 2013-01-01 and 2014-07-05";
    let result = calc_duration_for_text(&regex, RegexMethod::Find, text);
    assert!(result.duration > 0);
}

#[test]
fn test_calc_duration_for_text_find_iter_method() {
    let regex = CompiledRegex::new(r"(\d{4})-(\d{2})-(\d{2})").unwrap();
    let text = "2012-03-14, 2013-01-01 and 2014-07-05";
    let result = calc_duration_for_text(&regex, RegexMethod::FindIter, text);
    assert!(result.duration > 0);
}

#[test]
fn test_method_factory_returns_a_fn_for_match_method() {
    let regex = CompiledRegex::new(r"(\d{4})-(\d{2})-(\d{2})").unwrap();
    let text = "2012-03-14, 2013-01-01 and 2014-07-05";
    assert!(probe(&regex, RegexMethod::Match, text));
}

#[test]
fn test_method_factory_returns_a_fn_for_find_method() {
    let regex = CompiledRegex::new(r"(\d{4})-(\d{2})-(\d{2})").unwrap();
    let text = "2012-03-14, 2013-01-01 and 2014-07-05";
    assert!(probe(&regex, RegexMethod::Find, text));
}

#[test]
fn test_method_factory_returns_a_fn_for_find_iter_method() {
    let regex = CompiledRegex::new(r"(\d{4})-(\d{2})-(\d{2})").unwrap();
    let text = "2012-03-14, 2013-01-01 and 2014-07-05";
    assert!(probe(&regex, RegexMethod::FindIter, text));
}

#[test]
fn test_probe_reports_match_presence() {
    let regex = CompiledRegex::new(r"\d{4}").unwrap();
    assert!(probe(&regex, RegexMethod::Match, "year 2024 was a leap year"));
    assert!(!probe(&regex, RegexMethod::Match, "no digits here"));
    assert!(probe(&regex, RegexMethod::Find, "year 2024 was a leap year"));
    assert!(!probe(&regex, RegexMethod::Find, "no digits here"));
}

#[test]
fn test_find_iter_probe_is_true_without_matches() {
    let regex = CompiledRegex::new(r"\d{4}").unwrap();
    assert!(probe(&regex, RegexMethod::FindIter, "no digits here"));
}

#[test]
fn test_compile_failure_is_reported() {
    let result = CompiledRegex::new(r"foo(bar");
    assert!(matches!(result, Err(RegexSpeedError::PatternCompileFailure)));
}

#[test]
fn test_measured_length_counts_characters() {
    let regex = CompiledRegex::new(r"\d").unwrap();
    let result = calc_duration_for_text(&regex, RegexMethod::Match, "na\u{ef}ve");
    assert_eq!(result.length, 5);
}
