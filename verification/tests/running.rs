use regex_speed::calc_regex_speed::CompiledRegex;
use regex_speed::enums::{RegexMethod, RegexSpeedError};
use regex_speed::runner::{run, validate, Config};

fn config(min_length: usize, max_length: usize, step_size: usize, num_tests: usize) -> Config {
    Config {
        regex: CompiledRegex::new(r"\d{4}-\d{2}-\d{2}").unwrap(),
        method: RegexMethod::Find,
        min_length,
        max_length,
        step_size,
        num_tests,
        required_str: None,
        verbose: false,
    }
}

#[test]
fn test_end_to_end_scenario() {
    let mut cfg = config(20, 20, 1, 5);
    cfg.required_str = Some(String::from("2024-01-01"));
    let (results, envelope) = run(&cfg).unwrap();
    assert_eq!(results.len(), 5);
    for result in &results {
        assert_eq!(result.length, 30);
        assert!(envelope.min <= result.duration);
        assert!(result.duration <= envelope.max);
    }
}

#[test]
fn test_run_orders_lengths_ascending() {
    let cfg = config(2, 8, 3, 2);
    let (results, _envelope) = run(&cfg).unwrap();
    let lengths: Vec<usize> = results.iter().map(|r| r.length).collect();
    assert_eq!(lengths, vec![2, 2, 5, 5, 8, 8]);
}

#[test]
fn test_run_skips_lengths_beyond_maximum() {
    // The last step would land past the maximum, so the walk stops at 5.
    let cfg = config(1, 6, 4, 1);
    let (results, _envelope) = run(&cfg).unwrap();
    let lengths: Vec<usize> = results.iter().map(|r| r.length).collect();
    assert_eq!(lengths, vec![1, 5]);
}

#[test]
fn test_run_rejects_zero_step() {
    let cfg = config(1, 5, 0, 1);
    assert!(matches!(run(&cfg), Err(RegexSpeedError::InvalidStep)));
}

#[test]
fn test_run_rejects_bad_bounds() {
    assert!(matches!(run(&config(6, 5, 1, 1)), Err(RegexSpeedError::InvalidConfiguration)));
    assert!(matches!(run(&config(1, 0, 1, 1)), Err(RegexSpeedError::InvalidConfiguration)));
    assert!(matches!(run(&config(1, 5, 1, 0)), Err(RegexSpeedError::InvalidConfiguration)));
}

#[test]
fn test_run_rejects_zero_minimum_length() {
    let cfg = config(0, 5, 1, 1);
    assert!(matches!(run(&cfg), Err(RegexSpeedError::InvalidLength)));
}

#[test]
fn test_validate_accepts_usable_config() {
    assert!(validate(&config(1, 5, 2, 3)).is_ok());
    assert!(matches!(validate(&config(1, 5, 0, 3)), Err(RegexSpeedError::InvalidStep)));
}
