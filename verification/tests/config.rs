use std::time::Duration;

use safejaq::decimal::decimal;
use safejaq::{SafeJaq, SafeJaqError};

#[test]
fn new_keeps_the_limits() {
    let jaq = SafeJaq::new(Duration::from_millis(1500), 64 * 1024 * 1024);
    assert_eq!(jaq.time_limit(), Duration::from_millis(1500));
    assert_eq!(jaq.memory_limit(), 64 * 1024 * 1024);
    let other = SafeJaq::new(Duration::ZERO, 0);
    assert_eq!(other.time_limit(), Duration::ZERO);
    assert_eq!(other.memory_limit(), 0);
}

#[test]
fn command_args_carry_the_limits() {
    let jaq = SafeJaq::new(Duration::from_millis(2500), 1_048_576);
    assert_eq!(jaq.command_args(), vec!["jaq-eval", "-m", "1048576", "-t", "2"]);
}

#[test]
fn command_args_count_whole_seconds() {
    let jaq = SafeJaq::new(Duration::from_millis(999), u64::MAX);
    assert_eq!(
        jaq.command_args(),
        vec!["jaq-eval", "-m", "18446744073709551615", "-t", "0"]
    );
    let long = SafeJaq::new(Duration::from_secs(86_400), 0);
    assert_eq!(long.command_args(), vec!["jaq-eval", "-m", "0", "-t", "86400"]);
}

#[test]
fn decimal_writes_digits() {
    assert_eq!(decimal(0), "0");
    assert_eq!(decimal(7), "7");
    assert_eq!(decimal(9), "9");
    assert_eq!(decimal(10), "10");
    assert_eq!(decimal(1234567890), "1234567890");
    assert_eq!(decimal(u64::MAX as u128), "18446744073709551615");
    assert_eq!(decimal(u128::MAX), "340282366920938463463374607431768211455");
}

#[test]
fn decimal_agrees_with_std() {
    let mut number: u128 = 1;
    for _ in 0..60 {
        assert_eq!(decimal(number), number.to_string());
        assert_eq!(decimal(number - 1), (number - 1).to_string());
        number = number.wrapping_mul(7).wrapping_add(3);
    }
}

#[test]
fn limit_exceeded_message_names_both_limits() {
    let error = SafeJaqError::LimitExceeded(Duration::from_millis(1500), 1024);
    assert_eq!(
        error.message(),
        "filter evaluation exceeded either the time limit of 1500ms or the memory limit of 1024 bytes"
    );
    let zero = SafeJaqError::LimitExceeded(Duration::ZERO, 0);
    assert_eq!(
        zero.message(),
        "filter evaluation exceeded either the time limit of 0ms or the memory limit of 0 bytes"
    );
}

#[test]
fn evaluation_message_carries_the_childs_words() {
    let error = SafeJaqError::Evaluation("failed to parse the filter: x".to_owned());
    assert_eq!(
        error.message(),
        "failed to evaluate the filter: failed to parse the filter: x"
    );
}

#[test]
fn command_message_carries_the_cause() {
    let error = SafeJaqError::Command(std::io::Error::other("no such executable"));
    assert_eq!(
        error.message(),
        "failed to use the evaluator command: no such executable"
    );
}
