//! Progress-estimate rendering.

use mmuvp::base::{time_remaining, u64_to_string};

#[test]
fn decimal_rendering() {
    assert_eq!(u64_to_string(0), "0");
    assert_eq!(u64_to_string(7), "7");
    assert_eq!(u64_to_string(40), "40");
    assert_eq!(u64_to_string(1234567890), "1234567890");
    assert_eq!(u64_to_string(u64::MAX), "18446744073709551615");
}

#[test]
fn remaining_time_estimate() {
    // 10 seconds per finished step, 5 steps still to run: 50 seconds
    assert_eq!(time_remaining(5, 50, 11), "0 минут 50 секунд");
    // 125 remaining seconds render as minutes and seconds
    assert_eq!(time_remaining(4, 100, 10), "2 минут 5 секунд");
}

#[test]
fn remaining_time_finished() {
    assert_eq!(time_remaining(10, 123, 10), "0 минут 0 секунд");
    assert_eq!(time_remaining(11, 123, 10), "0 минут 0 секунд");
}

#[test]
fn remaining_time_before_first_step() {
    // no per-step time is known yet: the degenerate case yields zero
    assert_eq!(time_remaining(0, 123, 10), "0 минут 0 секунд");
}
