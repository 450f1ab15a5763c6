use request_counter::counter::{CounterError, SharedCounter};

#[test]
fn single_call_on_fresh_counter_returns_one() {
    let mut c = SharedCounter::new();
    assert_eq!(c.increment_and_read(), Ok(1));
}

#[test]
fn three_sequential_calls_return_one_two_three() {
    let mut c = SharedCounter::new();
    assert_eq!(c.increment_and_read(), Ok(1));
    assert_eq!(c.increment_and_read(), Ok(2));
    assert_eq!(c.increment_and_read(), Ok(3));
}

#[test]
fn hundred_calls_return_one_through_hundred() {
    let mut c = SharedCounter::new();
    let mut returned: Vec<i64> = Vec::new();
    for _ in 0..100 {
        returned.push(c.increment_and_read().unwrap());
    }
    returned.sort();
    let expected: Vec<i64> = (1..=100).collect();
    assert_eq!(returned, expected);
}

#[test]
fn no_two_calls_return_the_same_value() {
    let mut c = SharedCounter::new();
    let mut returned: Vec<i64> = Vec::new();
    for _ in 0..50 {
        returned.push(c.increment_and_read().unwrap());
    }
    let mut deduped = returned.clone();
    deduped.sort();
    deduped.dedup();
    assert_eq!(deduped.len(), returned.len());
}

#[test]
fn call_after_abnormal_termination_fails_poisoned() {
    let mut c = SharedCounter::new();
    assert_eq!(c.increment_and_read(), Ok(1));
    c.poison();
    assert_eq!(c.increment_and_read(), Err(CounterError::PoisonedState));
}

#[test]
fn poisoned_counter_keeps_failing() {
    let mut c = SharedCounter::new();
    c.poison();
    assert_eq!(c.increment_and_read(), Err(CounterError::PoisonedState));
    assert_eq!(c.increment_and_read(), Err(CounterError::PoisonedState));
    assert_eq!(c.increment_and_read(), Err(CounterError::PoisonedState));
}

#[test]
fn fresh_counter_can_increment() {
    let c = SharedCounter::new();
    assert!(c.can_increment());
}
