use request_counter::counter::SharedCounter;
use request_counter::message::{hello_message, request_number_message};

#[test]
fn request_number_one() {
    assert_eq!(request_number_message(1), "Request number: 1");
}

#[test]
fn request_number_zero() {
    assert_eq!(request_number_message(0), "Request number: 0");
}

#[test]
fn request_number_multi_digit() {
    assert_eq!(request_number_message(1234567890), "Request number: 1234567890");
}

#[test]
fn request_number_largest_value() {
    assert_eq!(
        request_number_message(i64::MAX),
        "Request number: 9223372036854775807"
    );
}

#[test]
fn request_number_round_digits() {
    assert_eq!(request_number_message(10), "Request number: 10");
    assert_eq!(request_number_message(100), "Request number: 100");
    assert_eq!(request_number_message(101), "Request number: 101");
}

#[test]
fn counter_feeds_message() {
    let mut c = SharedCounter::new();
    let v = c.increment_and_read().unwrap();
    assert_eq!(request_number_message(v), "Request number: 1");
    let v = c.increment_and_read().unwrap();
    assert_eq!(request_number_message(v), "Request number: 2");
}

#[test]
fn hello_with_app_name() {
    assert_eq!(hello_message("Actix web"), "Hello Actix web!");
}

#[test]
fn hello_with_empty_name() {
    assert_eq!(hello_message(""), "Hello !");
}
