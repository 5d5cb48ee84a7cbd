use solis::message::{liveness_message, push_decimal, Delivery, PublishedMessage};

#[test]
fn liveness_goes_to_the_online_topic() {
    let m = liveness_message(1660764345);
    assert_eq!(
        m,
        PublishedMessage {
            topic: String::from("meters/solis/online"),
            payload: String::from("1660764345"),
            delivery: Delivery::AtLeastOnce,
        }
    );
}

#[test]
fn liveness_payload_is_the_decimal_numeral() {
    for secs in [0u64, 1, 9, 10, 11, 99, 100, 101, 1000, 4294967295, 4294967296, u64::MAX] {
        assert_eq!(liveness_message(secs).payload, secs.to_string());
    }
}

#[test]
fn zero_seconds_is_a_single_zero() {
    assert_eq!(liveness_message(0).payload, "0");
}

#[test]
fn largest_time_has_twenty_digits() {
    assert_eq!(liveness_message(u64::MAX).payload, "18446744073709551615");
}

#[test]
fn decimal_is_appended() {
    let mut out = String::from("t=");
    push_decimal(&mut out, 407);
    assert_eq!(out, "t=407");
    push_decimal(&mut out, 0);
    assert_eq!(out, "t=4070");
    push_decimal(&mut out, 10);
    assert_eq!(out, "t=407010");
}
