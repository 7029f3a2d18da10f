//! Timestamp rendering: RFC 3339 with a trailing `Z`, the fractional
//! second omitted when zero and printed with nine digits otherwise.

use pagerduty_rs::timestamp::Timestamp;
use pagerduty_rs::types::Change;
use pagerduty_rs::types::ChangePayload;

#[test]
fn test_serialization_pads() {
    let change = Change {
        payload: ChangePayload {
            summary: "Testing timestamp serialization".to_owned(),
            timestamp: Timestamp::from_civil(2021, 5, 30, 0, 0, 0, 0).unwrap(),
            source: None,
            custom_details: None,
        },

        links: None,
    };

    assert_eq!(
        "{\"payload\":{\"summary\":\"Testing timestamp serialization\",\"timestamp\":\"2021-05-30T00:00:00Z\"}}",
        change.to_json()
    );
}

#[test]
fn fixed_precision_fraction() {
    // Unix time 2000071804.323 seconds: a fraction keeps all nine digits.
    let t = Timestamp::from_unix_timestamp_nanos(2000071804323000000);
    assert_eq!(t.to_rfc3339(), "2033-05-18T23:30:04.323000000Z");

    // The same instant without the fraction drops the suffix entirely.
    let t = Timestamp::from_unix_timestamp_nanos(2000071804000000000);
    assert_eq!(t.to_rfc3339(), "2033-05-18T23:30:04Z");
}

#[test]
fn epoch_and_range_ends() {
    let t = Timestamp::from_unix_timestamp_nanos(0);
    assert_eq!(t.to_rfc3339(), "1970-01-01T00:00:00Z");

    // The last instant the text format can carry.
    let t = Timestamp::from_unix_timestamp_nanos(253402300799999999999);
    assert_eq!(t.to_rfc3339(), "9999-12-31T23:59:59.999999999Z");

    // The first one.
    let t = Timestamp::from_unix_timestamp_nanos(-62167219200000000000);
    assert_eq!(t.to_rfc3339(), "0000-01-01T00:00:00Z");
}

#[test]
fn leap_years() {
    // 2020-02-29T12:00:00Z == 1582977600 seconds.
    let t = Timestamp::from_unix_timestamp_nanos(1582977600000000000);
    assert_eq!(t.to_rfc3339(), "2020-02-29T12:00:00Z");

    // 2000 was a leap year (divisible by 400): 951782400 is 2000-02-29.
    let t = Timestamp::from_unix_timestamp_nanos(951782400000000000);
    assert_eq!(t.to_rfc3339(), "2000-02-29T00:00:00Z");

    // 1900 was not: civil February 29 of 1900 does not exist.
    assert!(Timestamp::from_civil(1900, 2, 29, 0, 0, 0, 0).is_none());
    assert!(Timestamp::from_civil(2000, 2, 29, 0, 0, 0, 0).is_some());
}

#[test]
fn civil_validation() {
    assert!(Timestamp::from_civil(2021, 13, 1, 0, 0, 0, 0).is_none());
    assert!(Timestamp::from_civil(2021, 0, 1, 0, 0, 0, 0).is_none());
    assert!(Timestamp::from_civil(2021, 4, 31, 0, 0, 0, 0).is_none());
    assert!(Timestamp::from_civil(2021, 4, 30, 23, 59, 59, 999999999).is_some());
    assert!(Timestamp::from_civil(2021, 4, 30, 24, 0, 0, 0).is_none());
    assert!(Timestamp::from_civil(2021, 4, 30, 0, 60, 0, 0).is_none());
    assert!(Timestamp::from_civil(2021, 4, 30, 0, 0, 60, 0).is_none());
    assert!(Timestamp::from_civil(2021, 4, 30, 0, 0, 0, 1000000000).is_none());
}

#[test]
fn civil_agrees_with_unix() {
    // 2021-05-30T00:00:00Z is Unix time 1622332800.
    let a = Timestamp::from_civil(2021, 5, 30, 0, 0, 0, 0).unwrap();
    let b = Timestamp::from_unix_timestamp_nanos(1622332800000000000);
    assert_eq!(a.to_rfc3339(), b.to_rfc3339());
}
