//! The envelope-module serialization cases, on the same values.

use pagerduty_rs::private_types::SendableAlertFollowup;
use pagerduty_rs::private_types::SendableAlertTrigger;
use pagerduty_rs::private_types::SendableChange;
use pagerduty_rs::timestamp::Timestamp;
use pagerduty_rs::types::Action;
use pagerduty_rs::types::AlertAcknowledge;
use pagerduty_rs::types::AlertResolve;
use pagerduty_rs::types::AlertTrigger;
use pagerduty_rs::types::AlertTriggerPayload;
use pagerduty_rs::types::Change;
use pagerduty_rs::types::ChangePayload;
use pagerduty_rs::types::Image;
use pagerduty_rs::types::Link;
use pagerduty_rs::types::Severity;
use pagerduty_rs::value::Entry;
use pagerduty_rs::value::Value;

fn serializable_test() -> Value {
    Value::Object(vec![
        Entry { key: "some_field".to_owned(), value: Value::Str("Serialize this!".to_owned()) },
        Entry { key: "another_field".to_owned(), value: Value::UInt(34) },
    ])
}

#[test]
fn private_types_serialize_change() {
    // With everything optional
    let c = Change {
        payload: ChangePayload {
            summary: "Hello".to_owned(),
            source: Some("hostname".to_owned()),
            timestamp: Timestamp::from_unix_timestamp_nanos(2000071804323000000),
            custom_details: Some(serializable_test()),
        },
        links: Some(vec![Link {
            href: "https://polyverse.com".to_owned(),
            text: Some("Polyverse homepage".to_owned()),
        }]),
    };

    assert_eq!(c.to_json(), "{\"payload\":{\"summary\":\"Hello\",\"timestamp\":\"2033-05-18T23:30:04.323000000Z\",\"source\":\"hostname\",\"custom_details\":{\"some_field\":\"Serialize this!\",\"another_field\":34}},\"links\":[{\"href\":\"https://polyverse.com\",\"text\":\"Polyverse homepage\"}]}");

    // With nothing optional
    let c = Change {
        payload: ChangePayload {
            summary: "Hello".to_owned(),
            timestamp: Timestamp::from_unix_timestamp_nanos(2000071804323000000),
            source: None,
            custom_details: None,
        },
        links: None,
    };

    assert_eq!(
        c.to_json(),
        "{\"payload\":{\"summary\":\"Hello\",\"timestamp\":\"2033-05-18T23:30:04.323000000Z\"}}"
    );
}

#[test]
fn private_types_serialize_sendable_change() {
    // With everything optional
    let c = SendableChange {
        routing_key: "routingkey".to_owned(),
        payload: ChangePayload {
            summary: "Hello".to_owned(),
            source: Some("hostname".to_owned()),
            timestamp: Timestamp::from_unix_timestamp_nanos(2000071804323000000),
            custom_details: Some(serializable_test()),
        },
        links: Some(vec![Link {
            href: "https://polyverse.com".to_owned(),
            text: Some("Polyverse homepage".to_owned()),
        }]),
    };

    assert_eq!(c.to_json(), "{\"routing_key\":\"routingkey\",\"payload\":{\"summary\":\"Hello\",\"timestamp\":\"2033-05-18T23:30:04.323000000Z\",\"source\":\"hostname\",\"custom_details\":{\"some_field\":\"Serialize this!\",\"another_field\":34}},\"links\":[{\"href\":\"https://polyverse.com\",\"text\":\"Polyverse homepage\"}]}");

    // With nothing optional
    let c = SendableChange {
        routing_key: "routingkey".to_owned(),
        payload: ChangePayload {
            summary: "Hello".to_owned(),
            timestamp: Timestamp::from_unix_timestamp_nanos(2000071804323000000),
            source: None,
            custom_details: None,
        },
        links: None,
    };

    assert_eq!(c.to_json(), "{\"routing_key\":\"routingkey\",\"payload\":{\"summary\":\"Hello\",\"timestamp\":\"2033-05-18T23:30:04.323000000Z\"}}");
}

#[test]
fn private_types_serialize_alert_trigger() {
    // With everything optional
    let a = AlertTrigger {
        payload: AlertTriggerPayload {
            summary: "Hello".to_owned(),
            source: "hostname".to_owned(),
            timestamp: Some(Timestamp::from_unix_timestamp_nanos(2000071804323000000)),
            severity: Severity::Info,
            component: Some("postgres".to_owned()),
            group: Some("prod-datapipe".to_owned()),
            class: Some("deploy".to_owned()),
            custom_details: Some(serializable_test()),
        },
        dedup_key: Some("dedupkey1".to_owned()),
        images: Some(vec![Image {
            src: "https://polyverse.com/static/img/SplashPageIMG/polyverse_blue.png".to_owned(),
            href: Some("https://polyverse.com".to_owned()),
            alt: Some("The Polyverse Logo".to_owned()),
        }]),
        links: Some(vec![Link {
            href: "https://polyverse.com".to_owned(),
            text: Some("Polyverse homepage".to_owned()),
        }]),
        client: Some("Zerotect".to_owned()),
        client_url: Some("https://github.com/polyverse/zerotect".to_owned()),
    };

    assert_eq!(a.to_json(), "{\"payload\":{\"severity\":\"info\",\"summary\":\"Hello\",\"source\":\"hostname\",\"timestamp\":\"2033-05-18T23:30:04.323000000Z\",\"component\":\"postgres\",\"group\":\"prod-datapipe\",\"class\":\"deploy\",\"custom_details\":{\"some_field\":\"Serialize this!\",\"another_field\":34}},\"dedup_key\":\"dedupkey1\",\"images\":[{\"src\":\"https://polyverse.com/static/img/SplashPageIMG/polyverse_blue.png\",\"href\":\"https://polyverse.com\",\"alt\":\"The Polyverse Logo\"}],\"links\":[{\"href\":\"https://polyverse.com\",\"text\":\"Polyverse homepage\"}],\"client\":\"Zerotect\",\"client_url\":\"https://github.com/polyverse/zerotect\"}");

    // With nothing optional
    let a = AlertTrigger {
        payload: AlertTriggerPayload {
            summary: "Hello".to_owned(),
            source: "hostname".to_owned(),
            timestamp: None,
            severity: Severity::Info,
            component: None,
            group: None,
            class: None,
            custom_details: None,
        },
        dedup_key: None,
        images: None,
        links: None,
        client: None,
        client_url: None,
    };

    assert_eq!(
        a.to_json(),
        "{\"payload\":{\"severity\":\"info\",\"summary\":\"Hello\",\"source\":\"hostname\"}}"
    );
}

#[test]
fn private_types_serialize_sendable_alert_trigger() {
    // With everything optional
    let a = SendableAlertTrigger {
        routing_key: "routingkey".to_owned(),
        event_action: Action::Trigger,
        payload: AlertTriggerPayload {
            summary: "Hello".to_owned(),
            source: "hostname".to_owned(),
            timestamp: Some(Timestamp::from_unix_timestamp_nanos(2000071804323000000)),
            severity: Severity::Info,
            component: Some("postgres".to_owned()),
            group: Some("prod-datapipe".to_owned()),
            class: Some("deploy".to_owned()),
            custom_details: Some(serializable_test()),
        },
        dedup_key: Some("dedupkey1".to_owned()),
        images: Some(vec![Image {
            src: "https://polyverse.com/static/img/SplashPageIMG/polyverse_blue.png".to_owned(),
            href: Some("https://polyverse.com".to_owned()),
            alt: Some("The Polyverse Logo".to_owned()),
        }]),
        links: Some(vec![Link {
            href: "https://polyverse.com".to_owned(),
            text: Some("Polyverse homepage".to_owned()),
        }]),
        client: Some("Zerotect".to_owned()),
        client_url: Some("https://github.com/polyverse/zerotect".to_owned()),
    };

    assert_eq!(a.to_json(), "{\"routing_key\":\"routingkey\",\"payload\":{\"severity\":\"info\",\"summary\":\"Hello\",\"source\":\"hostname\",\"timestamp\":\"2033-05-18T23:30:04.323000000Z\",\"component\":\"postgres\",\"group\":\"prod-datapipe\",\"class\":\"deploy\",\"custom_details\":{\"some_field\":\"Serialize this!\",\"another_field\":34}},\"dedup_key\":\"dedupkey1\",\"images\":[{\"src\":\"https://polyverse.com/static/img/SplashPageIMG/polyverse_blue.png\",\"href\":\"https://polyverse.com\",\"alt\":\"The Polyverse Logo\"}],\"links\":[{\"href\":\"https://polyverse.com\",\"text\":\"Polyverse homepage\"}],\"event_action\":\"trigger\",\"client\":\"Zerotect\",\"client_url\":\"https://github.com/polyverse/zerotect\"}");

    // With nothing optional
    let a = SendableAlertTrigger {
        routing_key: "routingkey".to_owned(),
        event_action: Action::Trigger,
        payload: AlertTriggerPayload {
            summary: "Hello".to_owned(),
            source: "hostname".to_owned(),
            timestamp: None,
            severity: Severity::Info,
            component: None,
            group: None,
            class: None,
            custom_details: None,
        },
        dedup_key: None,
        images: None,
        links: None,
        client: None,
        client_url: None,
    };

    assert_eq!(a.to_json(), "{\"routing_key\":\"routingkey\",\"payload\":{\"severity\":\"info\",\"summary\":\"Hello\",\"source\":\"hostname\"},\"event_action\":\"trigger\"}");
}

#[test]
fn private_types_serialize_alert_acknowledge() {
    let a = AlertAcknowledge { dedup_key: "dedupkeyacknowledge".to_owned() };

    assert_eq!(a.to_json(), "{\"dedup_key\":\"dedupkeyacknowledge\"}");
}

#[test]
fn private_types_serialize_alert_resolve() {
    let a = AlertResolve { dedup_key: "dedupkeyacknowledge".to_owned() };

    assert_eq!(a.to_json(), "{\"dedup_key\":\"dedupkeyacknowledge\"}");
}

#[test]
fn private_types_serialize_sendable_alert_followup() {
    let ss = SendableAlertFollowup {
        dedup_key: "DedupkeyFollowup".to_owned(),
        routing_key: "routingkey".to_owned(),
        event_action: Action::Resolve,
    };

    assert_eq!(
        ss.to_json(),
        "{\"routing_key\":\"routingkey\",\"dedup_key\":\"DedupkeyFollowup\",\"event_action\":\"resolve\"}"
    );
}
