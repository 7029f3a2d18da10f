//! Encoding of the custom-details document: numbers, escaping, nesting.

use pagerduty_rs::value::Entry;
use pagerduty_rs::value::Value;

#[test]
fn scalars() {
    assert_eq!(Value::Null.to_json(), "null");
    assert_eq!(Value::Bool(true).to_json(), "true");
    assert_eq!(Value::Bool(false).to_json(), "false");
    assert_eq!(Value::UInt(0).to_json(), "0");
    assert_eq!(Value::UInt(34).to_json(), "34");
    assert_eq!(Value::UInt(18446744073709551615).to_json(), "18446744073709551615");
    assert_eq!(Value::Int(-5).to_json(), "-5");
    assert_eq!(Value::Int(-9223372036854775808).to_json(), "-9223372036854775808");
    assert_eq!(Value::Str("plain".to_owned()).to_json(), "\"plain\"");
}

#[test]
fn string_escaping() {
    assert_eq!(
        Value::Str("say \"hi\"\\now".to_owned()).to_json(),
        "\"say \\\"hi\\\"\\\\now\""
    );
    assert_eq!(
        Value::Str("a\tb\nc\rd".to_owned()).to_json(),
        "\"a\\tb\\nc\\rd\""
    );
    assert_eq!(
        Value::Str("\u{8}\u{c}\u{1}\u{1f}".to_owned()).to_json(),
        "\"\\b\\f\\u0001\\u001f\""
    );
    // Characters outside ASCII pass through unescaped.
    assert_eq!(Value::Str("héllo✓".to_owned()).to_json(), "\"héllo✓\"");
}

#[test]
fn arrays_and_objects() {
    assert_eq!(Value::Array(vec![]).to_json(), "[]");
    assert_eq!(Value::Object(vec![]).to_json(), "{}");
    let v = Value::Array(vec![
        Value::UInt(1),
        Value::Str("two".to_owned()),
        Value::Array(vec![Value::Null]),
    ]);
    assert_eq!(v.to_json(), "[1,\"two\",[null]]");

    let v = Value::Object(vec![
        Entry { key: "a".to_owned(), value: Value::UInt(1) },
        Entry {
            key: "b".to_owned(),
            value: Value::Object(vec![Entry { key: "c".to_owned(), value: Value::Bool(false) }]),
        },
    ]);
    assert_eq!(v.to_json(), "{\"a\":1,\"b\":{\"c\":false}}");
}

#[test]
fn object_keys_keep_their_order() {
    let v = Value::Object(vec![
        Entry { key: "zebra".to_owned(), value: Value::UInt(1) },
        Entry { key: "alpha".to_owned(), value: Value::UInt(2) },
    ]);
    assert_eq!(v.to_json(), "{\"zebra\":1,\"alpha\":2}");
}
