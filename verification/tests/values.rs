use rusqlite_async::value::{clone_row, Real, SQLiteValue};
use rusqlite_async::wire::{decode, encode, payload_kind, PayloadKind, WireData};

fn number(x: f64) -> Real {
    Real::from_engine(rusqlite::types::Value::Real(x)).expect("a real number")
}

fn text(data: &WireData) -> Option<&str> {
    match data {
        WireData::Text(s) => Some(s.as_str()),
        _ => None,
    }
}

#[test]
fn null_travels_with_tag_zero_and_the_word_null() {
    let (tag, data) = encode(&SQLiteValue::Null);
    assert_eq!(tag, 0);
    assert_eq!(text(&data), Some("null"));
}

#[test]
fn integer_travels_with_tag_one() {
    let (tag, data) = encode(&SQLiteValue::Integer(-42));
    assert_eq!(tag, 1);
    assert!(matches!(data, WireData::Integer(-42)));
}

#[test]
fn real_travels_with_tag_two() {
    let (tag, data) = encode(&SQLiteValue::Real(number(1.5)));
    assert_eq!(tag, 2);
    match data {
        WireData::Real(r) => assert_eq!(r.engine(), &rusqlite::types::Value::Real(1.5)),
        other => panic!("unexpected payload {:?}", other),
    }
}

#[test]
fn only_a_real_number_of_the_engine_is_a_real() {
    assert!(Real::from_engine(rusqlite::types::Value::Real(0.0)).is_some());
    assert!(Real::from_engine(rusqlite::types::Value::Real(f64::INFINITY)).is_some());
    assert!(Real::from_engine(rusqlite::types::Value::Integer(1)).is_none());
    assert!(Real::from_engine(rusqlite::types::Value::Null).is_none());
    assert!(Real::from_engine(rusqlite::types::Value::Text("1.5".to_string())).is_none());
    assert!(Real::from_engine(rusqlite::types::Value::Blob(vec![1])).is_none());
}

#[test]
fn a_cloned_real_is_the_same_number() {
    let number = number(-2.5);
    assert_eq!(number.clone().engine(), number.engine());
    assert_eq!(number.engine(), &rusqlite::types::Value::Real(-2.5));
}

#[test]
fn text_travels_with_tag_three() {
    let (tag, data) = encode(&SQLiteValue::Text("héllo".to_string()));
    assert_eq!(tag, 3);
    assert_eq!(text(&data), Some("héllo"));
}

#[test]
fn blob_travels_with_tag_four_as_encoded_text() {
    let (tag, data) = encode(&SQLiteValue::Blob(vec![1, 2, 3]));
    assert_eq!(tag, 4);
    assert_eq!(text(&data), Some("AQID"));
}

#[test]
fn blob_encoding_is_url_safe_and_unpadded() {
    let (_, data) = encode(&SQLiteValue::Blob(vec![0xfb, 0xff]));
    assert_eq!(text(&data), Some("-_8"));
    let (_, data) = encode(&SQLiteValue::Blob(vec![]));
    assert_eq!(text(&data), Some(""));
}

#[test]
fn decode_gives_back_what_encode_was_given() {
    let values = vec![
        SQLiteValue::Null,
        SQLiteValue::Integer(i64::MIN),
        SQLiteValue::Integer(i64::MAX),
        SQLiteValue::Real(number(-0.25)),
        SQLiteValue::Text(String::new()),
        SQLiteValue::Text("snow ☃".to_string()),
        SQLiteValue::Blob(vec![0, 255, 16, 32]),
        SQLiteValue::Blob(vec![]),
    ];
    for value in values {
        let (tag, data) = encode(&value);
        let back = decode(tag, data).expect("decodes");
        assert_eq!(format!("{:?}", back), format!("{:?}", value));
    }
}

#[test]
fn decode_of_a_null_does_not_read_the_payload() {
    let value = decode(0, WireData::Integer(99)).expect("decodes");
    assert!(matches!(value, SQLiteValue::Null));
}

#[test]
fn decode_of_a_blob_decodes_its_text() {
    let value = decode(4, WireData::Text("AQID".to_string())).expect("decodes");
    match value {
        SQLiteValue::Blob(bytes) => assert_eq!(bytes, vec![1, 2, 3]),
        other => panic!("unexpected value {:?}", other),
    }
}

#[test]
fn decode_refuses_an_unknown_tag() {
    let refused = decode(5, WireData::Integer(1));
    assert_eq!(refused.unwrap_err(), "invalid type value for SQLiteValue");
    let refused = decode(-1, WireData::Text("x".to_string()));
    assert_eq!(refused.unwrap_err(), "invalid type value for SQLiteValue");
}

#[test]
fn decode_refuses_a_payload_of_the_wrong_form() {
    let refused = decode(1, WireData::Text("1".to_string()));
    assert_eq!(refused.unwrap_err(), "invalid payload for SQLiteValue");
    let refused = decode(2, WireData::Integer(1));
    assert_eq!(refused.unwrap_err(), "invalid payload for SQLiteValue");
    let refused = decode(3, WireData::Real(number(0.0)));
    assert_eq!(refused.unwrap_err(), "invalid payload for SQLiteValue");
    let refused = decode(4, WireData::Integer(0));
    assert_eq!(refused.unwrap_err(), "invalid payload for SQLiteValue");
}

#[test]
fn decode_refuses_a_blob_that_is_no_encoding() {
    assert!(decode(4, WireData::Text("not base64!".to_string())).is_err());
    assert!(decode(4, WireData::Text("AQID==".to_string())).is_err());
}

#[test]
fn each_tag_has_its_form_of_payload() {
    assert_eq!(payload_kind(0), Some(PayloadKind::Ignored));
    assert_eq!(payload_kind(1), Some(PayloadKind::Integer));
    assert_eq!(payload_kind(2), Some(PayloadKind::Real));
    assert_eq!(payload_kind(3), Some(PayloadKind::Text));
    assert_eq!(payload_kind(4), Some(PayloadKind::Text));
    assert_eq!(payload_kind(5), None);
    assert_eq!(payload_kind(-1), None);
}

#[test]
fn a_cloned_value_is_the_same_value() {
    let value = SQLiteValue::Blob(vec![9, 8, 7]);
    let copy = value.clone();
    assert_eq!(format!("{:?}", copy), format!("{:?}", value));
    let value = SQLiteValue::Text("abc".to_string());
    assert_eq!(format!("{:?}", value.clone()), "Text(\"abc\")");
}

#[test]
fn a_cloned_row_has_the_same_values_in_order() {
    let row = vec![SQLiteValue::Integer(1), SQLiteValue::Null, SQLiteValue::Text("x".to_string())];
    let copy = clone_row(&row);
    assert_eq!(format!("{:?}", copy), format!("{:?}", row));
}
