use packet_ingest::message::{Message, PacketData};
use packet_ingest::text::{append_decimal, encode_text};

fn decimal(i: i64) -> String {
    let mut out = String::new();
    append_decimal(&mut out, i);
    out
}

#[test]
fn decimal_text_of_integers() {
    assert_eq!(decimal(0), "0");
    assert_eq!(decimal(7), "7");
    assert_eq!(decimal(10), "10");
    assert_eq!(decimal(-1), "-1");
    assert_eq!(decimal(1234567890), "1234567890");
    assert_eq!(decimal(i64::MAX), "9223372036854775807");
    assert_eq!(decimal(i64::MIN), "-9223372036854775808");
    for i in [-1000i64, -99, -10, -9, 9, 99, 100, 101, 4294967295, 1700000000123456789] {
        assert_eq!(decimal(i), i.to_string());
    }
}

#[test]
fn append_decimal_keeps_what_was_there() {
    let mut out = "x=".to_string();
    append_decimal(&mut out, -42);
    assert_eq!(out, "x=-42");
}

#[test]
fn signal_text_with_candidate() {
    let m = Message::Signal { sdp: "v=0".to_string(), candidate: Some("ice".to_string()) };
    assert_eq!(
        encode_text(&m),
        "{\"type\":\"Signal\",\"payload\":{\"sdp\":\"v=0\",\"candidate\":\"ice\"}}"
    );
}

#[test]
fn signal_text_without_candidate() {
    let m = Message::Signal { sdp: String::new(), candidate: None };
    assert_eq!(encode_text(&m), "{\"type\":\"Signal\",\"payload\":{\"sdp\":\"\",\"candidate\":null}}");
}

#[test]
fn signal_text_escapes_what_json_must() {
    let m = Message::Signal {
        sdp: "a\"b\\c\r\nd\te\u{1}".to_string(),
        candidate: Some("\u{e9}\u{1F600}".to_string()),
    };
    assert_eq!(
        encode_text(&m),
        "{\"type\":\"Signal\",\"payload\":{\"sdp\":\"a\\\"b\\\\c\\r\\nd\\te\\u0001\",\"candidate\":\"\u{e9}\u{1F600}\"}}"
    );
}

#[test]
fn data_text() {
    let m = Message::Data { timestamp: -5, value: 4294967295 };
    assert_eq!(
        encode_text(&m),
        "{\"type\":\"Data\",\"payload\":{\"timestamp\":-5,\"value\":4294967295}}"
    );
}

#[test]
fn batch_text() {
    let empty = Message::Batch { readings: vec![] };
    assert_eq!(encode_text(&empty), "{\"type\":\"Batch\",\"payload\":{\"readings\":[]}}");
    let one = Message::Batch { readings: vec![PacketData { timestamp: 1, value: 2 }] };
    assert_eq!(
        encode_text(&one),
        "{\"type\":\"Batch\",\"payload\":{\"readings\":[{\"timestamp\":1,\"value\":2}]}}"
    );
    let three = Message::Batch {
        readings: vec![
            PacketData { timestamp: 1, value: 2 },
            PacketData { timestamp: i64::MIN, value: 0 },
            PacketData { timestamp: 30, value: 40 },
        ],
    };
    assert_eq!(
        encode_text(&three),
        "{\"type\":\"Batch\",\"payload\":{\"readings\":[{\"timestamp\":1,\"value\":2},{\"timestamp\":-9223372036854775808,\"value\":0},{\"timestamp\":30,\"value\":40}]}}"
    );
}

#[test]
fn text_is_json_with_tag_and_payload() {
    let m = Message::Signal { sdp: "line1\nline2 \"q\"".to_string(), candidate: None };
    let value: serde_json::Value = serde_json::from_str(&encode_text(&m)).expect("valid JSON");
    assert_eq!(value["type"].as_str(), Some("Signal"));
    assert_eq!(value["payload"]["sdp"].as_str(), Some("line1\nline2 \"q\""));
    assert!(value["payload"]["candidate"].is_null());
    let b = Message::Batch { readings: vec![PacketData { timestamp: 9, value: 8 }] };
    let batch: serde_json::Value = serde_json::from_str(&encode_text(&b)).expect("valid JSON");
    assert_eq!(batch["type"].as_str(), Some("Batch"));
    assert_eq!(batch["payload"]["readings"][0]["timestamp"].as_i64(), Some(9));
    assert_eq!(batch["payload"]["readings"][0]["value"].as_u64(), Some(8));
}

#[test]
fn every_character_below_the_space_is_escaped() {
    for code in 0u32..0x20 {
        let c = char::from_u32(code).expect("a control character");
        let m = Message::Signal { sdp: c.to_string(), candidate: None };
        let escape = match code {
            8 => "\\b".to_string(),
            9 => "\\t".to_string(),
            10 => "\\n".to_string(),
            12 => "\\f".to_string(),
            13 => "\\r".to_string(),
            _ => format!("\\u00{}{}", ["0", "1"][(code / 16) as usize], "0123456789abcdef".chars().nth((code % 16) as usize).expect("a digit")),
        };
        assert_eq!(
            encode_text(&m),
            format!("{{\"type\":\"Signal\",\"payload\":{{\"sdp\":\"{}\",\"candidate\":null}}}}", escape)
        );
    }
}

#[test]
fn characters_from_the_space_up_are_kept_but_quote_and_backslash() {
    let m = Message::Signal { sdp: " /~\u{7f}\u{80}\u{2028}'".to_string(), candidate: Some("\"\\".to_string()) };
    assert_eq!(
        encode_text(&m),
        "{\"type\":\"Signal\",\"payload\":{\"sdp\":\" /~\u{7f}\u{80}\u{2028}'\",\"candidate\":\"\\\"\\\\\"}}"
    );
}
