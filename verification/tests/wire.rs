use packet_ingest::message::{Message, PacketData};
use packet_ingest::wire::{
    append_record, decode_batch, decode_record, encode_batch, encode_record, outbound_frame,
    republished, Frame, RECORD_LEN,
};

#[test]
fn record_is_twelve_little_endian_bytes() {
    let bytes = encode_record(0x0102030405060708, 0x0a0b0c0d);
    assert_eq!(
        bytes,
        vec![0x08, 0x07, 0x06, 0x05, 0x04, 0x03, 0x02, 0x01, 0x0d, 0x0c, 0x0b, 0x0a]
    );
    assert_eq!(bytes.len(), RECORD_LEN);
}

#[test]
fn record_matches_std_little_endian() {
    let cases: Vec<(i64, u32)> = vec![
        (0, 0),
        (1, 2),
        (-1, u32::MAX),
        (i64::MIN, 1),
        (i64::MAX, u32::MAX),
        (-1234567890123456789, 4000000000),
        (1700000000123456789, 1514),
    ];
    for (t, v) in cases {
        let mut expected: Vec<u8> = Vec::new();
        expected.extend_from_slice(&t.to_le_bytes());
        expected.extend_from_slice(&v.to_le_bytes());
        assert_eq!(encode_record(t, v), expected);
    }
}

#[test]
fn negative_timestamp_is_twos_complement() {
    assert_eq!(
        encode_record(-2, 0),
        vec![0xfe, 0xff, 0xff, 0xff, 0xff, 0xff, 0xff, 0xff, 0, 0, 0, 0]
    );
}

#[test]
fn record_round_trip_at_the_extremes() {
    let cases: Vec<(i64, u32)> = vec![
        (i64::MIN, 0),
        (i64::MAX, u32::MAX),
        (0, u32::MAX),
        (-1, 0),
        (i64::MIN + 1, 1),
        (255, 256),
        (1 << 32, 1 << 31),
    ];
    for (t, v) in cases {
        let decoded = decode_record(&encode_record(t, v));
        assert_eq!(decoded, Some(PacketData { timestamp: t, value: v }));
    }
}

#[test]
fn decode_record_wants_twelve_bytes() {
    assert_eq!(decode_record(&[]), None);
    assert_eq!(decode_record(&[0u8; 11]), None);
    assert_eq!(decode_record(&[0u8; 13]), None);
    assert_eq!(decode_record(&[0u8; 24]), None);
    assert_eq!(decode_record(&[0u8; 12]), Some(PacketData { timestamp: 0, value: 0 }));
}

#[test]
fn batch_frame_is_twelve_bytes_per_reading() {
    let mut readings: Vec<PacketData> = Vec::new();
    for i in 0..7u32 {
        readings.push(PacketData { timestamp: -(i as i64) * 1000, value: i * 3 });
    }
    let frame = encode_batch(&readings);
    assert_eq!(frame.len(), 84);
    for (i, r) in readings.iter().enumerate() {
        assert_eq!(&frame[12 * i..12 * i + 12], &encode_record(r.timestamp, r.value)[..]);
    }
}

#[test]
fn empty_batch_is_an_empty_frame() {
    assert_eq!(encode_batch(&Vec::new()), Vec::<u8>::new());
    assert_eq!(decode_batch(&[]), Some(Vec::new()));
}

#[test]
fn batch_round_trip_keeps_order() {
    let readings = vec![
        PacketData { timestamp: 3, value: 30 },
        PacketData { timestamp: 1, value: 10 },
        PacketData { timestamp: i64::MIN, value: u32::MAX },
        PacketData { timestamp: i64::MAX, value: 0 },
    ];
    assert_eq!(decode_batch(&encode_batch(&readings)), Some(readings));
}

#[test]
fn decode_batch_refuses_a_partial_record() {
    let mut frame = encode_batch(&vec![PacketData { timestamp: 5, value: 6 }]);
    frame.push(0);
    assert_eq!(decode_batch(&frame), None);
    assert_eq!(decode_batch(&[1u8, 2, 3]), None);
}

#[test]
fn append_record_keeps_what_was_there() {
    let mut buf: Vec<u8> = vec![9, 9];
    append_record(&mut buf, PacketData { timestamp: 1, value: 1 });
    assert_eq!(buf, vec![9, 9, 1, 0, 0, 0, 0, 0, 0, 0, 1, 0, 0, 0]);
}

#[test]
fn outbound_batch_is_binary() {
    let readings = vec![
        PacketData { timestamp: 1, value: 2 },
        PacketData { timestamp: 3, value: 4 },
    ];
    let frame = outbound_frame(Message::Batch { readings: readings.clone() });
    assert_eq!(frame, Frame::Binary(encode_batch(&readings)));
    match frame {
        Frame::Binary(bytes) => assert_eq!(bytes.len(), 24),
        Frame::Text(_) => panic!("a batch goes out as binary"),
    }
}

#[test]
fn outbound_single_reading_is_one_record() {
    let frame = outbound_frame(Message::Data { timestamp: -7, value: 99 });
    assert_eq!(frame, Frame::Binary(encode_record(-7, 99)));
}

#[test]
fn outbound_signal_is_text() {
    let signal = Message::Signal { sdp: "v=0".to_string(), candidate: Some("c1".to_string()) };
    assert_eq!(
        outbound_frame(signal),
        Frame::Text("{\"type\":\"Signal\",\"payload\":{\"sdp\":\"v=0\",\"candidate\":\"c1\"}}".to_string())
    );
}

#[test]
fn only_signals_are_republished() {
    let signal = Message::Signal { sdp: "offer".to_string(), candidate: None };
    assert_eq!(republished(signal.clone()), Some(signal));
    assert_eq!(republished(Message::Data { timestamp: 1, value: 1 }), None);
    assert_eq!(republished(Message::Batch { readings: vec![] }), None);
}
