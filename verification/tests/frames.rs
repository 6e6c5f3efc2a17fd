use dory::message::{DoryMessageAnyKey, DoryMessageWithKey};

const STAMP: i64 = 0x0102_0304_0506_0708;

fn be16(bytes: &[u8]) -> i64 {
    i16::from_be_bytes([bytes[0], bytes[1]]) as i64
}

fn be32(bytes: &[u8]) -> i64 {
    i32::from_be_bytes([bytes[0], bytes[1], bytes[2], bytes[3]]) as i64
}

fn be64(bytes: &[u8]) -> i64 {
    i64::from_be_bytes([
        bytes[0], bytes[1], bytes[2], bytes[3], bytes[4], bytes[5], bytes[6], bytes[7],
    ])
}

struct Decoded {
    size: i64,
    api_key: i64,
    version: i64,
    flags: i64,
    partition: Option<i64>,
    topic: Vec<u8>,
    timestamp: i64,
    key: Vec<u8>,
    value: Vec<u8>,
}

fn decode(explicit: bool, bytes: &[u8]) -> Decoded {
    let mut at = 10;
    let partition = if explicit {
        at += 4;
        Some(be32(&bytes[10..14]))
    } else {
        None
    };
    let topic_len = be16(&bytes[at..at + 2]) as usize;
    at += 2;
    let topic = bytes[at..at + topic_len].to_vec();
    at += topic_len;
    let timestamp = be64(&bytes[at..at + 8]);
    at += 8;
    let key_len = be32(&bytes[at..at + 4]) as usize;
    at += 4;
    let key = bytes[at..at + key_len].to_vec();
    at += key_len;
    let value_len = be32(&bytes[at..at + 4]) as usize;
    at += 4;
    let value = bytes[at..at + value_len].to_vec();
    at += value_len;
    assert_eq!(at, bytes.len());
    Decoded {
        size: be32(&bytes[0..4]),
        api_key: be16(&bytes[4..6]),
        version: be16(&bytes[6..8]),
        flags: be16(&bytes[8..10]),
        partition,
        topic,
        timestamp,
        key,
        value,
    }
}

#[test]
fn implicit_partition_frame_is_exact() {
    let message = DoryMessageAnyKey::with_timestamp(b"topic", b"test", b"zorcz", STAMP).unwrap();
    let bytes = message.serialize();
    let expected: Vec<u8> = vec![
        0, 0, 0, 42, // size
        1, 0, // api key
        0, 0, // version
        0, 0, // flags
        0, 5, // topic length
        b't', b'o', b'p', b'i', b'c', // topic
        1, 2, 3, 4, 5, 6, 7, 8, // timestamp
        0, 0, 0, 4, // key length
        b't', b'e', b's', b't', // key
        0, 0, 0, 5, // value length
        b'z', b'o', b'r', b'c', b'z', // value
    ];
    assert_eq!(bytes, expected);
}

#[test]
fn implicit_partition_scenario_fields() {
    let message = DoryMessageAnyKey::with_timestamp(b"topic", b"test", b"zorcz", STAMP).unwrap();
    let bytes = message.serialize();
    assert_eq!(bytes.len(), 42);
    assert_eq!(bytes.len(), 4 + 2 + 2 + 2 + 2 + 5 + 8 + 4 + 4 + 4 + 5);
    assert_eq!(&bytes[0..4], &[0x00, 0x00, 0x00, 0x2A]);
    assert_eq!(&bytes[4..6], &[0x01, 0x00]);
    assert_eq!(&bytes[10..12], &[0x00, 0x05]);
    assert_eq!(&bytes[25..29], &[0x00, 0x00, 0x00, 0x04]);
    assert_eq!(&bytes[33..37], &[0x00, 0x00, 0x00, 0x05]);
}

#[test]
fn explicit_partition_frame_is_exact() {
    let message =
        DoryMessageWithKey::with_timestamp(b"topic", b"test", b"zorcz", 123, STAMP).unwrap();
    let bytes = message.serialize();
    let expected: Vec<u8> = vec![
        0, 0, 0, 46, // size
        1, 0, // api key
        0, 0, // version
        0, 0, // flags
        0, 0, 0, 0x7B, // partition
        0, 5, // topic length
        b't', b'o', b'p', b'i', b'c', // topic
        1, 2, 3, 4, 5, 6, 7, 8, // timestamp
        0, 0, 0, 4, // key length
        b't', b'e', b's', b't', // key
        0, 0, 0, 5, // value length
        b'z', b'o', b'r', b'c', b'z', // value
    ];
    assert_eq!(bytes, expected);
}

#[test]
fn explicit_partition_scenario_fields() {
    let message =
        DoryMessageWithKey::with_timestamp(b"topic", b"test", b"zorcz", 123, STAMP).unwrap();
    let bytes = message.serialize();
    assert_eq!(bytes.len(), 46);
    assert_eq!(&bytes[0..4], &[0x00, 0x00, 0x00, 0x2E]);
    // flags end at byte 10; the partition follows at once
    assert_eq!(&bytes[8..10], &[0x00, 0x00]);
    assert_eq!(&bytes[10..14], &[0x00, 0x00, 0x00, 0x7B]);
    assert_eq!(&bytes[14..16], &[0x00, 0x05]);
}

#[test]
fn explicit_partition_adds_four_bytes() {
    let payloads: [(&[u8], &[u8], &[u8]); 4] = [
        (b"", b"", b""),
        (b"topic", b"test", b"zorcz"),
        (b"t", b"", b"a longer value than the others"),
        (b"events", b"user-17", b""),
    ];
    for (topic, key, value) in payloads {
        let implicit = DoryMessageAnyKey::with_timestamp(topic, key, value, 9).unwrap();
        let explicit = DoryMessageWithKey::with_timestamp(topic, key, value, -4, 9).unwrap();
        assert_eq!(explicit.serialize().len(), implicit.serialize().len() + 4);
    }
}

#[test]
fn explicit_frame_is_implicit_frame_with_partition_inserted() {
    let implicit = DoryMessageAnyKey::with_timestamp(b"topic", b"test", b"zorcz", STAMP)
        .unwrap()
        .serialize();
    let explicit = DoryMessageWithKey::with_timestamp(b"topic", b"test", b"zorcz", 123, STAMP)
        .unwrap()
        .serialize();
    // everything but the size and the partition is shared
    assert_eq!(&explicit[4..10], &implicit[4..10]);
    assert_eq!(&explicit[14..], &implicit[10..]);
}

#[test]
fn size_field_is_frame_length() {
    let topic = vec![b't'; 300];
    let key = vec![b'k'; 70_000];
    let value = vec![b'v'; 100_000];
    let cases: [(&[u8], &[u8], &[u8]); 4] = [
        (b"", b"", b""),
        (b"topic", b"test", b"zorcz"),
        (&topic, &key, &value),
        (&topic, b"", b"x"),
    ];
    for (topic, key, value) in cases {
        let implicit = DoryMessageAnyKey::with_timestamp(topic, key, value, 1).unwrap();
        let bytes = implicit.serialize();
        assert_eq!(be32(&bytes[0..4]), bytes.len() as i64);
        assert_eq!(bytes.len(), 28 + topic.len() + key.len() + value.len());

        let explicit = DoryMessageWithKey::with_timestamp(topic, key, value, 5, 1).unwrap();
        let bytes = explicit.serialize();
        assert_eq!(be32(&bytes[0..4]), bytes.len() as i64);
        assert_eq!(bytes.len(), 32 + topic.len() + key.len() + value.len());
    }
}

#[test]
fn empty_payloads_give_bare_headers() {
    let implicit = DoryMessageAnyKey::with_timestamp(b"", b"", b"", 0).unwrap().serialize();
    let mut expected = vec![0u8; 28];
    expected[3] = 28;
    expected[4] = 1;
    assert_eq!(implicit, expected);

    let explicit = DoryMessageWithKey::with_timestamp(b"", b"", b"", 0, 0).unwrap().serialize();
    let mut expected = vec![0u8; 32];
    expected[3] = 32;
    expected[4] = 1;
    assert_eq!(explicit, expected);
}

#[test]
fn implicit_frame_decodes_to_its_message() {
    let topic = vec![0xA5u8; 1_000];
    let key: Vec<u8> = (0..=255u8).collect();
    let value: Vec<u8> = (0..50_000u32).map(|i| (i % 251) as u8).collect();
    let message = DoryMessageAnyKey::with_timestamp(&topic, &key, &value, -1_234_567).unwrap();
    let bytes = message.serialize();
    let decoded = decode(false, &bytes);
    assert_eq!(decoded.size, bytes.len() as i64);
    assert_eq!(decoded.api_key, 256);
    assert_eq!(decoded.version, 0);
    assert_eq!(decoded.flags, 0);
    assert_eq!(decoded.partition, None);
    assert_eq!(decoded.topic, topic);
    assert_eq!(decoded.timestamp, -1_234_567);
    assert_eq!(decoded.key, key);
    assert_eq!(decoded.value, value);
    assert_eq!(decoded.topic.len(), 1_000);
    assert_eq!(decoded.key.len(), 256);
    assert_eq!(decoded.value.len(), 50_000);
}

#[test]
fn explicit_frame_decodes_to_its_message() {
    let message =
        DoryMessageWithKey::with_timestamp(b"orders", b"k", b"payload", -7, i64::MAX).unwrap();
    let bytes = message.serialize();
    let decoded = decode(true, &bytes);
    assert_eq!(decoded.size, bytes.len() as i64);
    assert_eq!(decoded.api_key, 256);
    assert_eq!(decoded.version, 0);
    assert_eq!(decoded.flags, 0);
    assert_eq!(decoded.partition, Some(-7));
    assert_eq!(decoded.topic, b"orders");
    assert_eq!(decoded.timestamp, i64::MAX);
    assert_eq!(decoded.key, b"k");
    assert_eq!(decoded.value, b"payload");
}

#[test]
fn timestamp_follows_the_topic() {
    let message = DoryMessageAnyKey::with_timestamp(b"abc", b"", b"", 1_700_000_000_000).unwrap();
    let bytes = message.serialize();
    assert_eq!(&bytes[12..15], b"abc");
    assert_eq!(&bytes[15..23], &1_700_000_000_000i64.to_be_bytes());
    assert_eq!(&bytes[15..23], &[0x00, 0x00, 0x01, 0x8B, 0xCF, 0xE5, 0x68, 0x00]);
}

#[test]
fn negative_timestamp_and_partition_are_twos_complement() {
    let message = DoryMessageWithKey::with_timestamp(b"", b"", b"", i32::MIN, -1).unwrap();
    let bytes = message.serialize();
    assert_eq!(&bytes[10..14], &[0x80, 0x00, 0x00, 0x00]);
    assert_eq!(&bytes[16..24], &[0xFF; 8]);

    let message = DoryMessageWithKey::with_timestamp(b"", b"", b"", -1, i64::MIN).unwrap();
    let bytes = message.serialize();
    assert_eq!(&bytes[10..14], &[0xFF; 4]);
    assert_eq!(&bytes[16..24], &[0x80, 0, 0, 0, 0, 0, 0, 0]);
}

#[test]
fn serialize_can_be_repeated() {
    let message = DoryMessageAnyKey::with_timestamp(b"topic", b"test", b"zorcz", STAMP).unwrap();
    assert_eq!(message.serialize(), message.serialize());
}
