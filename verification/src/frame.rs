//! The wire layout of a message.
//!
//! A message travels as one frame. Every integer is big-endian two's complement:
//!
//! | field         | bytes | content                                   |
//! |---------------|-------|-------------------------------------------|
//! | size          | 4     | length of the whole frame, itself included |
//! | api key       | 2     | `API_KEY`                                 |
//! | version       | 2     | `API_KEY_VERSION`                         |
//! | flags         | 2     | `FLAGS`                                   |
//! | partition     | 4     | only with an explicit partition           |
//! | topic length  | 2     |                                           |
//! | topic         |       |                                           |
//! | timestamp     | 8     | milliseconds since the Unix epoch         |
//! | key length    | 4     |                                           |
//! | key           |       |                                           |
//! | value length  | 4     |                                           |
//! | value         |       |                                           |
//!
//! The timestamp follows the topic; it does not sit with the other fixed fields.

use crate::wire::{be_bytes, be_signed, lemma_be_bytes_len, lemma_be_signed_round_trip, radix};
use vstd::prelude::*;

verus! {

/// The longest value that a message may carry, in bytes.
pub const MAX_MESSAGE_SIZE: usize = 2_147_483_647;

/// The longest topic that a message may name, in bytes.
pub const MAX_TOPIC_SIZE: usize = 32_767;

/// The api key that every frame carries.
pub const API_KEY: i16 = 256;

/// The api version that every frame carries.
pub const API_KEY_VERSION: i16 = 0;

/// The flags that every frame carries.
pub const FLAGS: i16 = 0;

/// The bytes of a frame without an explicit partition that are not topic, key or value:
/// size, api key, version, flags, topic length, timestamp, key length, value length.
pub const ANY_KEY_HEADER_SIZE: usize = 4 + 2 + 2 + 2 + 2 + 8 + 4 + 4;

/// The same for a frame with an explicit partition, which has four bytes more.
pub const WITH_KEY_HEADER_SIZE: usize = ANY_KEY_HEADER_SIZE + 4;

/// What a message says, apart from how it is laid out.
pub struct MessageView {
    /// The partition that the broker must use; `None` leaves the choice to the broker.
    pub partition: Option<i32>,
    /// Milliseconds since the Unix epoch.
    pub timestamp: i64,
    pub topic: Seq<u8>,
    pub key: Seq<u8>,
    pub value: Seq<u8>,
}

impl MessageView {
    /// Topic and value are no longer than the protocol allows. The key has no limit.
    pub open spec fn within_limits(self) -> bool {
        &&& self.topic.len() <= MAX_TOPIC_SIZE
        &&& self.value.len() <= MAX_MESSAGE_SIZE
    }

    /// The bytes of the frame that are not topic, key or value.
    pub open spec fn header_len(self) -> nat {
        if self.partition is Some {
            WITH_KEY_HEADER_SIZE as nat
        } else {
            ANY_KEY_HEADER_SIZE as nat
        }
    }

    /// The length of the frame: every fixed field, the size field among them, and the
    /// three payloads.
    pub open spec fn encoded_len(self) -> nat {
        self.header_len() + self.topic.len() + self.key.len() + self.value.len()
    }

    /// The partition field: four bytes, or nothing where the broker chooses.
    pub open spec fn partition_bytes(self) -> Seq<u8> {
        match self.partition {
            Some(p) => be_bytes(p as int, 4),
            None => Seq::empty(),
        }
    }

    /// The frame, byte for byte.
    ///
    /// A length that does not fit its field is stored by its low-order bytes. Within
    /// `within_limits` this can happen to the key length, which nothing bounds, and to
    /// the size.
    pub open spec fn encode(self) -> Seq<u8> {
        be_bytes(self.encoded_len() as int, 4) + be_bytes(API_KEY as int, 2) + be_bytes(
            API_KEY_VERSION as int,
            2,
        ) + be_bytes(FLAGS as int, 2) + self.partition_bytes() + be_bytes(
            self.topic.len() as int,
            2,
        ) + self.topic + be_bytes(self.timestamp as int, 8) + be_bytes(self.key.len() as int, 4)
            + self.key + be_bytes(self.value.len() as int, 4) + self.value
    }
}

/// Reads a frame back: the message that `bytes` hold when they are exactly one frame,
/// with a partition field if `explicit`, and `None` when they are not.
///
/// The three length fields say where each payload ends; the fixed fields must hold
/// `API_KEY`, `API_KEY_VERSION` and `FLAGS`. The size field is not consulted.
pub open spec fn decode(explicit: bool, bytes: Seq<u8>) -> Option<MessageView> {
    let partition_width: int = if explicit {
        4
    } else {
        0
    };
    let topic_at = 12 + partition_width;
    if bytes.len() < topic_at {
        None
    } else {
        let topic_len = be_signed(bytes.subrange(topic_at - 2, topic_at));
        let stamp_at = topic_at + topic_len;
        let key_at = stamp_at + 12;
        if topic_len < 0 || bytes.len() < key_at {
            None
        } else {
            let key_len = be_signed(bytes.subrange(key_at - 4, key_at));
            let value_at = key_at + key_len + 4;
            if key_len < 0 || bytes.len() < value_at {
                None
            } else {
                let value_len = be_signed(bytes.subrange(value_at - 4, value_at));
                if value_len < 0 || bytes.len() != value_at + value_len {
                    None
                } else if be_signed(bytes.subrange(4, 6)) != API_KEY || be_signed(
                    bytes.subrange(6, 8),
                ) != API_KEY_VERSION || be_signed(bytes.subrange(8, 10)) != FLAGS {
                    None
                } else {
                    Some(
                        MessageView {
                            partition: if explicit {
                                Some(be_signed(bytes.subrange(10, 14)) as i32)
                            } else {
                                None
                            },
                            timestamp: be_signed(bytes.subrange(stamp_at, stamp_at + 8)) as i64,
                            topic: bytes.subrange(topic_at, stamp_at),
                            key: bytes.subrange(key_at, value_at - 4),
                            value: bytes.subrange(value_at, value_at + value_len),
                        },
                    )
                }
            }
        }
    }
}

/// A frame is as long as `encoded_len` says.
pub proof fn lemma_encoded_length(m: MessageView)
    ensures
        m.encode().len() == m.encoded_len(),
{
    lemma_be_bytes_len(m.encoded_len() as int, 4);
    lemma_be_bytes_len(API_KEY as int, 2);
    lemma_be_bytes_len(API_KEY_VERSION as int, 2);
    lemma_be_bytes_len(FLAGS as int, 2);
    if m.partition is Some {
        lemma_be_bytes_len(m.partition->0 as int, 4);
    }
    lemma_be_bytes_len(m.topic.len() as int, 2);
    lemma_be_bytes_len(m.timestamp as int, 8);
    lemma_be_bytes_len(m.key.len() as int, 4);
    lemma_be_bytes_len(m.value.len() as int, 4);
}

/// The size field tells the truth: read as a signed number, the first four bytes of a
/// frame are the length of the frame, for every frame short enough for that number to
/// fit the field.
pub proof fn lemma_size_field_is_encoded_length(m: MessageView)
    requires
        m.encoded_len() <= i32::MAX,
    ensures
        be_signed(m.encode().subrange(0, 4)) == m.encode().len(),
{
    let n = m.encoded_len() as int;
    lemma_encoded_length(m);
    lemma_be_bytes_len(n, 4);
    assert(m.encode().subrange(0, 4) =~= be_bytes(n, 4));
    reveal_with_fuel(radix, 5);
    lemma_be_signed_round_trip(n, 4);
}

/// Naming a partition costs four bytes: the frame with an explicit partition is four
/// bytes longer than the frame of the same message without one.
pub proof fn lemma_explicit_partition_adds_four(m: MessageView, partition: i32)
    ensures
        (MessageView { partition: Some(partition), ..m }).encode().len() == (MessageView {
            partition: None,
            ..m
        }).encode().len() + 4,
{
    lemma_encoded_length(MessageView { partition: Some(partition), ..m });
    lemma_encoded_length(MessageView { partition: None, ..m });
}

/// Round trip: decoding the frame of a message gives the message back, with its topic,
/// key and value, and so their lengths, its timestamp and its partition.
///
/// This holds for every message within the limits whose key length fits the four-byte
/// signed key length field. A longer key is framed all the same, but its length field
/// no longer says how long it is.
pub proof fn lemma_decode_encode(m: MessageView)
    requires
        m.within_limits(),
        m.key.len() <= i32::MAX,
    ensures
        decode(m.partition is Some, m.encode()) == Some(m),
{
    let bytes = m.encode();
    let partition_width: int = if m.partition is Some {
        4
    } else {
        0
    };
    let topic_at = 12 + partition_width;
    let stamp_at = topic_at + m.topic.len();
    let key_at = stamp_at + 12;
    let value_at = key_at + m.key.len() + 4;

    lemma_encoded_length(m);
    lemma_be_bytes_len(m.encoded_len() as int, 4);
    lemma_be_bytes_len(API_KEY as int, 2);
    lemma_be_bytes_len(API_KEY_VERSION as int, 2);
    lemma_be_bytes_len(FLAGS as int, 2);
    lemma_be_bytes_len(m.topic.len() as int, 2);
    lemma_be_bytes_len(m.timestamp as int, 8);
    lemma_be_bytes_len(m.key.len() as int, 4);
    lemma_be_bytes_len(m.value.len() as int, 4);

    assert(bytes.subrange(4, 6) =~= be_bytes(API_KEY as int, 2));
    assert(bytes.subrange(6, 8) =~= be_bytes(API_KEY_VERSION as int, 2));
    assert(bytes.subrange(8, 10) =~= be_bytes(FLAGS as int, 2));
    assert(bytes.subrange(topic_at - 2, topic_at) =~= be_bytes(m.topic.len() as int, 2));
    assert(bytes.subrange(topic_at, stamp_at) =~= m.topic);
    assert(bytes.subrange(stamp_at, stamp_at + 8) =~= be_bytes(m.timestamp as int, 8));
    assert(bytes.subrange(key_at - 4, key_at) =~= be_bytes(m.key.len() as int, 4));
    assert(bytes.subrange(key_at, value_at - 4) =~= m.key);
    assert(bytes.subrange(value_at - 4, value_at) =~= be_bytes(m.value.len() as int, 4));
    assert(bytes.subrange(value_at, value_at + m.value.len()) =~= m.value);

    reveal_with_fuel(radix, 9);
    lemma_be_signed_round_trip(API_KEY as int, 2);
    lemma_be_signed_round_trip(API_KEY_VERSION as int, 2);
    lemma_be_signed_round_trip(FLAGS as int, 2);
    lemma_be_signed_round_trip(m.topic.len() as int, 2);
    lemma_be_signed_round_trip(m.timestamp as int, 8);
    lemma_be_signed_round_trip(m.key.len() as int, 4);
    lemma_be_signed_round_trip(m.value.len() as int, 4);
    if m.partition is Some {
        lemma_be_bytes_len(m.partition->0 as int, 4);
        assert(bytes.subrange(10, 14) =~= be_bytes(m.partition->0 as int, 4));
        lemma_be_signed_round_trip(m.partition->0 as int, 4);
    }
}

} // verus!
