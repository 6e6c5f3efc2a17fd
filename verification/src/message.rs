//! The two kinds of message: one that leaves the partition to the broker and one that
//! names it.
//!
//! A message is built once, from byte slices that it borrows, and never changes. It
//! exists only if its topic and value are within the protocol's limits, so that
//! `serialize` cannot fail.

use crate::clock::get_time_miliseconds;
use crate::error::DoryError;
use crate::frame::{
    lemma_encoded_length, lemma_size_field_is_encoded_length, MessageView, ANY_KEY_HEADER_SIZE,
    API_KEY, API_KEY_VERSION, FLAGS, MAX_MESSAGE_SIZE, MAX_TOPIC_SIZE, WITH_KEY_HEADER_SIZE,
};
use crate::wire::{
    be_signed, lemma_be_bytes_of_wrap_signed, put_bytes, put_i16, put_i32, put_i64, wrap_signed,
    wrap_to_i32,
};
use vstd::prelude::*;

verus! {

/// The verdict on a value and a topic of the given lengths. The value is judged first:
/// where both are too long, the value is the one reported. The key is not judged.
pub open spec fn size_check(value_len: nat, topic_len: nat) -> Result<(), DoryError> {
    if value_len > MAX_MESSAGE_SIZE {
        Err(DoryError::MessageTooLarge)
    } else if topic_len > MAX_TOPIC_SIZE {
        Err(DoryError::TopicTooLarge)
    } else {
        Ok(())
    }
}

/// Checks a value and a topic against the protocol's limits.
///
/// The lengths are compared as `usize`, before anything is narrowed to the width of a
/// field.
pub fn check_size(value: &[u8], topic: &[u8]) -> (r: Result<(), DoryError>)
    ensures
        r == size_check(value@.len(), topic@.len()),
{
    if value.len() > MAX_MESSAGE_SIZE {
        Err(DoryError::MessageTooLarge)
    } else if topic.len() > MAX_TOPIC_SIZE {
        Err(DoryError::TopicTooLarge)
    } else {
        Ok(())
    }
}

/// A message whose partition the broker chooses.
#[derive(Debug)]
pub struct DoryMessageAnyKey<'a> {
    message_size: i32,
    api_key: i16,
    api_key_version: i16,
    flags: i16,
    timestamp: i64,
    topic_length: i16,
    key_length: i32,
    value_length: i32,
    topic_value: &'a [u8],
    key_value: &'a [u8],
    value: &'a [u8],
}

impl<'a> View for DoryMessageAnyKey<'a> {
    type V = MessageView;

    closed spec fn view(&self) -> MessageView {
        MessageView {
            partition: None,
            timestamp: self.timestamp,
            topic: self.topic_value@,
            key: self.key_value@,
            value: self.value@,
        }
    }
}

impl<'a> DoryMessageAnyKey<'a> {
    /// Every field is what its payload makes it: the constants are in place, topic and
    /// value are within the limits, and each length field holds its length as far as
    /// the field can hold it.
    #[verifier::type_invariant]
    spec fn well_formed(&self) -> bool {
        &&& self@.within_limits()
        &&& self.message_size == wrap_signed(self@.encoded_len() as int, 4)
        &&& self.api_key == API_KEY
        &&& self.api_key_version == API_KEY_VERSION
        &&& self.flags == FLAGS
        &&& self.topic_length == self.topic_value@.len()
        &&& self.key_length == wrap_signed(self.key_value@.len() as int, 4)
        &&& self.value_length == self.value@.len()
    }

    /// Builds a message stamped with the current time.
    ///
    /// This is `with_clock_reading` on a fresh reading of the clock. A value or topic
    /// that is too long is refused with its error, whatever the clock says. Otherwise
    /// the outcome rests on the clock alone: the message of `with_timestamp` for the
    /// time that was read, or `ClockBeforeEpoch`.
    pub fn new(topic_value: &'a [u8], key_value: &'a [u8], value: &'a [u8]) -> (r: Result<
        DoryMessageAnyKey<'a>,
        DoryError,
    >)
        ensures
            match size_check(value@.len(), topic_value@.len()) {
                Err(e) => r is Err && r->Err_0 == e,
                Ok(_) => match r {
                    Ok(m) => m@ == (MessageView {
                        partition: None,
                        timestamp: m@.timestamp,
                        topic: topic_value@,
                        key: key_value@,
                        value: value@,
                    }),
                    Err(e) => e == DoryError::ClockBeforeEpoch,
                },
            },
    {
        Self::with_clock_reading(topic_value, key_value, value, get_time_miliseconds())
    }

    /// Builds a message from what the clock gave: the timestamp, or the reason why
    /// there is none.
    ///
    /// A value or topic that is too long is refused with its error first. Within the
    /// limits, a timestamp gives the message of `with_timestamp`, and a failed reading
    /// is handed back as it came.
    pub fn with_clock_reading(
        topic_value: &'a [u8],
        key_value: &'a [u8],
        value: &'a [u8],
        reading: Result<i64, DoryError>,
    ) -> (r: Result<DoryMessageAnyKey<'a>, DoryError>)
        ensures
            match (size_check(value@.len(), topic_value@.len()), reading) {
                (Err(e), _) => r is Err && r->Err_0 == e,
                (Ok(_), Err(e)) => r is Err && r->Err_0 == e,
                (Ok(_), Ok(timestamp)) => r is Ok && r->Ok_0@ == (MessageView {
                    partition: None,
                    timestamp,
                    topic: topic_value@,
                    key: key_value@,
                    value: value@,
                }),
            },
    {
        match reading {
            Ok(timestamp) => Self::with_timestamp(topic_value, key_value, value, timestamp),
            Err(clock_error) => match check_size(value, topic_value) {
                Ok(_) => Err(clock_error),
                Err(size_error) => Err(size_error),
            },
        }
    }

    /// Builds a message with the given timestamp, in milliseconds since the Unix epoch.
    ///
    /// This succeeds exactly when topic and value are within the limits, and the
    /// message then says what was passed in.
    pub fn with_timestamp(
        topic_value: &'a [u8],
        key_value: &'a [u8],
        value: &'a [u8],
        timestamp: i64,
    ) -> (r: Result<DoryMessageAnyKey<'a>, DoryError>)
        ensures
            match size_check(value@.len(), topic_value@.len()) {
                Err(e) => r is Err && r->Err_0 == e,
                Ok(_) => r is Ok && r->Ok_0@ == (MessageView {
                    partition: None,
                    timestamp,
                    topic: topic_value@,
                    key: key_value@,
                    value: value@,
                }),
            },
    {
        match check_size(value, topic_value) {
            Err(e) => Err(e),
            Ok(_) => Ok(
                DoryMessageAnyKey {
                    message_size: Self::get_size(topic_value.len(), key_value.len(), value.len()),
                    api_key: API_KEY,
                    api_key_version: API_KEY_VERSION,
                    flags: FLAGS,
                    timestamp,
                    topic_length: topic_value.len() as i16,
                    key_length: wrap_to_i32(key_value.len() as u128),
                    value_length: value.len() as i32,
                    topic_value,
                    key_value,
                    value,
                },
            ),
        }
    }

    /// The size field of a message with payloads of these lengths: the length of the
    /// whole frame, size field included, as long as it fits four signed bytes.
    ///
    /// It is computed from the lengths alone, never by counting bytes that were
    /// written. A length beyond `i32::MAX` is stored by its low 32 bits.
    pub fn get_size(topic_len: usize, key_len: usize, value_len: usize) -> (size: i32)
        ensures
            size == wrap_signed(ANY_KEY_HEADER_SIZE + topic_len + key_len + value_len, 4),
            ANY_KEY_HEADER_SIZE + topic_len + key_len + value_len <= i32::MAX ==> size
                == ANY_KEY_HEADER_SIZE + topic_len + key_len + value_len,
    {
        let total: u128 = ANY_KEY_HEADER_SIZE as u128 + topic_len as u128 + key_len as u128
            + value_len as u128;
        wrap_to_i32(total)
    }

    /// The frame of this message, ready to be written to the daemon's socket.
    pub fn serialize(&self) -> (buff: Vec<u8>)
        ensures
            buff@ == self@.encode(),
            buff@.len() == self@.encoded_len(),
            buff@.len() <= i32::MAX ==> be_signed(buff@.subrange(0, 4)) == buff@.len(),
            self@.within_limits(),
            self@.partition is None,
    {
        proof {
            use_type_invariant(self);
            lemma_encoded_length(self@);
            if self@.encoded_len() <= i32::MAX {
                lemma_size_field_is_encoded_length(self@);
            }
            lemma_be_bytes_of_wrap_signed(self@.encoded_len() as int, 4);
            lemma_be_bytes_of_wrap_signed(self.key_value@.len() as int, 4);
        }
        let mut buff: Vec<u8> = Vec::new();
        put_i32(&mut buff, self.message_size);
        put_i16(&mut buff, self.api_key);
        put_i16(&mut buff, self.api_key_version);
        put_i16(&mut buff, self.flags);
        put_i16(&mut buff, self.topic_length);
        put_bytes(&mut buff, self.topic_value);
        put_i64(&mut buff, self.timestamp);
        put_i32(&mut buff, self.key_length);
        put_bytes(&mut buff, self.key_value);
        put_i32(&mut buff, self.value_length);
        put_bytes(&mut buff, self.value);
        assert(buff@ =~= self@.encode());
        buff
    }
}

/// A message for the partition that the caller names.
#[derive(Debug)]
pub struct DoryMessageWithKey<'a> {
    message_size: i32,
    api_key: i16,
    api_key_version: i16,
    flags: i16,
    partition_key: i32,
    timestamp: i64,
    topic_length: i16,
    key_length: i32,
    value_length: i32,
    topic_value: &'a [u8],
    key_value: &'a [u8],
    value: &'a [u8],
}

impl<'a> View for DoryMessageWithKey<'a> {
    type V = MessageView;

    closed spec fn view(&self) -> MessageView {
        MessageView {
            partition: Some(self.partition_key),
            timestamp: self.timestamp,
            topic: self.topic_value@,
            key: self.key_value@,
            value: self.value@,
        }
    }
}

impl<'a> DoryMessageWithKey<'a> {
    /// Every field is what its payload makes it: the constants are in place, topic and
    /// value are within the limits, and each length field holds its length as far as
    /// the field can hold it.
    #[verifier::type_invariant]
    spec fn well_formed(&self) -> bool {
        &&& self@.within_limits()
        &&& self.message_size == wrap_signed(self@.encoded_len() as int, 4)
        &&& self.api_key == API_KEY
        &&& self.api_key_version == API_KEY_VERSION
        &&& self.flags == FLAGS
        &&& self.topic_length == self.topic_value@.len()
        &&& self.key_length == wrap_signed(self.key_value@.len() as int, 4)
        &&& self.value_length == self.value@.len()
    }

    /// Builds a message for `partition_key`, stamped with the current time.
    ///
    /// This is `with_clock_reading` on a fresh reading of the clock. A value or topic
    /// that is too long is refused with its error, whatever the clock says. Otherwise
    /// the outcome rests on the clock alone: the message of `with_timestamp` for the
    /// time that was read, or `ClockBeforeEpoch`.
    pub fn new(
        topic_value: &'a [u8],
        key_value: &'a [u8],
        value: &'a [u8],
        partition_key: i32,
    ) -> (r: Result<DoryMessageWithKey<'a>, DoryError>)
        ensures
            match size_check(value@.len(), topic_value@.len()) {
                Err(e) => r is Err && r->Err_0 == e,
                Ok(_) => match r {
                    Ok(m) => m@ == (MessageView {
                        partition: Some(partition_key),
                        timestamp: m@.timestamp,
                        topic: topic_value@,
                        key: key_value@,
                        value: value@,
                    }),
                    Err(e) => e == DoryError::ClockBeforeEpoch,
                },
            },
    {
        Self::with_clock_reading(
            topic_value,
            key_value,
            value,
            partition_key,
            get_time_miliseconds(),
        )
    }

    /// Builds a message for `partition_key` from what the clock gave: the timestamp, or
    /// the reason why there is none.
    ///
    /// A value or topic that is too long is refused with its error first. Within the
    /// limits, a timestamp gives the message of `with_timestamp`, and a failed reading
    /// is handed back as it came.
    pub fn with_clock_reading(
        topic_value: &'a [u8],
        key_value: &'a [u8],
        value: &'a [u8],
        partition_key: i32,
        reading: Result<i64, DoryError>,
    ) -> (r: Result<DoryMessageWithKey<'a>, DoryError>)
        ensures
            match (size_check(value@.len(), topic_value@.len()), reading) {
                (Err(e), _) => r is Err && r->Err_0 == e,
                (Ok(_), Err(e)) => r is Err && r->Err_0 == e,
                (Ok(_), Ok(timestamp)) => r is Ok && r->Ok_0@ == (MessageView {
                    partition: Some(partition_key),
                    timestamp,
                    topic: topic_value@,
                    key: key_value@,
                    value: value@,
                }),
            },
    {
        match reading {
            Ok(timestamp) => Self::with_timestamp(
                topic_value,
                key_value,
                value,
                partition_key,
                timestamp,
            ),
            Err(clock_error) => match check_size(value, topic_value) {
                Ok(_) => Err(clock_error),
                Err(size_error) => Err(size_error),
            },
        }
    }

    /// Builds a message for `partition_key` with the given timestamp, in milliseconds
    /// since the Unix epoch.
    ///
    /// This succeeds exactly when topic and value are within the limits, and the
    /// message then says what was passed in.
    pub fn with_timestamp(
        topic_value: &'a [u8],
        key_value: &'a [u8],
        value: &'a [u8],
        partition_key: i32,
        timestamp: i64,
    ) -> (r: Result<DoryMessageWithKey<'a>, DoryError>)
        ensures
            match size_check(value@.len(), topic_value@.len()) {
                Err(e) => r is Err && r->Err_0 == e,
                Ok(_) => r is Ok && r->Ok_0@ == (MessageView {
                    partition: Some(partition_key),
                    timestamp,
                    topic: topic_value@,
                    key: key_value@,
                    value: value@,
                }),
            },
    {
        match check_size(value, topic_value) {
            Err(e) => Err(e),
            Ok(_) => Ok(
                DoryMessageWithKey {
                    message_size: Self::get_size(topic_value.len(), key_value.len(), value.len()),
                    api_key: API_KEY,
                    api_key_version: API_KEY_VERSION,
                    flags: FLAGS,
                    partition_key,
                    timestamp,
                    topic_length: topic_value.len() as i16,
                    key_length: wrap_to_i32(key_value.len() as u128),
                    value_length: value.len() as i32,
                    topic_value,
                    key_value,
                    value,
                },
            ),
        }
    }

    /// The size field of a message with payloads of these lengths: the length of the
    /// whole frame, size and partition fields included, as long as it fits four signed
    /// bytes.
    ///
    /// It is computed from the lengths alone, never by counting bytes that were
    /// written. A length beyond `i32::MAX` is stored by its low 32 bits.
    pub fn get_size(topic_len: usize, key_len: usize, value_len: usize) -> (size: i32)
        ensures
            size == wrap_signed(WITH_KEY_HEADER_SIZE + topic_len + key_len + value_len, 4),
            WITH_KEY_HEADER_SIZE + topic_len + key_len + value_len <= i32::MAX ==> size
                == WITH_KEY_HEADER_SIZE + topic_len + key_len + value_len,
    {
        let total: u128 = WITH_KEY_HEADER_SIZE as u128 + topic_len as u128 + key_len as u128
            + value_len as u128;
        wrap_to_i32(total)
    }

    /// The frame of this message, ready to be written to the daemon's socket.
    pub fn serialize(&self) -> (buff: Vec<u8>)
        ensures
            buff@ == self@.encode(),
            buff@.len() == self@.encoded_len(),
            buff@.len() <= i32::MAX ==> be_signed(buff@.subrange(0, 4)) == buff@.len(),
            self@.within_limits(),
            self@.partition is Some,
    {
        proof {
            use_type_invariant(self);
            lemma_encoded_length(self@);
            if self@.encoded_len() <= i32::MAX {
                lemma_size_field_is_encoded_length(self@);
            }
            lemma_be_bytes_of_wrap_signed(self@.encoded_len() as int, 4);
            lemma_be_bytes_of_wrap_signed(self.key_value@.len() as int, 4);
        }
        let mut buff: Vec<u8> = Vec::new();
        put_i32(&mut buff, self.message_size);
        put_i16(&mut buff, self.api_key);
        put_i16(&mut buff, self.api_key_version);
        put_i16(&mut buff, self.flags);
        put_i32(&mut buff, self.partition_key);
        put_i16(&mut buff, self.topic_length);
        put_bytes(&mut buff, self.topic_value);
        put_i64(&mut buff, self.timestamp);
        put_i32(&mut buff, self.key_length);
        put_bytes(&mut buff, self.key_value);
        put_i32(&mut buff, self.value_length);
        put_bytes(&mut buff, self.value);
        assert(buff@ =~= self@.encode());
        buff
    }
}

} // verus!
