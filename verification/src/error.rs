//! The ways in which building a message can fail.

use vstd::prelude::*;

verus! {

/// Why no message was built. Each failure is all-or-nothing: no partly built message
/// comes with it.
#[derive(Debug, Clone, Copy, PartialEq, Eq, Structural)]
pub enum DoryError {
    /// The value is longer than `MAX_MESSAGE_SIZE` bytes.
    MessageTooLarge,
    /// The topic is longer than `MAX_TOPIC_SIZE` bytes.
    TopicTooLarge,
    /// The system clock reads a time before the Unix epoch, so there is no timestamp to
    /// put on the message. There is no fallback clock: a caller cannot repair this and
    /// is expected to give up.
    ClockBeforeEpoch,
}

impl DoryError {
    /// The text of `message`.
    pub open spec fn message_text(self) -> Seq<char> {
        match self {
            DoryError::MessageTooLarge => "Message too large"@,
            DoryError::TopicTooLarge => "Topic too large"@,
            DoryError::ClockBeforeEpoch => "System clock is before the Unix epoch"@,
        }
    }

    /// A short description for people.
    pub fn message(&self) -> (text: &'static str)
        ensures
            text@ == self.message_text(),
    {
        match self {
            DoryError::MessageTooLarge => "Message too large",
            DoryError::TopicTooLarge => "Topic too large",
            DoryError::ClockBeforeEpoch => "System clock is before the Unix epoch",
        }
    }
}

} // verus!
