//! Frames messages for a local Dory daemon, which forwards them to a cluster of brokers.
//!
//! A message is a topic, a key and a value, stamped with the time, and either leaves
//! the choice of partition to the broker (`message::DoryMessageAnyKey`) or names it
//! (`message::DoryMessageWithKey`). `serialize` turns it into the one sequence of bytes
//! that the daemon accepts; `frame` says which bytes those are and proves that they can
//! be read back. Writing them to the daemon's socket is left to the caller.

pub mod clock;
pub mod error;
pub mod frame;
pub mod message;
pub mod wire;
