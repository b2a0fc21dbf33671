//! What a chat session is configured with.

use vstd::prelude::*;
use vstd::string::*;

verus! {

/// Seconds between two heartbeats, unless the options say otherwise.
pub const HEARTBEAT_SECONDS: u64 = 60;

/// How many commands may wait to be taken by the session, unless the
/// options say otherwise, and the least that they may say.
pub const COMMAND_CAPACITY: usize = 32;

/// How many events are kept for a subscriber that falls behind, unless the
/// options say otherwise.
pub const EVENT_CAPACITY: usize = 8192;

/// The least number of events that must be kept for a subscriber that
/// falls behind.
pub const MIN_EVENT_CAPACITY: usize = 1024;

/// Options of one chat session.
#[derive(Clone, Debug, PartialEq, Eq)]
pub struct SoopChatOptions {
    /// The streamer whose chat is joined. Must not be empty.
    pub streamer_id: String,
    /// Opaque password handed over on join; empty where the room has none.
    pub password: String,
    /// Seconds between two heartbeats. At least 1.
    pub heartbeat_seconds: u64,
    /// How many commands may wait to be taken by the session. Submitting one
    /// more fails with `InternalChannel` instead of blocking. At least 32.
    pub command_capacity: usize,
    /// How many events are kept for a subscriber that falls behind; older
    /// ones are lost to it. At least 1024.
    pub event_capacity: usize,
    /// Accept any certificate from the chat server. For debugging only.
    pub insecure_tls: bool,
}

impl SoopChatOptions {
    /// The options are usable: the streamer is named, the heartbeat has a
    /// period, and the two capacities are no less than their minimum.
    pub open spec fn valid(&self) -> bool {
        &&& self.streamer_id@.len() > 0
        &&& self.heartbeat_seconds >= 1
        &&& self.command_capacity >= COMMAND_CAPACITY
        &&& self.event_capacity >= MIN_EVENT_CAPACITY
    }

    /// Options for a streamer and a password, with every other option at its
    /// default: a heartbeat every 60 seconds, room for 32 commands and 8192
    /// events, and certificates checked.
    pub fn new(streamer_id: String, password: String) -> (options: SoopChatOptions)
        ensures
            options.streamer_id == streamer_id,
            options.password == password,
            options.heartbeat_seconds == HEARTBEAT_SECONDS,
            options.command_capacity == COMMAND_CAPACITY,
            options.event_capacity == EVENT_CAPACITY,
            !options.insecure_tls,
            options.valid() == (streamer_id@.len() > 0),
    {
        SoopChatOptions {
            streamer_id,
            password,
            heartbeat_seconds: HEARTBEAT_SECONDS,
            command_capacity: COMMAND_CAPACITY,
            event_capacity: EVENT_CAPACITY,
            insecure_tls: false,
        }
    }

    /// The options are usable.
    pub fn is_valid(&self) -> (r: bool)
        ensures
            r == self.valid(),
    {
        !self.streamer_id.as_str().is_empty() && self.heartbeat_seconds >= 1
            && self.command_capacity >= COMMAND_CAPACITY && self.event_capacity
            >= MIN_EVENT_CAPACITY
    }
}

} // verus!
