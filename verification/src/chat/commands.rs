//! Outbound message kinds and the commands a session accepts.

use crate::chat::constants::message_codes;
use vstd::prelude::*;

verus! {

/// The kinds of frame that the client itself sends.
#[derive(Debug, PartialEq, Eq, Clone, Copy, Structural)]
pub enum MessageType {
    Ping,
    Connect,
    JOIN,
    Unknown,
}

impl MessageType {
    /// The kind that an opcode names; `Unknown` for every other opcode.
    pub open spec fn of_code(code: u32) -> MessageType {
        if code == message_codes::PING {
            MessageType::Ping
        } else if code == message_codes::CONNECT {
            MessageType::Connect
        } else if code == message_codes::JOIN {
            MessageType::JOIN
        } else {
            MessageType::Unknown
        }
    }

    /// The opcode of a kind; `Unknown` is sent as 0.
    pub open spec fn code(self) -> u32 {
        match self {
            MessageType::Ping => message_codes::PING,
            MessageType::Connect => message_codes::CONNECT,
            MessageType::JOIN => message_codes::JOIN,
            MessageType::Unknown => 0,
        }
    }

    pub fn to_code(&self) -> (code: u32)
        ensures
            code == self.code(),
            code < 10000,
    {
        match self {
            MessageType::Ping => message_codes::PING,
            MessageType::Connect => message_codes::CONNECT,
            MessageType::JOIN => message_codes::JOIN,
            MessageType::Unknown => 0,
        }
    }
}

impl From<u32> for MessageType {
    fn from(code: u32) -> (kind: MessageType) {
        if code == message_codes::PING {
            MessageType::Ping
        } else if code == message_codes::CONNECT {
            MessageType::Connect
        } else if code == message_codes::JOIN {
            MessageType::JOIN
        } else {
            MessageType::Unknown
        }
    }
}

impl vstd::std_specs::convert::FromSpecImpl<u32> for MessageType {
    open spec fn obeys_from_spec() -> bool {
        true
    }

    open spec fn from_spec(code: u32) -> MessageType {
        MessageType::of_code(code)
    }
}

/// Every known kind is found again from its opcode.
pub proof fn lemma_code_round_trip(kind: MessageType)
    requires
        kind != MessageType::Unknown,
    ensures
        MessageType::of_code(kind.code()) == kind,
{
}

/// What the embedding application asks of a running session.
#[derive(Debug, PartialEq, Eq)]
pub enum Command {
    /// Send this chat text.
    SendChat(String),
    /// Close the connection and end the session task.
    Shutdown,
}

} // verus!
