//! Opcodes: the four-digit code in a frame header that names the message kind.

use vstd::prelude::*;

verus! {

pub type MessageCode = u32;

pub const PING: MessageCode = 0;

pub const CONNECT: MessageCode = 1;

pub const JOIN: MessageCode = 2;

pub const EXIT: MessageCode = 4;

pub const CHAT: MessageCode = 5;

pub const BJ_STATE_CHANGE: MessageCode = 7;

pub const MUTE: MessageCode = 8;

pub const ENTER_INFO: MessageCode = 12;

pub const FREEZE: MessageCode = 21;

pub const SLOW: MessageCode = 23;

pub const MANAGER_CHAT: MessageCode = 26;

pub const SUBSCRIBE: MessageCode = 91;

pub const SUBSCRIBE_RENEW: MessageCode = 93;

pub const KICK_CANCEL: MessageCode = 76;

pub const NOTIFICATION: MessageCode = 104;

pub const EMOTICON: MessageCode = 109;

pub const USER_JOIN: MessageCode = 127;

/// Balloon donation.
pub const DONATION: MessageCode = 18;

/// Balloon donation relayed by a sub-channel.
pub const SUB_DONATION: MessageCode = 33;

/// Balloon donation on a replay.
pub const VOD_DONATION: MessageCode = 86;

/// Ad balloon on a replay.
pub const VOD_AD_DONATION: MessageCode = 103;

/// Ad balloon.
pub const ADBALLOON_DONATION: MessageCode = 87;

/// Ad balloon given to the station.
pub const AD_STATION_DONATION: MessageCode = 107;

/// Video balloon.
pub const VIDEO_DONATION: MessageCode = 105;

/// Battle and challenge missions.
pub const MISSION_DONATION: MessageCode = 121;

} // verus!
