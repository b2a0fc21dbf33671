//! What the parsers read before an event is made of it.

use vstd::prelude::*;

verus! {

/// The two masks of a flags field.
#[derive(Debug, Clone, Copy, PartialEq, Eq, Structural)]
pub struct UserFlags {
    /// The tiers that the user follows at.
    pub follow: u32,
    /// The kinds that the user is of.
    pub combined: u32,
}

/// What every mission document holds: the name of its shape.
#[derive(Debug, Clone, PartialEq, Eq)]
pub struct AbstractMissionData {
    /// The document's `type`.
    pub message_type: String,
}

/// A gift towards a mission: the documents of type `GIFT` and
/// `CHALLENGE_GIFT`.
#[derive(Debug, Clone, PartialEq, Eq)]
pub struct MissionGiftPayload {
    /// The document's `user_id`.
    pub user_id: String,
    /// The document's `user_nick`.
    pub label: String,
    /// The document's `gift_count`.
    pub amount: u64,
}

/// The settled total of a mission: the documents of type `SETTLE` and
/// `CHALLENGE_SETTLE`.
#[derive(Debug, Clone, Copy, PartialEq, Eq, Structural)]
pub struct MissionGiftTotalPayload {
    /// The document's `settle_count`.
    pub amount: u64,
}

/// How a battle mission ended: the documents of type `NOTICE`.
#[derive(Debug, Clone, PartialEq, Eq)]
pub struct BattleMissionResultPayload {
    pub draw: bool,
    pub winner: String,
    pub title: String,
}

/// How a challenge mission ended: the documents of type `CHALLENGE_NOTICE`.
#[derive(Debug, Clone, PartialEq, Eq)]
pub struct ChallengeMissionResultPayload {
    /// The document's `missionStatus`.
    pub status: String,
    pub title: String,
}

} // verus!
