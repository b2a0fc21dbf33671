//! The records that events are made of.

use vstd::prelude::*;

verus! {

/// Subscription months of a user.
#[derive(Debug, Clone, Copy, PartialEq, Eq, Structural)]
pub struct UserSubscribe {
    /// Months accumulated over all subscriptions.
    pub acc: u32,
    /// Months of the current, unbroken subscription.
    pub current: u32,
}

/// What the flag masks say of a user.
#[derive(Debug, Clone, Copy, PartialEq, Eq, Structural)]
pub struct UserStatus {
    /// 0: no follower; 1 or 2: the follower tier.
    pub follow: u8,
    pub is_bj: bool,
    pub is_manager: bool,
    pub is_top_fan: bool,
    pub is_fan: bool,
    pub is_supporter: bool,
}

/// A user as an event names them.
#[derive(Debug, Clone, PartialEq, Eq)]
pub struct User {
    pub id: String,
    pub label: String,
    pub status: UserStatus,
    pub subscribe: Option<UserSubscribe>,
}

/// The mathematical model of a [`User`].
pub struct UserView {
    pub id: Seq<char>,
    pub label: Seq<char>,
    pub status: UserStatus,
    pub subscribe: Option<UserSubscribe>,
}

impl View for User {
    type V = UserView;

    open spec fn view(&self) -> UserView {
        UserView {
            id: self.id@,
            label: self.label@,
            status: self.status,
            subscribe: self.subscribe,
        }
    }
}

#[derive(Debug, Clone, Copy, PartialEq, Eq, Structural)]
pub enum ChatType {
    Manager,
    Common,
    Emoticon,
}

/// The emoticon of an emoticon chat.
#[derive(Debug, Clone, PartialEq, Eq)]
pub struct Emoticon {
    pub id: String,
    pub number: String,
    pub ext: String,
    pub version: String,
}

/// The mathematical model of an [`Emoticon`].
pub struct EmoticonView {
    pub id: Seq<char>,
    pub number: Seq<char>,
    pub ext: Seq<char>,
    pub version: Seq<char>,
}

impl View for Emoticon {
    type V = EmoticonView;

    open spec fn view(&self) -> EmoticonView {
        EmoticonView {
            id: self.id@,
            number: self.number@,
            ext: self.ext@,
            version: self.version@,
        }
    }
}

/// The three flavours of donation.
#[derive(Debug, Clone, Copy, PartialEq, Eq, Structural)]
pub enum DonationType {
    Balloon,
    ADBalloon,
    VODBalloon,
}

#[derive(Debug, Clone, Copy, PartialEq, Eq, Structural)]
pub enum MissionType {
    Battle,
    Challenge,
}

/// What a gift is.
#[derive(Debug, Clone, Copy, PartialEq, Eq, Structural)]
pub enum GiftType {
    Subscription,
    QuickView,
    OGQ,
}

/// Which of the four mission shapes a mission document has.
#[derive(Debug, Clone, Copy, PartialEq, Eq, Structural)]
pub enum MissionParser {
    Mission,
    MissionTotal,
    BattleNotice,
    ChallengeNotice,
}

} // verus!
