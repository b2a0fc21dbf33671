//! The typed events that a session hands to its subscribers.

use crate::chat::constants::message_codes::MessageCode;
use crate::chat::types::{
    ChatType, DonationType, Emoticon, EmoticonView, GiftType, MissionType, User, UserView,
};
use vstd::prelude::*;

verus! {

/// A wall-clock instant: whole seconds since the Unix epoch, and the
/// nanoseconds into that second.
#[derive(Debug, Clone, Copy, PartialEq, Eq, Structural)]
pub struct Timestamp {
    pub seconds: i64,
    pub nanos: u32,
}

/// What every payload carries.
#[derive(Debug, Clone, Copy, PartialEq, Eq, Structural)]
pub struct EventMeta {
    /// When the library received the frame behind the event.
    pub received_time: Timestamp,
}

/// The texts of a list, one model per item.
pub open spec fn texts_view(v: Seq<String>) -> Seq<Seq<char>> {
    Seq::new(v.len(), |i: int| v[i]@)
}

/// The model of a value that may be absent.
pub open spec fn option_view<T: View>(o: Option<T>) -> Option<T::V> {
    match o {
        Some(x) => Some(x@),
        None => None,
    }
}

/// The transport is up.
#[derive(Debug, Clone, PartialEq, Eq)]
pub struct ConnectedEvent {
    pub meta: EventMeta,
}

/// The mathematical model of a [`ConnectedEvent`].
pub struct ConnectedEventView {
    pub meta: EventMeta,
}

impl View for ConnectedEvent {
    type V = ConnectedEventView;

    open spec fn view(&self) -> ConnectedEventView {
        ConnectedEventView {
            meta: self.meta,
        }
    }
}

/// A chat message.
#[derive(Debug, Clone, PartialEq, Eq)]
pub struct ChatEvent {
    pub meta: EventMeta,
    pub comment: String,
    pub chat_type: ChatType,
    pub user: User,
    /// Set on manager chats only.
    pub is_admin: bool,
    pub emoticon: Option<Emoticon>,
}

/// The mathematical model of a [`ChatEvent`].
pub struct ChatEventView {
    pub meta: EventMeta,
    pub comment: Seq<char>,
    pub chat_type: ChatType,
    pub user: UserView,
    pub is_admin: bool,
    pub emoticon: Option<EmoticonView>,
}

impl View for ChatEvent {
    type V = ChatEventView;

    open spec fn view(&self) -> ChatEventView {
        ChatEventView {
            meta: self.meta,
            comment: self.comment@,
            chat_type: self.chat_type,
            user: self.user@,
            is_admin: self.is_admin,
            emoticon: option_view(self.emoticon),
        }
    }
}

/// A donation of balloons, ad balloons or video balloons.
#[derive(Debug, Clone, PartialEq, Eq)]
pub struct DonationEvent {
    pub meta: EventMeta,
    pub from: String,
    pub from_label: String,
    pub amount: u32,
    pub fan_club_ordinal: u32,
    pub become_top_fan: bool,
    pub donation_type: DonationType,
}

/// The mathematical model of a [`DonationEvent`].
pub struct DonationEventView {
    pub meta: EventMeta,
    pub from: Seq<char>,
    pub from_label: Seq<char>,
    pub amount: u32,
    pub fan_club_ordinal: u32,
    pub become_top_fan: bool,
    pub donation_type: DonationType,
}

impl View for DonationEvent {
    type V = DonationEventView;

    open spec fn view(&self) -> DonationEventView {
        DonationEventView {
            meta: self.meta,
            from: self.from@,
            from_label: self.from_label@,
            amount: self.amount,
            fan_club_ordinal: self.fan_club_ordinal,
            become_top_fan: self.become_top_fan,
            donation_type: self.donation_type,
        }
    }
}

/// A gift towards a mission.
#[derive(Debug, Clone, PartialEq, Eq)]
pub struct MissionEvent {
    pub meta: EventMeta,
    pub from: String,
    pub from_label: String,
    pub amount: u32,
    pub mission_type: MissionType,
}

/// The mathematical model of a [`MissionEvent`].
pub struct MissionEventView {
    pub meta: EventMeta,
    pub from: Seq<char>,
    pub from_label: Seq<char>,
    pub amount: u32,
    pub mission_type: MissionType,
}

impl View for MissionEvent {
    type V = MissionEventView;

    open spec fn view(&self) -> MissionEventView {
        MissionEventView {
            meta: self.meta,
            from: self.from@,
            from_label: self.from_label@,
            amount: self.amount,
            mission_type: self.mission_type,
        }
    }
}

/// The settled total of a mission.
#[derive(Debug, Clone, PartialEq, Eq)]
pub struct MissionTotalEvent {
    pub meta: EventMeta,
    pub mission_type: MissionType,
    pub amount: u32,
}

/// The mathematical model of a [`MissionTotalEvent`].
pub struct MissionTotalEventView {
    pub meta: EventMeta,
    pub mission_type: MissionType,
    pub amount: u32,
}

impl View for MissionTotalEvent {
    type V = MissionTotalEventView;

    open spec fn view(&self) -> MissionTotalEventView {
        MissionTotalEventView {
            meta: self.meta,
            mission_type: self.mission_type,
            amount: self.amount,
        }
    }
}

/// How a challenge mission ended.
#[derive(Debug, Clone, PartialEq, Eq)]
pub struct ChallengeMissionResultEvent {
    pub meta: EventMeta,
    pub is_success: bool,
    pub title: String,
}

/// The mathematical model of a [`ChallengeMissionResultEvent`].
pub struct ChallengeMissionResultEventView {
    pub meta: EventMeta,
    pub is_success: bool,
    pub title: Seq<char>,
}

impl View for ChallengeMissionResultEvent {
    type V = ChallengeMissionResultEventView;

    open spec fn view(&self) -> ChallengeMissionResultEventView {
        ChallengeMissionResultEventView {
            meta: self.meta,
            is_success: self.is_success,
            title: self.title@,
        }
    }
}

/// How a battle mission ended.
#[derive(Debug, Clone, PartialEq, Eq)]
pub struct BattleMissionResultEvent {
    pub meta: EventMeta,
    pub is_draw: bool,
    pub winner: String,
    pub title: String,
}

/// The mathematical model of a [`BattleMissionResultEvent`].
pub struct BattleMissionResultEventView {
    pub meta: EventMeta,
    pub is_draw: bool,
    pub winner: Seq<char>,
    pub title: Seq<char>,
}

impl View for BattleMissionResultEvent {
    type V = BattleMissionResultEventView;

    open spec fn view(&self) -> BattleMissionResultEventView {
        BattleMissionResultEventView {
            meta: self.meta,
            is_draw: self.is_draw,
            winner: self.winner@,
            title: self.title@,
        }
    }
}

/// A new or renewed subscription.
#[derive(Debug, Clone, PartialEq, Eq)]
pub struct SubscribeEvent {
    pub meta: EventMeta,
    pub user_id: String,
    pub label: String,
    pub tier: u32,
    /// Months renewed; 0 on a first subscription.
    pub renew: u32,
}

/// The mathematical model of a [`SubscribeEvent`].
pub struct SubscribeEventView {
    pub meta: EventMeta,
    pub user_id: Seq<char>,
    pub label: Seq<char>,
    pub tier: u32,
    pub renew: u32,
}

impl View for SubscribeEvent {
    type V = SubscribeEventView;

    open spec fn view(&self) -> SubscribeEventView {
        SubscribeEventView {
            meta: self.meta,
            user_id: self.user_id@,
            label: self.label@,
            tier: self.tier,
            renew: self.renew,
        }
    }
}

/// A notice from the streamer or a manager.
#[derive(Debug, Clone, PartialEq, Eq)]
pub struct NotificationEvent {
    pub meta: EventMeta,
    pub message: String,
    pub show: bool,
}

/// The mathematical model of a [`NotificationEvent`].
pub struct NotificationEventView {
    pub meta: EventMeta,
    pub message: Seq<char>,
    pub show: bool,
}

impl View for NotificationEvent {
    type V = NotificationEventView;

    open spec fn view(&self) -> NotificationEventView {
        NotificationEventView {
            meta: self.meta,
            message: self.message@,
            show: self.show,
        }
    }
}

/// Something that happened to one user.
#[derive(Debug, Clone, PartialEq, Eq)]
pub struct UserEvent {
    pub meta: EventMeta,
    pub user: User,
}

/// The mathematical model of a [`UserEvent`].
pub struct UserEventView {
    pub meta: EventMeta,
    pub user: UserView,
}

impl View for UserEvent {
    type V = UserEventView;

    open spec fn view(&self) -> UserEventView {
        UserEventView {
            meta: self.meta,
            user: self.user@,
        }
    }
}

/// Something that happened to a user of whom only the id is known.
#[derive(Debug, Clone, PartialEq, Eq)]
pub struct SimplifiedUserEvent {
    pub meta: EventMeta,
    pub user_id: String,
}

/// The mathematical model of a [`SimplifiedUserEvent`].
pub struct SimplifiedUserEventView {
    pub meta: EventMeta,
    pub user_id: Seq<char>,
}

impl View for SimplifiedUserEvent {
    type V = SimplifiedUserEventView;

    open spec fn view(&self) -> SimplifiedUserEventView {
        SimplifiedUserEventView {
            meta: self.meta,
            user_id: self.user_id@,
        }
    }
}

/// The room was frozen or thawed.
#[derive(Debug, Clone, PartialEq, Eq)]
pub struct FreezeEvent {
    pub meta: EventMeta,
    pub freezed: bool,
    pub limit_subscription_month: u32,
    pub limit_balloons: u32,
    pub targets: Vec<String>,
}

/// The mathematical model of a [`FreezeEvent`].
pub struct FreezeEventView {
    pub meta: EventMeta,
    pub freezed: bool,
    pub limit_subscription_month: u32,
    pub limit_balloons: u32,
    pub targets: Seq<Seq<char>>,
}

impl View for FreezeEvent {
    type V = FreezeEventView;

    open spec fn view(&self) -> FreezeEventView {
        FreezeEventView {
            meta: self.meta,
            freezed: self.freezed,
            limit_subscription_month: self.limit_subscription_month,
            limit_balloons: self.limit_balloons,
            targets: texts_view(self.targets@),
        }
    }
}

/// A user was muted.
#[derive(Debug, Clone, PartialEq, Eq)]
pub struct MuteEvent {
    pub meta: EventMeta,
    pub user: User,
    pub seconds: u32,
    pub message: String,
    pub by: String,
    pub counts: u32,
    pub superuser_type: String,
}

/// The mathematical model of a [`MuteEvent`].
pub struct MuteEventView {
    pub meta: EventMeta,
    pub user: UserView,
    pub seconds: u32,
    pub message: Seq<char>,
    pub by: Seq<char>,
    pub counts: u32,
    pub superuser_type: Seq<char>,
}

impl View for MuteEvent {
    type V = MuteEventView;

    open spec fn view(&self) -> MuteEventView {
        MuteEventView {
            meta: self.meta,
            user: self.user@,
            seconds: self.seconds,
            message: self.message@,
            by: self.by@,
            counts: self.counts,
            superuser_type: self.superuser_type@,
        }
    }
}

/// Slow mode was set.
#[derive(Debug, Clone, PartialEq, Eq)]
pub struct SlowEvent {
    pub meta: EventMeta,
    pub duration: u32,
}

/// The mathematical model of a [`SlowEvent`].
pub struct SlowEventView {
    pub meta: EventMeta,
    pub duration: u32,
}

impl View for SlowEvent {
    type V = SlowEventView;

    open spec fn view(&self) -> SlowEventView {
        SlowEventView {
            meta: self.meta,
            duration: self.duration,
        }
    }
}

/// A gift from one user to another.
#[derive(Debug, Clone, PartialEq, Eq)]
pub struct GiftEvent {
    pub meta: EventMeta,
    pub gift_type: GiftType,
    pub sender_id: String,
    pub sender_label: String,
    pub receiver_id: String,
    pub receiver_label: String,
    pub gift_code: String,
}

/// The mathematical model of a [`GiftEvent`].
pub struct GiftEventView {
    pub meta: EventMeta,
    pub gift_type: GiftType,
    pub sender_id: Seq<char>,
    pub sender_label: Seq<char>,
    pub receiver_id: Seq<char>,
    pub receiver_label: Seq<char>,
    pub gift_code: Seq<char>,
}

impl View for GiftEvent {
    type V = GiftEventView;

    open spec fn view(&self) -> GiftEventView {
        GiftEventView {
            meta: self.meta,
            gift_type: self.gift_type,
            sender_id: self.sender_id@,
            sender_label: self.sender_label@,
            receiver_id: self.receiver_id@,
            receiver_label: self.receiver_label@,
            gift_code: self.gift_code@,
        }
    }
}

/// A sticker given to the streamer.
#[derive(Debug, Clone, PartialEq, Eq)]
pub struct StickerEvent {
    pub meta: EventMeta,
    pub from: String,
    pub from_label: String,
    pub amount: u32,
    pub supporter_ordinal: u32,
}

/// The mathematical model of a [`StickerEvent`].
pub struct StickerEventView {
    pub meta: EventMeta,
    pub from: Seq<char>,
    pub from_label: Seq<char>,
    pub amount: u32,
    pub supporter_ordinal: u32,
}

impl View for StickerEvent {
    type V = StickerEventView;

    open spec fn view(&self) -> StickerEventView {
        StickerEventView {
            meta: self.meta,
            from: self.from@,
            from_label: self.from_label@,
            amount: self.amount,
            supporter_ordinal: self.supporter_ordinal,
        }
    }
}

/// An event of the chat session.
#[derive(Debug, Clone, PartialEq, Eq)]
pub enum Event {
    /// The transport is up; sent once, before the handshake.
    Connected,
    /// The session has ended.
    Disconnected,
    /// The streamer's state changed.
    BJStateChange,
    Chat(ChatEvent),
    Donation(DonationEvent),
    Subscribe(SubscribeEvent),
    Enter(UserEvent),
    /// A user left on their own.
    Exit(UserEvent),
    /// A user was removed.
    Kick(UserEvent),
    KickCancel(SimplifiedUserEvent),
    Mute(MuteEvent),
    Black(SimplifiedUserEvent),
    Freeze(FreezeEvent),
    Notification(NotificationEvent),
    Join(SimplifiedUserEvent),
    MissionDonation(MissionEvent),
    MissionTotal(MissionTotalEvent),
    BattleMissionResult(BattleMissionResultEvent),
    ChallengeMissionResult(ChallengeMissionResultEvent),
    /// A frame whose opcode has no parser.
    Unknown(MessageCode),
    Slow(SlowEvent),
    /// The bytes of a frame as they arrived.
    Raw(Vec<u8>),
}

/// The mathematical model of an [`Event`].
pub enum EventView {
    Connected,
    Disconnected,
    BJStateChange,
    Chat(ChatEventView),
    Donation(DonationEventView),
    Subscribe(SubscribeEventView),
    Enter(UserEventView),
    Exit(UserEventView),
    Kick(UserEventView),
    KickCancel(SimplifiedUserEventView),
    Mute(MuteEventView),
    Black(SimplifiedUserEventView),
    Freeze(FreezeEventView),
    Notification(NotificationEventView),
    Join(SimplifiedUserEventView),
    MissionDonation(MissionEventView),
    MissionTotal(MissionTotalEventView),
    BattleMissionResult(BattleMissionResultEventView),
    ChallengeMissionResult(ChallengeMissionResultEventView),
    Unknown(MessageCode),
    Slow(SlowEventView),
    Raw(Seq<u8>),
}

impl View for Event {
    type V = EventView;

    open spec fn view(&self) -> EventView {
        match *self {
            Event::Connected => EventView::Connected,
            Event::Disconnected => EventView::Disconnected,
            Event::BJStateChange => EventView::BJStateChange,
            Event::Chat(e) => EventView::Chat(e@),
            Event::Donation(e) => EventView::Donation(e@),
            Event::Subscribe(e) => EventView::Subscribe(e@),
            Event::Enter(e) => EventView::Enter(e@),
            Event::Exit(e) => EventView::Exit(e@),
            Event::Kick(e) => EventView::Kick(e@),
            Event::KickCancel(e) => EventView::KickCancel(e@),
            Event::Mute(e) => EventView::Mute(e@),
            Event::Black(e) => EventView::Black(e@),
            Event::Freeze(e) => EventView::Freeze(e@),
            Event::Notification(e) => EventView::Notification(e@),
            Event::Join(e) => EventView::Join(e@),
            Event::MissionDonation(e) => EventView::MissionDonation(e@),
            Event::MissionTotal(e) => EventView::MissionTotal(e@),
            Event::BattleMissionResult(e) => EventView::BattleMissionResult(e@),
            Event::ChallengeMissionResult(e) => EventView::ChallengeMissionResult(e@),
            Event::Unknown(code) => EventView::Unknown(code),
            Event::Slow(e) => EventView::Slow(e@),
            Event::Raw(bytes) => EventView::Raw(bytes@),
        }
    }
}

} // verus!
