//! The dispatcher: what the session does with a frame that arrived.
//!
//! Every frame is first handed on as it is, in a `Raw` event. A frame that
//! decodes is then looked up by its opcode: the parser of the opcode makes
//! at most one typed event of it, and the CONNECT frame is answered with the
//! JOIN frame. A frame that no parser takes is reported as `Unknown`; one
//! that its parser cannot read yields nothing more.

use crate::chat::commands::MessageType;
use crate::chat::constants::message_codes;
use crate::chat::constants::{BODY_LIMIT, HEADER_LEN};
use crate::chat::events::{
    option_view, texts_view, Event, EventMeta, EventView, Timestamp, UserEventView,
};
use crate::chat::formatter::{frame_of, ChatFormatter};
use crate::chat::parser::balloon::{
    parse_ad_balloon_event, parse_balloon_event, parse_balloon_sub_event,
    parse_station_ad_balloon_event, parse_video_balloon_event, parse_vod_ad_balloon_event,
    parse_vod_balloon_event, plain_donation, ranked_donation,
};
use crate::chat::parser::chat::{
    chat_event, manager_chat_event, parse_chat_event, parse_manager_chat_event,
};
use crate::chat::parser::emoticon::{emoticon_event, parse_emoticon_event};
use crate::chat::parser::exit::{exit_event, parse_exit_event};
use crate::chat::parser::freeze::{freeze_event, parse_freeze_event};
use crate::chat::parser::join::{join_event, parse_join_event};
use crate::chat::parser::kick::{kick_cancel_event, parse_kick_cancel_event};
use crate::chat::parser::mission::{
    mission_event_of, outcome_view, parse_mission_event, MissionOutcome,
};
use crate::chat::parser::mute::{mute_event, parse_mute_event};
use crate::chat::parser::notification::{notification_event, parse_notification_event};
use crate::chat::parser::raw::{decoded, now_utc, parse_message_at, RawMessage, RawMessageView};
use crate::chat::parser::slow::{parse_slow_event, slow_event};
use crate::chat::parser::user::user_status_of;
use crate::chat::parser::util::normalized_id;
use crate::chat::parser::subscribe::{
    parse_subscribe_event, parse_subscribe_renew_event, subscribe_event, subscribe_renew_event,
};
use crate::chat::types::{DonationType, UserView};
use vstd::prelude::*;
use vstd::utf8::*;

verus! {

/// What one decoded message leads to.
#[derive(Debug, PartialEq, Eq)]
pub struct Reaction {
    /// The typed event of the message, if it makes one.
    pub event: Option<Event>,
    /// The frame to send in answer, if the message asks for one.
    pub reply: Option<Vec<u8>>,
}

/// What one frame leads to.
#[derive(Debug, PartialEq, Eq)]
pub struct Dispatch {
    /// When the frame was received.
    pub received_time: Timestamp,
    /// The events to publish, in this order: the `Raw` event of the frame,
    /// then its typed event, if it makes one.
    pub events: Vec<Event>,
    /// The frame to send in answer, if the frame asks for one.
    pub reply: Option<Vec<u8>>,
}

/// The models of a list of events.
pub open spec fn events_view(events: Seq<Event>) -> Seq<EventView> {
    Seq::new(events.len(), |i: int| events[i]@)
}

/// The opcode is one of the seven that carry a donation.
pub open spec fn is_donation_code(code: u32) -> bool {
    code == message_codes::DONATION || code == message_codes::ADBALLOON_DONATION || code
        == message_codes::SUB_DONATION || code == message_codes::VOD_AD_DONATION || code
        == message_codes::VOD_DONATION || code == message_codes::AD_STATION_DONATION || code
        == message_codes::VIDEO_DONATION
}

/// The donation event of a message with one of the donation opcodes.
pub open spec fn donation_event_of(m: RawMessageView) -> Option<EventView> {
    let donation = if m.code == message_codes::DONATION {
        ranked_donation(m, DonationType::Balloon, 1, 2, 3, 4, 8)
    } else if m.code == message_codes::SUB_DONATION {
        ranked_donation(m, DonationType::Balloon, 3, 4, 5, 6, 9)
    } else if m.code == message_codes::VOD_DONATION {
        plain_donation(m, DonationType::Balloon)
    } else if m.code == message_codes::VOD_AD_DONATION {
        plain_donation(m, DonationType::ADBalloon)
    } else if m.code == message_codes::ADBALLOON_DONATION {
        ranked_donation(m, DonationType::ADBalloon, 2, 3, 9, 10, 12)
    } else if m.code == message_codes::AD_STATION_DONATION {
        plain_donation(m, DonationType::ADBalloon)
    } else if m.code == message_codes::VIDEO_DONATION {
        ranked_donation(m, DonationType::VODBalloon, 2, 3, 4, 5, 7)
    } else {
        None
    };
    match donation {
        Some(e) => Some(EventView::Donation(e)),
        None => None,
    }
}

/// The event of an EXIT message: `Kick` where the user was removed, `Exit`
/// where they left on their own.
pub open spec fn exit_event_of(m: RawMessageView) -> Option<EventView> {
    match exit_event(m) {
        Some((is_kick, e)) => if is_kick {
            Some(EventView::Kick(e))
        } else {
            Some(EventView::Exit(e))
        },
        None => None,
    }
}

/// The typed event of a message. PING and CONNECT make no event; an
/// opcode without a parser makes `Unknown`; a message that the parser of
/// its opcode cannot read makes none.
pub open spec fn typed_event(m: RawMessageView) -> Option<EventView> {
    if m.code == message_codes::PING || m.code == message_codes::CONNECT {
        None
    } else if m.code == message_codes::CHAT {
        match chat_event(m) {
            Some(e) => Some(EventView::Chat(e)),
            None => None,
        }
    } else if m.code == message_codes::EXIT {
        exit_event_of(m)
    } else if m.code == message_codes::USER_JOIN {
        match join_event(m) {
            Some(e) => Some(EventView::Join(e)),
            None => None,
        }
    } else if m.code == message_codes::FREEZE {
        match freeze_event(m) {
            Some(e) => Some(EventView::Freeze(e)),
            None => None,
        }
    } else if m.code == message_codes::MUTE {
        match mute_event(m) {
            Some(e) => Some(EventView::Mute(e)),
            None => None,
        }
    } else if m.code == message_codes::MANAGER_CHAT {
        match manager_chat_event(m) {
            Some(e) => Some(EventView::Chat(e)),
            None => None,
        }
    } else if m.code == message_codes::EMOTICON {
        match emoticon_event(m) {
            Some(e) => Some(EventView::Chat(e)),
            None => None,
        }
    } else if m.code == message_codes::NOTIFICATION {
        match notification_event(m) {
            Some(e) => Some(EventView::Notification(e)),
            None => None,
        }
    } else if m.code == message_codes::BJ_STATE_CHANGE {
        Some(EventView::BJStateChange)
    } else if m.code == message_codes::SLOW {
        match slow_event(m) {
            Some(e) => Some(EventView::Slow(e)),
            None => None,
        }
    } else if m.code == message_codes::KICK_CANCEL {
        match kick_cancel_event(m) {
            Some(e) => Some(EventView::KickCancel(e)),
            None => None,
        }
    } else if m.code == message_codes::SUBSCRIBE {
        match subscribe_event(m) {
            Some(e) => Some(EventView::Subscribe(e)),
            None => None,
        }
    } else if m.code == message_codes::SUBSCRIBE_RENEW {
        match subscribe_renew_event(m) {
            Some(e) => Some(EventView::Subscribe(e)),
            None => None,
        }
    } else if m.code == message_codes::MISSION_DONATION {
        mission_event_of(m.received_time, m.body)
    } else if is_donation_code(m.code) {
        donation_event_of(m)
    } else {
        Some(EventView::Unknown(m.code))
    }
}

/// The event that a mission outcome is published as.
pub fn mission_event(outcome: MissionOutcome) -> (event: Event)
    ensures
        event@ == outcome_view(outcome),
        !(event is Raw),
{
    match outcome {
        MissionOutcome::Mission(e) => Event::MissionDonation(e),
        MissionOutcome::MissionTotal(e) => Event::MissionTotal(e),
        MissionOutcome::BattleNotice(e) => Event::BattleMissionResult(e),
        MissionOutcome::ChallengeNotice(e) => Event::ChallengeMissionResult(e),
    }
}

/// Decides what a frame leads to.
#[derive(Debug, PartialEq, Eq)]
pub struct MessageHandler {
    pub formatter: ChatFormatter,
}

impl MessageHandler {
    /// A handler that answers with the frames of a copy of `formatter`.
    pub fn new(formatter: &ChatFormatter) -> (handler: MessageHandler)
        ensures
            handler.formatter@ == formatter@,
    {
        let categories = formatter.live_detail.categories.clone();
        proof {
            assert(texts_view(categories@) =~= texts_view(formatter.live_detail.categories@));
        }
        MessageHandler {
            formatter: ChatFormatter {
                live_detail: crate::models::LiveDetail {
                    is_live: formatter.live_detail.is_live,
                    ch_domain: formatter.live_detail.ch_domain.clone(),
                    ch_pt: formatter.live_detail.ch_pt,
                    ch_no: formatter.live_detail.ch_no.clone(),
                    streamer_nick: formatter.live_detail.streamer_nick.clone(),
                    title: formatter.live_detail.title.clone(),
                    categories,
                },
                password: formatter.password.clone(),
            },
        }
    }

    /// The JOIN frame of this handler's room and password, where one can be
    /// written.
    pub open spec fn join_frame(&self) -> Option<Seq<u8>> {
        let body = encode_utf8(self.formatter@.payload(MessageType::JOIN));
        if body.len() < BODY_LIMIT {
            Some(frame_of(message_codes::JOIN, body))
        } else {
            None
        }
    }

    /// The CONNECT frame, which opens the handshake.
    pub open spec fn connect_frame(&self) -> Option<Seq<u8>> {
        let body = encode_utf8(self.formatter@.payload(MessageType::Connect));
        if body.len() < BODY_LIMIT {
            Some(frame_of(message_codes::CONNECT, body))
        } else {
            None
        }
    }

    /// The frame that answers a message: the JOIN frame for CONNECT, none
    /// for every other opcode.
    pub open spec fn reply_to(&self, code: u32) -> Option<Seq<u8>> {
        if code == message_codes::CONNECT {
            self.join_frame()
        } else {
            None
        }
    }

    /// What a frame that arrived at `received_time` leads to. The `Raw`
    /// event of the frame comes first. A frame shorter than its header leads
    /// to nothing more. Of any other frame the typed event of the decoded
    /// message follows, if it makes one, and the reply is the one that its
    /// opcode asks for.
    pub open spec fn dispatch_of(&self, frame: Seq<u8>, received_time: Timestamp) -> (
        Seq<EventView>,
        Option<Seq<u8>>,
    ) {
        if frame.len() < HEADER_LEN {
            (seq![EventView::Raw(frame)], None)
        } else {
            let m = decoded(frame, received_time);
            (seq![EventView::Raw(frame)] + option_seq(typed_event(m)), self.reply_to(m.code))
        }
    }

    /// Handles a frame that arrives now: the time of the dispatch is that of
    /// the clock.
    ///
    /// The first event is the `Raw` event of the frame; at most one event
    /// follows it, and that one is no `Raw` event.
    pub fn handle(&self, raw: Vec<u8>) -> (dispatch: Dispatch)
        ensures
            (events_view(dispatch.events@), option_view(dispatch.reply)) == self.dispatch_of(
                raw@,
                dispatch.received_time,
            ),
            1 <= dispatch.events@.len() <= 2,
            dispatch.events@[0]@ == EventView::Raw(raw@),
            dispatch.events@.len() == 2 ==> !(dispatch.events@[1] is Raw),
    {
        let now = now_utc();
        self.handle_at(raw, now)
    }

    /// Handles a frame that arrived at `received_time`.
    ///
    /// The first event is the `Raw` event of the frame; at most one event
    /// follows it, and that one is no `Raw` event.
    pub fn handle_at(&self, raw: Vec<u8>, received_time: Timestamp) -> (dispatch: Dispatch)
        ensures
            dispatch.received_time == received_time,
            (events_view(dispatch.events@), option_view(dispatch.reply)) == self.dispatch_of(
                raw@,
                received_time,
            ),
            1 <= dispatch.events@.len() <= 2,
            dispatch.events@[0]@ == EventView::Raw(raw@),
            dispatch.events@.len() == 2 ==> !(dispatch.events@[1] is Raw),
    {
        let parsed = parse_message_at(raw.as_slice(), received_time);
        let mut events: Vec<Event> = Vec::new();
        events.push(Event::Raw(raw));
        match parsed {
            Ok(message) => {
                let ghost m = message@;
                let reaction = self.handle_message(message);
                match reaction.event {
                    Some(event) => {
                        events.push(event);
                        proof {
                            assert(events_view(events@) =~= seq![EventView::Raw(raw@)]
                                + seq![event@]);
                        }
                    },
                    None => {
                        proof {
                            assert(events_view(events@) =~= seq![EventView::Raw(raw@)]
                                + Seq::<EventView>::empty());
                        }
                    },
                }
                Dispatch { received_time, events, reply: reaction.reply }
            },
            Err(_) => {
                proof {
                    assert(events_view(events@) =~= seq![EventView::Raw(raw@)]);
                }
                Dispatch { received_time, events, reply: None }
            },
        }
    }

    /// Decides what a decoded message leads to: the typed event that its
    /// opcode's parser makes of it, and the reply that its opcode asks for.
    pub fn handle_message(&self, message: RawMessage) -> (reaction: Reaction)
        ensures
            option_view(reaction.reply) == self.reply_to(message.code),
            option_view(reaction.event) == typed_event(message@),
            reaction.event matches Some(e) ==> !(e is Raw),
    {
        let code: u32 = message.code;
        if code == message_codes::CONNECT {
            return Reaction { event: None, reply: self.handle_connect() };
        }
        let event: Option<Event> = if code == message_codes::PING {
            None
        } else if code == message_codes::CHAT {
            match parse_chat_event(message) {
                Some(e) => Some(Event::Chat(e)),
                None => None,
            }
        } else if code == message_codes::EXIT {
            Self::handle_exit(message)
        } else if code == message_codes::USER_JOIN {
            match parse_join_event(message) {
                Some(e) => Some(Event::Join(e)),
                None => None,
            }
        } else if code == message_codes::FREEZE {
            match parse_freeze_event(message) {
                Some(e) => Some(Event::Freeze(e)),
                None => None,
            }
        } else if code == message_codes::MUTE {
            match parse_mute_event(message) {
                Some(e) => Some(Event::Mute(e)),
                None => None,
            }
        } else if code == message_codes::MANAGER_CHAT {
            match parse_manager_chat_event(message) {
                Some(e) => Some(Event::Chat(e)),
                None => None,
            }
        } else if code == message_codes::EMOTICON {
            match parse_emoticon_event(message) {
                Some(e) => Some(Event::Chat(e)),
                None => None,
            }
        } else if code == message_codes::NOTIFICATION {
            match parse_notification_event(message) {
                Some(e) => Some(Event::Notification(e)),
                None => None,
            }
        } else if code == message_codes::BJ_STATE_CHANGE {
            Some(Event::BJStateChange)
        } else if code == message_codes::SLOW {
            match parse_slow_event(message) {
                Some(e) => Some(Event::Slow(e)),
                None => None,
            }
        } else if code == message_codes::KICK_CANCEL {
            match parse_kick_cancel_event(message) {
                Some(e) => Some(Event::KickCancel(e)),
                None => None,
            }
        } else if code == message_codes::SUBSCRIBE {
            match parse_subscribe_event(message) {
                Some(e) => Some(Event::Subscribe(e)),
                None => None,
            }
        } else if code == message_codes::SUBSCRIBE_RENEW {
            match parse_subscribe_renew_event(message) {
                Some(e) => Some(Event::Subscribe(e)),
                None => None,
            }
        } else if code == message_codes::MISSION_DONATION {
            Self::handle_mission(message)
        } else if code == message_codes::DONATION || code == message_codes::ADBALLOON_DONATION
            || code == message_codes::SUB_DONATION || code == message_codes::VOD_AD_DONATION || code
            == message_codes::VOD_DONATION || code == message_codes::AD_STATION_DONATION || code
            == message_codes::VIDEO_DONATION {
            Self::handle_donation(message)
        } else {
            Some(Event::Unknown(code))
        };
        Reaction { event, reply: None }
    }

    /// The donation event of a message with one of the donation opcodes.
    fn handle_donation(message: RawMessage) -> (event: Option<Event>)
        ensures
            option_view(event) == donation_event_of(message@),
            event matches Some(e) ==> e is Donation,
    {
        let code: u32 = message.code;
        let donation = if code == message_codes::DONATION {
            parse_balloon_event(message)
        } else if code == message_codes::SUB_DONATION {
            parse_balloon_sub_event(message)
        } else if code == message_codes::VOD_DONATION {
            parse_vod_balloon_event(message)
        } else if code == message_codes::VOD_AD_DONATION {
            parse_vod_ad_balloon_event(message)
        } else if code == message_codes::ADBALLOON_DONATION {
            parse_ad_balloon_event(message)
        } else if code == message_codes::AD_STATION_DONATION {
            parse_station_ad_balloon_event(message)
        } else if code == message_codes::VIDEO_DONATION {
            parse_video_balloon_event(message)
        } else {
            None
        };
        match donation {
            Some(e) => Some(Event::Donation(e)),
            None => None,
        }
    }

    /// The event of a mission message, where its document can be read.
    fn handle_mission(message: RawMessage) -> (event: Option<Event>)
        ensures
            option_view(event) == mission_event_of(message.received_time, message@.body),
            event matches Some(e) ==> !(e is Raw),
    {
        match parse_mission_event(message) {
            Ok((_, outcome)) => Some(mission_event(outcome)),
            Err(_) => None,
        }
    }

    /// The event of an EXIT message.
    fn handle_exit(message: RawMessage) -> (event: Option<Event>)
        ensures
            option_view(event) == exit_event_of(message@),
            event matches Some(e) ==> e is Kick || e is Exit,
    {
        match parse_exit_event(message) {
            Some((is_kick, e)) => {
                if is_kick {
                    Some(Event::Kick(e))
                } else {
                    Some(Event::Exit(e))
                }
            },
            None => None,
        }
    }

    /// The answer to CONNECT: the JOIN frame.
    fn handle_connect(&self) -> (reply: Option<Vec<u8>>)
        ensures
            option_view(reply) == self.join_frame(),
    {
        match self.formatter.format_message(MessageType::JOIN) {
            Ok(frame) => Some(frame),
            Err(_) => None,
        }
    }
}

/// Of every frame exactly one `Raw` event is made, and it comes before the
/// typed event of the frame, of which there is at most one.
pub proof fn lemma_raw_event_first(handler: MessageHandler, frame: Seq<u8>, received_time: Timestamp)
    ensures
        1 <= handler.dispatch_of(frame, received_time).0.len() <= 2,
        handler.dispatch_of(frame, received_time).0[0] == EventView::Raw(frame),
        forall|i: int|
            1 <= i < handler.dispatch_of(frame, received_time).0.len() ==> !(
            #[trigger] handler.dispatch_of(frame, received_time).0[i] is Raw),
{
    if frame.len() >= HEADER_LEN {
        let m = decoded(frame, received_time);
        lemma_typed_event_is_not_raw(m);
    }
}

/// An EXIT message that names a user makes exactly one event of that user,
/// with the id normalized, and asks for no reply: `Exit` where field 3 is
/// `"1"`, the user having left on their own, and `Kick` where it is
/// anything else. The message names a user where it has six fields or more,
/// field 0 is not `"1"`, and field 5 holds two masks.
pub proof fn lemma_exit_or_kick(handler: MessageHandler, m: RawMessageView)
    requires
        m.code == message_codes::EXIT,
        m.body.len() >= 6,
        m.body[0] != "1"@,
        user_status_of(m.body[5]) is Some,
    ensures
        handler.reply_to(m.code) is None,
        m.body[3] == "1"@ ==> typed_event(m) == Some(EventView::Exit(leaving_user(m))),
        m.body[3] != "1"@ ==> typed_event(m) == Some(EventView::Kick(leaving_user(m))),
        leaving_user(m).user.id == normalized_id(m.body[1]),
{
}

/// The user that an EXIT message names, where it names one.
pub open spec fn leaving_user(m: RawMessageView) -> UserEventView {
    UserEventView {
        meta: EventMeta { received_time: m.received_time },
        user: UserView {
            id: normalized_id(m.body[1]),
            label: m.body[2],
            status: user_status_of(m.body[5])->0,
            subscribe: None,
        },
    }
}

/// No parser makes a `Raw` event.
pub proof fn lemma_typed_event_is_not_raw(m: RawMessageView)
    ensures
        typed_event(m) matches Some(e) ==> !(e is Raw),
{
}

/// The one item of a value that is there, and nothing of one that is not.
pub open spec fn option_seq<T>(o: Option<T>) -> Seq<T> {
    match o {
        Some(x) => seq![x],
        None => Seq::<T>::empty(),
    }
}

} // verus!
