//! Chat messages of viewers and of managers.

use crate::chat::constants::chat_message_fields;
use crate::chat::events::{option_view, ChatEvent, ChatEventView, EventMeta};
use crate::chat::parser::raw::{RawMessage, RawMessageView};
use crate::chat::parser::user::{parse_user_status, user_status_of};
use crate::chat::parser::util::{
    field, field_is_one, field_number, field_text, field_u32, field_user_id, normalized_id,
};
use crate::chat::types::{ChatType, User, UserSubscribe, UserView};
use crate::text::{strip_carriage_returns, without_carriage_returns};
use vstd::prelude::*;

verus! {

/// The comment of a chat: the field without its carriage returns.
pub open spec fn comment_of(field: Seq<char>) -> Seq<char> {
    without_carriage_returns(field)
}

/// The subscription months that a CHAT body of eleven fields or more holds.
pub open spec fn chat_subscribe(body: Seq<Seq<char>>) -> UserSubscribe {
    UserSubscribe {
        acc: field_u32(body[chat_message_fields::ACC_SUBSCRIBE as int], 0),
        current: field_u32(body[chat_message_fields::SUBSCRIBE as int], 0),
    }
}

/// The chat that a CHAT body makes: the comment in field 0, the user id in
/// field 1, the name in field 5, the flags in field 6, and the current and
/// accumulated subscription months in fields 7 and 10. A body of fewer than
/// eleven fields, or one whose flags field holds no two masks, makes none.
pub open spec fn chat_event(m: RawMessageView) -> Option<ChatEventView> {
    if m.body.len() > chat_message_fields::ACC_SUBSCRIBE {
        match user_status_of(m.body[chat_message_fields::FLAGS as int]) {
            Some(status) => Some(
                ChatEventView {
                    meta: EventMeta { received_time: m.received_time },
                    comment: comment_of(m.body[chat_message_fields::CONTENT as int]),
                    chat_type: ChatType::Common,
                    user: UserView {
                        id: normalized_id(m.body[chat_message_fields::USER_ID as int]),
                        label: m.body[chat_message_fields::USER_NICK as int],
                        status,
                        subscribe: Some(chat_subscribe(m.body)),
                    },
                    is_admin: false,
                    emoticon: None,
                },
            ),
            None => None,
        }
    } else {
        None
    }
}

/// The chat that a MANAGER_CHAT body makes: the comment in field 0, the
/// user id in field 1, `"1"` in field 2 for an administrator, the name in
/// field 4 and the flags in field 5. A body of fewer than six fields, or one
/// whose flags field holds no two masks, makes none.
pub open spec fn manager_chat_event(m: RawMessageView) -> Option<ChatEventView> {
    if m.body.len() >= 6 {
        match user_status_of(m.body[5]) {
            Some(status) => Some(
                ChatEventView {
                    meta: EventMeta { received_time: m.received_time },
                    comment: comment_of(m.body[0]),
                    chat_type: ChatType::Manager,
                    user: UserView {
                        id: normalized_id(m.body[1]),
                        label: m.body[4],
                        status,
                        subscribe: None,
                    },
                    is_admin: m.body[2] == "1"@,
                    emoticon: None,
                },
            ),
            None => None,
        }
    } else {
        None
    }
}

/// A viewer's chat message.
pub fn parse_chat_event(raw: RawMessage) -> (r: Option<ChatEvent>)
    ensures
        option_view(r) == chat_event(raw@),
{
    let body = &raw.body;
    if body.len() <= chat_message_fields::ACC_SUBSCRIBE {
        return None;
    }
    let status = match parse_user_status(field(body, chat_message_fields::FLAGS)) {
        Some(status) => status,
        None => {
            return None;
        },
    };
    let sub = parse_subscribe(body);
    Some(
        ChatEvent {
            meta: EventMeta { received_time: raw.received_time },
            chat_type: ChatType::Common,
            comment: strip_carriage_returns(field(body, chat_message_fields::CONTENT)),
            user: User {
                id: field_user_id(body, chat_message_fields::USER_ID),
                label: field_text(body, chat_message_fields::USER_NICK),
                status,
                subscribe: Some(sub),
            },
            is_admin: false,
            emoticon: None,
        },
    )
}

/// A manager's chat message.
pub fn parse_manager_chat_event(raw: RawMessage) -> (r: Option<ChatEvent>)
    ensures
        option_view(r) == manager_chat_event(raw@),
{
    let body = &raw.body;
    if body.len() < 6 {
        return None;
    }
    let status = match parse_user_status(field(body, 5)) {
        Some(status) => status,
        None => {
            return None;
        },
    };
    Some(
        ChatEvent {
            meta: EventMeta { received_time: raw.received_time },
            chat_type: ChatType::Manager,
            comment: strip_carriage_returns(field(body, 0)),
            user: User {
                id: field_user_id(body, 1),
                label: field_text(body, 4),
                status,
                subscribe: None,
            },
            emoticon: None,
            is_admin: field_is_one(body, 2),
        },
    )
}

/// The subscription months of a CHAT body.
pub fn parse_subscribe(body: &Vec<String>) -> (sub: UserSubscribe)
    requires
        body@.len() > chat_message_fields::ACC_SUBSCRIBE,
    ensures
        sub == chat_subscribe(crate::chat::events::texts_view(body@)),
{
    UserSubscribe {
        acc: field_number(body, chat_message_fields::ACC_SUBSCRIBE),
        current: field_number(body, chat_message_fields::SUBSCRIBE),
    }
}

} // verus!
