//! Chat messages that are an emoticon.

use crate::chat::events::{option_view, ChatEvent, ChatEventView, EventMeta};
use crate::chat::parser::chat::comment_of;
use crate::chat::parser::raw::{RawMessage, RawMessageView};
use crate::chat::parser::user::{parse_user_status, user_status_of};
use crate::chat::parser::util::{
    field, field_number, field_text, field_u32, field_user_id, normalized_id,
};
use crate::chat::types::{ChatType, Emoticon, EmoticonView, User, UserSubscribe, UserView};
use crate::text::strip_carriage_returns;
use vstd::prelude::*;

verus! {

/// The chat that an EMOTICON body makes: the comment in field 1; the
/// emoticon's id, number and version in fields 2, 3 and 4 and its extension
/// in field 11; the user id in field 5, the name in field 6 and the flags
/// in field 7; the current and accumulated subscription months in fields 12
/// and 15. A body of fewer than sixteen fields, or one whose flags field
/// holds no two masks, makes none.
pub open spec fn emoticon_event(m: RawMessageView) -> Option<ChatEventView> {
    if m.body.len() >= 16 {
        match user_status_of(m.body[7]) {
            Some(status) => Some(
                ChatEventView {
                    meta: EventMeta { received_time: m.received_time },
                    comment: comment_of(m.body[1]),
                    chat_type: ChatType::Emoticon,
                    user: UserView {
                        id: normalized_id(m.body[5]),
                        label: m.body[6],
                        status,
                        subscribe: Some(
                            UserSubscribe {
                                acc: field_u32(m.body[15], 0),
                                current: field_u32(m.body[12], 0),
                            },
                        ),
                    },
                    is_admin: false,
                    emoticon: Some(
                        EmoticonView {
                            id: m.body[2],
                            number: m.body[3],
                            ext: m.body[11],
                            version: m.body[4],
                        },
                    ),
                },
            ),
            None => None,
        }
    } else {
        None
    }
}

/// An emoticon chat message.
pub fn parse_emoticon_event(raw: RawMessage) -> (r: Option<ChatEvent>)
    ensures
        option_view(r) == emoticon_event(raw@),
{
    let body = &raw.body;
    if body.len() < 16 {
        return None;
    }
    let status = match parse_user_status(field(body, 7)) {
        Some(status) => status,
        None => {
            return None;
        },
    };
    let sub = parse_subscribe(body);
    Some(
        ChatEvent {
            meta: EventMeta { received_time: raw.received_time },
            chat_type: ChatType::Emoticon,
            comment: strip_carriage_returns(field(body, 1)),
            user: User {
                id: field_user_id(body, 5),
                label: field_text(body, 6),
                status,
                subscribe: Some(sub),
            },
            emoticon: Some(
                Emoticon {
                    id: field_text(body, 2),
                    number: field_text(body, 3),
                    ext: field_text(body, 11),
                    version: field_text(body, 4),
                },
            ),
            is_admin: false,
        },
    )
}

/// The subscription months of an EMOTICON body.
pub fn parse_subscribe(body: &Vec<String>) -> (sub: UserSubscribe)
    requires
        body@.len() >= 16,
    ensures
        sub.acc == field_u32(crate::chat::events::texts_view(body@)[15], 0),
        sub.current == field_u32(crate::chat::events::texts_view(body@)[12], 0),
{
    UserSubscribe { acc: field_number(body, 15), current: field_number(body, 12) }
}

} // verus!
