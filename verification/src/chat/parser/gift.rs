//! Gifts from one user to another: subscriptions, quick views and
//! emoticon packs.

use crate::chat::events::{option_view, EventMeta, GiftEvent, GiftEventView};
use crate::chat::parser::raw::{RawMessage, RawMessageView};
use crate::chat::parser::util::{field_text, field_user_id, normalized_id};
use crate::chat::types::GiftType;
use vstd::prelude::*;

verus! {

/// The gift that a body makes: the giver's id and name in fields 1 and 2,
/// the receiver's in fields 3 and 4, both ids normalized, and the code of the
/// gift in field `code`. A body too short for any of the five makes none.
pub open spec fn gift_event(m: RawMessageView, gift_type: GiftType, code: int) -> Option<
    GiftEventView,
> {
    if m.body.len() >= 5 && code < m.body.len() {
        Some(
            GiftEventView {
                meta: EventMeta { received_time: m.received_time },
                gift_type,
                sender_id: normalized_id(m.body[1]),
                sender_label: m.body[2],
                receiver_id: normalized_id(m.body[3]),
                receiver_label: m.body[4],
                gift_code: m.body[code],
            },
        )
    } else {
        None
    }
}

fn parse_gift(raw: RawMessage, gift_type: GiftType, code: usize) -> (r: Option<GiftEvent>)
    ensures
        option_view(r) == gift_event(raw@, gift_type, code as int),
{
    let body = &raw.body;
    if body.len() >= 5 && code < body.len() {
        Some(
            GiftEvent {
                meta: EventMeta { received_time: raw.received_time },
                gift_type,
                sender_id: field_user_id(body, 1),
                sender_label: field_text(body, 2),
                receiver_id: field_user_id(body, 3),
                receiver_label: field_text(body, 4),
                gift_code: field_text(body, code),
            },
        )
    } else {
        None
    }
}

/// A subscription given to another user.
pub fn parse_subscribe_gift_event(raw: RawMessage) -> (r: Option<GiftEvent>)
    ensures
        option_view(r) == gift_event(raw@, GiftType::Subscription, 7),
{
    parse_gift(raw, GiftType::Subscription, 7)
}

/// A quick view given to another user.
pub fn parse_quickview_gift_event(raw: RawMessage) -> (r: Option<GiftEvent>)
    ensures
        option_view(r) == gift_event(raw@, GiftType::QuickView, 5),
{
    parse_gift(raw, GiftType::QuickView, 5)
}

/// An emoticon pack given to another user.
pub fn parse_ogq_gift_event(raw: RawMessage) -> (r: Option<GiftEvent>)
    ensures
        option_view(r) == gift_event(raw@, GiftType::OGQ, 5),
{
    parse_gift(raw, GiftType::OGQ, 5)
}

} // verus!
