//! Subscriptions, new and renewed.

use crate::chat::events::{option_view, EventMeta, SubscribeEvent, SubscribeEventView};
use crate::chat::parser::raw::{RawMessage, RawMessageView};
use crate::chat::parser::util::{
    field, field_number, field_text, field_u32, field_user_id, normalized_id, parse_u32_or,
};
use vstd::prelude::*;

verus! {

/// The subscription that a SUBSCRIBE body makes: the user id in field 2,
/// the name in field 3 and the tier in field 7; nothing renewed. A body of
/// fewer than eight fields makes none.
pub open spec fn subscribe_event(m: RawMessageView) -> Option<SubscribeEventView> {
    if m.body.len() >= 8 {
        Some(
            SubscribeEventView {
                meta: EventMeta { received_time: m.received_time },
                user_id: normalized_id(m.body[2]),
                label: m.body[3],
                tier: field_u32(m.body[7], 0),
                renew: 0,
            },
        )
    } else {
        None
    }
}

/// The subscription that a SUBSCRIBE_RENEW body makes: the user id in
/// field 1, the name in field 2, the tier in field 7, and the months
/// renewed in field 3, 1 where it is no number. A body of fewer than eight
/// fields makes none.
pub open spec fn subscribe_renew_event(m: RawMessageView) -> Option<SubscribeEventView> {
    if m.body.len() >= 8 {
        Some(
            SubscribeEventView {
                meta: EventMeta { received_time: m.received_time },
                user_id: normalized_id(m.body[1]),
                label: m.body[2],
                tier: field_u32(m.body[7], 0),
                renew: field_u32(m.body[3], 1),
            },
        )
    } else {
        None
    }
}

/// A first subscription.
pub fn parse_subscribe_event(raw: RawMessage) -> (r: Option<SubscribeEvent>)
    ensures
        option_view(r) == subscribe_event(raw@),
{
    let body = &raw.body;
    if body.len() < 8 {
        return None;
    }
    Some(
        SubscribeEvent {
            meta: EventMeta { received_time: raw.received_time },
            user_id: field_user_id(body, 2),
            label: field_text(body, 3),
            tier: field_number(body, 7),
            renew: 0,
        },
    )
}

/// A renewed subscription.
pub fn parse_subscribe_renew_event(raw: RawMessage) -> (r: Option<SubscribeEvent>)
    ensures
        option_view(r) == subscribe_renew_event(raw@),
{
    let body = &raw.body;
    if body.len() < 8 {
        return None;
    }
    Some(
        SubscribeEvent {
            meta: EventMeta { received_time: raw.received_time },
            user_id: field_user_id(body, 1),
            label: field_text(body, 2),
            tier: field_number(body, 7),
            renew: parse_u32_or(field(body, 3), 1),
        },
    )
}

} // verus!
