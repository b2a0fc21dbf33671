//! A removal being taken back.

use crate::chat::events::{option_view, EventMeta, SimplifiedUserEvent, SimplifiedUserEventView};
use crate::chat::parser::raw::{RawMessage, RawMessageView};
use crate::chat::parser::util::{field_is_one, field_user_id, normalized_id};
use vstd::prelude::*;

verus! {

/// The cancellation that a KICK_CANCEL body makes: field 0 is a gate that
/// must be `"1"`, the user id is in field 1. A body that is not gated so, or
/// of fewer than two fields, makes none.
pub open spec fn kick_cancel_event(m: RawMessageView) -> Option<SimplifiedUserEventView> {
    if m.body.len() >= 2 && m.body[0] == "1"@ {
        Some(
            SimplifiedUserEventView {
                meta: EventMeta { received_time: m.received_time },
                user_id: normalized_id(m.body[1]),
            },
        )
    } else {
        None
    }
}

/// A removal being taken back.
pub fn parse_kick_cancel_event(raw: RawMessage) -> (r: Option<SimplifiedUserEvent>)
    ensures
        option_view(r) == kick_cancel_event(raw@),
{
    let body = &raw.body;
    if body.len() < 2 || !field_is_one(body, 0) {
        return None;
    }
    Some(
        SimplifiedUserEvent {
            meta: EventMeta { received_time: raw.received_time },
            user_id: field_user_id(body, 1),
        },
    )
}

} // verus!
