//! A user joining the room.

use crate::chat::events::{option_view, EventMeta, SimplifiedUserEvent, SimplifiedUserEventView};
use crate::chat::parser::raw::{RawMessage, RawMessageView};
use crate::chat::parser::util::{field_user_id, normalized_id};
use vstd::prelude::*;

verus! {

/// The join that a USER_JOIN body makes: the user id in field 0. Only a
/// body of exactly three fields makes one.
pub open spec fn join_event(m: RawMessageView) -> Option<SimplifiedUserEventView> {
    if m.body.len() == 3 {
        Some(
            SimplifiedUserEventView {
                meta: EventMeta { received_time: m.received_time },
                user_id: normalized_id(m.body[0]),
            },
        )
    } else {
        None
    }
}

/// A user joining.
pub fn parse_join_event(raw: RawMessage) -> (r: Option<SimplifiedUserEvent>)
    ensures
        option_view(r) == join_event(raw@),
{
    let body = &raw.body;
    if body.len() != 3 {
        return None;
    }
    Some(
        SimplifiedUserEvent {
            meta: EventMeta { received_time: raw.received_time },
            user_id: field_user_id(body, 0),
        },
    )
}

} // verus!
