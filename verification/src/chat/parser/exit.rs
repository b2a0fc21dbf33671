//! A user leaving the room, on their own or removed.

use crate::chat::events::{EventMeta, UserEvent, UserEventView};
use crate::chat::parser::raw::{RawMessage, RawMessageView};
use crate::chat::parser::user::{parse_user_status, user_status_of};
use crate::chat::parser::util::{field, field_is_one, field_text, field_user_id, normalized_id};
use crate::chat::types::{User, UserView};
use vstd::prelude::*;

verus! {

/// What an EXIT body makes: whether the user was removed, and the user.
/// Field 0 is a gate, `"1"` for a frame that names nobody; the user id is in
/// field 1, the name in field 2 and the flags in field 5; field 3 is `"1"`
/// where the user left on their own and anything else where they were
/// removed. A gated body, one of fewer than six fields, or one whose flags
/// field holds no two masks, makes nothing.
pub open spec fn exit_event(m: RawMessageView) -> Option<(bool, UserEventView)> {
    if m.body.len() >= 6 && m.body[0] != "1"@ {
        match user_status_of(m.body[5]) {
            Some(status) => Some(
                (
                    m.body[3] != "1"@,
                    UserEventView {
                        meta: EventMeta { received_time: m.received_time },
                        user: UserView {
                            id: normalized_id(m.body[1]),
                            label: m.body[2],
                            status,
                            subscribe: None,
                        },
                    },
                ),
            ),
            None => None,
        }
    } else {
        None
    }
}

/// A user leaving. The flag is true where the user was removed.
pub fn parse_exit_event(raw: RawMessage) -> (r: Option<(bool, UserEvent)>)
    ensures
        match r {
            Some((is_kick, event)) => exit_event(raw@) == Some((is_kick, event@)),
            None => exit_event(raw@) is None,
        },
{
    let body = &raw.body;
    if body.len() < 6 || field_is_one(body, 0) {
        return None;
    }
    let status = match parse_user_status(field(body, 5)) {
        Some(status) => status,
        None => {
            return None;
        },
    };
    let is_kick = !field_is_one(body, 3);
    Some(
        (
            is_kick,
            UserEvent {
                meta: EventMeta { received_time: raw.received_time },
                user: User {
                    id: field_user_id(body, 1),
                    label: field_text(body, 2),
                    status,
                    subscribe: None,
                },
            },
        ),
    )
}

} // verus!
