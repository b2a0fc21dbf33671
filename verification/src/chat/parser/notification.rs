//! A notice to the room.

use crate::chat::events::{option_view, EventMeta, NotificationEvent, NotificationEventView};
use crate::chat::parser::raw::{RawMessage, RawMessageView};
use crate::chat::parser::util::{field_is_one, field_text};
use vstd::prelude::*;

verus! {

/// The notice that a NOTIFICATION body makes: shown where field 1 is
/// `"1"`, with the message of field 3. A body of fewer than four fields
/// makes none.
pub open spec fn notification_event(m: RawMessageView) -> Option<NotificationEventView> {
    if m.body.len() >= 4 {
        Some(
            NotificationEventView {
                meta: EventMeta { received_time: m.received_time },
                message: m.body[3],
                show: m.body[1] == "1"@,
            },
        )
    } else {
        None
    }
}

/// A notice to the room.
pub fn parse_notification_event(raw: RawMessage) -> (r: Option<NotificationEvent>)
    ensures
        option_view(r) == notification_event(raw@),
{
    let body = &raw.body;
    if body.len() < 4 {
        return None;
    }
    Some(
        NotificationEvent {
            meta: EventMeta { received_time: raw.received_time },
            show: field_is_one(body, 1),
            message: field_text(body, 3),
        },
    )
}

} // verus!
