//! A user being muted.

use crate::chat::events::{option_view, EventMeta, MuteEvent, MuteEventView};
use crate::chat::parser::constants::{super_user, super_user_name};
use crate::chat::parser::raw::{RawMessage, RawMessageView};
use crate::chat::parser::user::{parse_user_status, user_status_of};
use crate::chat::parser::util::{
    decimal, field, field_number, field_text, field_u32, field_user_id, normalized_id,
    parse_decimal, parse_u32_or,
};
use crate::chat::types::{User, UserView};
use vstd::prelude::*;
use vstd::string::*;
use vstd::utf8::*;

verus! {

/// The index that a superuser field holds: its decimal number, 0 where it
/// is none that a `usize` holds.
pub open spec fn super_user_index(field: Seq<char>) -> nat {
    match decimal(encode_utf8(field), usize::MAX as nat) {
        Some(index) => index,
        None => 0,
    }
}

/// The mute that a MUTE body makes: the muted user's id in field 0, flags
/// in field 1 and name in field 7; the seconds in field 2; the count in
/// field 3, 1 where it is no number; the id of who muted in field 4 and the
/// index of their kind of superuser in field 5. The message is empty. A body
/// of fewer than eight fields, one whose flags field holds no two masks, or
/// one whose index names no kind of superuser, makes none.
pub open spec fn mute_event(m: RawMessageView) -> Option<MuteEventView> {
    if m.body.len() >= 8 {
        match (user_status_of(m.body[1]), super_user(super_user_index(m.body[5]))) {
            (Some(status), Some(superuser_type)) => Some(
                MuteEventView {
                    meta: EventMeta { received_time: m.received_time },
                    user: UserView {
                        id: normalized_id(m.body[0]),
                        label: m.body[7],
                        status,
                        subscribe: None,
                    },
                    seconds: field_u32(m.body[2], 0),
                    message: Seq::<char>::empty(),
                    by: normalized_id(m.body[4]),
                    counts: field_u32(m.body[3], 1),
                    superuser_type,
                },
            ),
            _ => None,
        }
    } else {
        None
    }
}

/// A user being muted.
pub fn parse_mute_event(raw: RawMessage) -> (r: Option<MuteEvent>)
    ensures
        option_view(r) == mute_event(raw@),
{
    let body = &raw.body;
    if body.len() < 8 {
        return None;
    }
    let status = match parse_user_status(field(body, 1)) {
        Some(status) => status,
        None => {
            return None;
        },
    };
    let index: usize = match parse_decimal(field(body, 5).as_bytes(), usize::MAX as u64) {
        Some(index) => index as usize,
        None => 0,
    };
    let superuser_type = match super_user_name(index) {
        Some(name) => name.to_owned(),
        None => {
            return None;
        },
    };
    Some(
        MuteEvent {
            meta: EventMeta { received_time: raw.received_time },
            user: User {
                id: field_user_id(body, 0),
                label: field_text(body, 7),
                status,
                subscribe: None,
            },
            superuser_type,
            by: field_user_id(body, 4),
            message: String::new(),
            seconds: field_number(body, 2),
            counts: parse_u32_or(field(body, 3), 1),
        },
    )
}

} // verus!
