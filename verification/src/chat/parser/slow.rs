//! Slow mode being set.

use crate::chat::events::{option_view, EventMeta, SlowEvent, SlowEventView};
use crate::chat::parser::raw::{RawMessage, RawMessageView};
use crate::chat::parser::util::{field_number, field_u32};
use vstd::prelude::*;

verus! {

/// The greater of two numbers.
pub open spec fn greater(a: u32, b: u32) -> u32 {
    if a >= b {
        a
    } else {
        b
    }
}

/// The slow mode that a SLOW body makes: its duration is the greater of the
/// numbers in fields 0 and 1. A body of fewer than two fields makes none.
pub open spec fn slow_event(m: RawMessageView) -> Option<SlowEventView> {
    if m.body.len() >= 2 {
        Some(
            SlowEventView {
                meta: EventMeta { received_time: m.received_time },
                duration: greater(field_u32(m.body[0], 0), field_u32(m.body[1], 0)),
            },
        )
    } else {
        None
    }
}

/// Slow mode being set.
pub fn parse_slow_event(raw: RawMessage) -> (r: Option<SlowEvent>)
    ensures
        option_view(r) == slow_event(raw@),
{
    let body = &raw.body;
    if body.len() < 2 {
        return None;
    }
    let first: u32 = field_number(body, 0);
    let second: u32 = field_number(body, 1);
    Some(
        SlowEvent {
            meta: EventMeta { received_time: raw.received_time },
            duration: if first >= second {
                first
            } else {
                second
            },
        },
    )
}

} // verus!
