//! Stickers given to the streamer.

use crate::chat::events::{option_view, EventMeta, StickerEvent, StickerEventView};
use crate::chat::parser::raw::{RawMessage, RawMessageView};
use crate::chat::parser::util::{
    field_number, field_text, field_u32, field_user_id, normalized_id,
};
use vstd::prelude::*;

verus! {

/// The sticker that a body makes: the giver's id, normalized, at `from`,
/// the giver's name at `label`, and the amount and the giver's rank among
/// the supporters, as numbers, at `amount` and `ordinal`. A body too short
/// for any of the four makes none.
pub open spec fn sticker_event(
    m: RawMessageView,
    from: int,
    label: int,
    amount: int,
    ordinal: int,
) -> Option<StickerEventView> {
    if from < m.body.len() && label < m.body.len() && amount < m.body.len() && ordinal
        < m.body.len() {
        Some(
            StickerEventView {
                meta: EventMeta { received_time: m.received_time },
                from: normalized_id(m.body[from]),
                from_label: m.body[label],
                amount: field_u32(m.body[amount], 0),
                supporter_ordinal: field_u32(m.body[ordinal], 0),
            },
        )
    } else {
        None
    }
}

fn parse_sticker(raw: RawMessage, from: usize, label: usize, amount: usize, ordinal: usize) -> (r:
    Option<StickerEvent>)
    ensures
        option_view(r) == sticker_event(
            raw@,
            from as int,
            label as int,
            amount as int,
            ordinal as int,
        ),
{
    let body = &raw.body;
    let n: usize = body.len();
    if from < n && label < n && amount < n && ordinal < n {
        Some(
            StickerEvent {
                meta: EventMeta { received_time: raw.received_time },
                from: field_user_id(body, from),
                from_label: field_text(body, label),
                amount: field_number(body, amount),
                supporter_ordinal: field_number(body, ordinal),
            },
        )
    } else {
        None
    }
}

/// A sticker.
pub fn parse_sticker_event(raw: RawMessage) -> (r: Option<StickerEvent>)
    ensures
        option_view(r) == sticker_event(raw@, 2, 3, 7, 8),
{
    parse_sticker(raw, 2, 3, 7, 8)
}

/// A sticker relayed by a sub-channel.
pub fn parse_sticker_sub_event(raw: RawMessage) -> (r: Option<StickerEvent>)
    ensures
        option_view(r) == sticker_event(raw@, 3, 4, 8, 9),
{
    parse_sticker(raw, 3, 4, 8, 9)
}

} // verus!
