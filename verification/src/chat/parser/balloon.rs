//! Donations: balloons, ad balloons and video balloons.

use crate::chat::events::{option_view, DonationEvent, DonationEventView, EventMeta};
use crate::chat::parser::raw::{RawMessage, RawMessageView};
use crate::chat::parser::util::{
    field_is_one, field_number, field_text, field_u32, field_user_id, normalized_id,
};
use crate::chat::types::DonationType;
use vstd::prelude::*;

verus! {

/// The donation that a body with a fan club rank makes: the giver's id,
/// normalized, at `from`, the giver's name at `label`, the amount and the
/// rank as numbers at `amount` and `ordinal`, and at `top_fan` whether the
/// gift made the giver a top fan. A body too short for any of the five
/// makes none.
pub open spec fn ranked_donation(
    m: RawMessageView,
    donation_type: DonationType,
    from: int,
    label: int,
    amount: int,
    ordinal: int,
    top_fan: int,
) -> Option<DonationEventView> {
    if from < m.body.len() && label < m.body.len() && amount < m.body.len() && ordinal
        < m.body.len() && top_fan < m.body.len() {
        Some(
            DonationEventView {
                meta: EventMeta { received_time: m.received_time },
                from: normalized_id(m.body[from]),
                from_label: m.body[label],
                amount: field_u32(m.body[amount], 0),
                fan_club_ordinal: field_u32(m.body[ordinal], 0),
                become_top_fan: m.body[top_fan] == "1"@,
                donation_type,
            },
        )
    } else {
        None
    }
}

/// The donation that a body without a rank makes: giver, name and amount
/// in fields 1, 2 and 3; rank 0 and no top fan.
pub open spec fn plain_donation(m: RawMessageView, donation_type: DonationType) -> Option<
    DonationEventView,
> {
    if m.body.len() >= 4 {
        Some(
            DonationEventView {
                meta: EventMeta { received_time: m.received_time },
                from: normalized_id(m.body[1]),
                from_label: m.body[2],
                amount: field_u32(m.body[3], 0),
                fan_club_ordinal: 0,
                become_top_fan: false,
                donation_type,
            },
        )
    } else {
        None
    }
}

fn parse_ranked(
    raw: RawMessage,
    donation_type: DonationType,
    from: usize,
    label: usize,
    amount: usize,
    ordinal: usize,
    top_fan: usize,
) -> (r: Option<DonationEvent>)
    ensures
        option_view(r) == ranked_donation(
            raw@,
            donation_type,
            from as int,
            label as int,
            amount as int,
            ordinal as int,
            top_fan as int,
        ),
{
    let body = &raw.body;
    let n: usize = body.len();
    if from < n && label < n && amount < n && ordinal < n && top_fan < n {
        Some(
            DonationEvent {
                meta: EventMeta { received_time: raw.received_time },
                donation_type,
                from: field_user_id(body, from),
                from_label: field_text(body, label),
                amount: field_number(body, amount),
                fan_club_ordinal: field_number(body, ordinal),
                become_top_fan: field_is_one(body, top_fan),
            },
        )
    } else {
        None
    }
}

fn parse_plain(raw: RawMessage, donation_type: DonationType) -> (r: Option<DonationEvent>)
    ensures
        option_view(r) == plain_donation(raw@, donation_type),
{
    let body = &raw.body;
    if body.len() >= 4 {
        Some(
            DonationEvent {
                meta: EventMeta { received_time: raw.received_time },
                donation_type,
                from: field_user_id(body, 1),
                from_label: field_text(body, 2),
                amount: field_number(body, 3),
                fan_club_ordinal: 0,
                become_top_fan: false,
            },
        )
    } else {
        None
    }
}

/// A balloon donation.
pub fn parse_balloon_event(raw: RawMessage) -> (r: Option<DonationEvent>)
    ensures
        option_view(r) == ranked_donation(raw@, DonationType::Balloon, 1, 2, 3, 4, 8),
{
    parse_ranked(raw, DonationType::Balloon, 1, 2, 3, 4, 8)
}

/// A balloon donation relayed by a sub-channel.
pub fn parse_balloon_sub_event(raw: RawMessage) -> (r: Option<DonationEvent>)
    ensures
        option_view(r) == ranked_donation(raw@, DonationType::Balloon, 3, 4, 5, 6, 9),
{
    parse_ranked(raw, DonationType::Balloon, 3, 4, 5, 6, 9)
}

/// A balloon donation on a replay.
pub fn parse_vod_balloon_event(raw: RawMessage) -> (r: Option<DonationEvent>)
    ensures
        option_view(r) == plain_donation(raw@, DonationType::Balloon),
{
    parse_plain(raw, DonationType::Balloon)
}

/// An ad balloon on a replay.
pub fn parse_vod_ad_balloon_event(raw: RawMessage) -> (r: Option<DonationEvent>)
    ensures
        option_view(r) == plain_donation(raw@, DonationType::ADBalloon),
{
    parse_plain(raw, DonationType::ADBalloon)
}

/// An ad balloon.
pub fn parse_ad_balloon_event(raw: RawMessage) -> (r: Option<DonationEvent>)
    ensures
        option_view(r) == ranked_donation(raw@, DonationType::ADBalloon, 2, 3, 9, 10, 12),
{
    parse_ranked(raw, DonationType::ADBalloon, 2, 3, 9, 10, 12)
}

/// An ad balloon given to the station.
pub fn parse_station_ad_balloon_event(raw: RawMessage) -> (r: Option<DonationEvent>)
    ensures
        option_view(r) == plain_donation(raw@, DonationType::ADBalloon),
{
    parse_plain(raw, DonationType::ADBalloon)
}

/// A video balloon.
pub fn parse_video_balloon_event(raw: RawMessage) -> (r: Option<DonationEvent>)
    ensures
        option_view(r) == ranked_donation(raw@, DonationType::VODBalloon, 2, 3, 4, 5, 7),
{
    parse_ranked(raw, DonationType::VODBalloon, 2, 3, 4, 5, 7)
}

} // verus!
