//! The room being frozen or thawed.

use crate::chat::events::{option_view, texts_view, EventMeta, FreezeEvent, FreezeEventView};
use crate::chat::parser::constants::freeze_target_flags;
use crate::chat::parser::raw::{RawMessage, RawMessageView};
use crate::chat::parser::util::{field, field_number, field_u32, is, parse_u32_or_default, text_eq};
use vstd::prelude::*;
use vstd::string::*;

verus! {

/// The name of a target, where the mask has its bit, and nothing where it
/// has not.
pub open spec fn target_if(mask: u32, bit: u32, name: Seq<char>) -> Seq<Seq<char>> {
    if mask & bit == bit {
        seq![name]
    } else {
        Seq::<Seq<char>>::empty()
    }
}

/// The names of the targets that a mask holds, in the order of their bits.
/// Each target goes by the name of its bit: `"NORMAL"`, `"FAN"`,
/// `"SUPPORTER"`, `"TOP_FAN"`, `"FOLLOWER"`, `"MANAGER"`.
pub open spec fn freeze_targets(mask: u32) -> Seq<Seq<char>> {
    target_if(mask, freeze_target_flags::NORMAL, "NORMAL"@) + target_if(
        mask,
        freeze_target_flags::FAN,
        "FAN"@,
    ) + target_if(mask, freeze_target_flags::SUPPORTER, "SUPPORTER"@) + target_if(
        mask,
        freeze_target_flags::TOP_FAN,
        "TOP_FAN"@,
    ) + target_if(mask, freeze_target_flags::FOLLOWER, "FOLLOWER"@) + target_if(
        mask,
        freeze_target_flags::MANAGER,
        "MANAGER"@,
    )
}

/// The freeze that a FREEZE body makes: frozen unless field 0 is `"0"`, the
/// target mask in field 2, the balloon limit in field 3 and the
/// subscription month limit in field 4, each a number. A body of fewer than
/// five fields makes none.
pub open spec fn freeze_event(m: RawMessageView) -> Option<FreezeEventView> {
    if m.body.len() >= 5 {
        Some(
            FreezeEventView {
                meta: EventMeta { received_time: m.received_time },
                freezed: m.body[0] != "0"@,
                limit_subscription_month: field_u32(m.body[4], 0),
                limit_balloons: field_u32(m.body[3], 0),
                targets: freeze_targets(field_u32(m.body[2], 0)),
            },
        )
    } else {
        None
    }
}

/// A freeze or a thaw of the room.
pub fn parse_freeze_event(raw: RawMessage) -> (r: Option<FreezeEvent>)
    ensures
        option_view(r) == freeze_event(raw@),
{
    let body = &raw.body;
    if body.len() < 5 {
        return None;
    }
    Some(
        FreezeEvent {
            meta: EventMeta { received_time: raw.received_time },
            freezed: !text_eq(field(body, 0), "0"),
            limit_balloons: field_number(body, 3),
            limit_subscription_month: field_number(body, 4),
            targets: parse_freeze_targets(field(body, 2)),
        },
    )
}

/// Adds the name of a target where the mask has its bit.
fn push_target(targets: &mut Vec<String>, mask: u32, bit: u32, name: &str)
    ensures
        texts_view(final(targets)@) == texts_view(old(targets)@) + target_if(mask, bit, name@),
{
    if is(mask, bit) {
        targets.push(name.to_owned());
    }
    proof {
        assert(texts_view(final(targets)@) =~= texts_view(old(targets)@) + target_if(
            mask,
            bit,
            name@,
        ));
    }
}

/// The names of the targets in a mask field, which is read as a number, 0
/// where it is none.
pub fn parse_freeze_targets(flag_str: &str) -> (targets: Vec<String>)
    ensures
        texts_view(targets@) == freeze_targets(field_u32(flag_str@, 0)),
{
    let mut targets: Vec<String> = Vec::new();
    let flag: u32 = parse_u32_or_default(flag_str);
    proof {
        assert(texts_view(targets@) =~= Seq::<Seq<char>>::empty());
    }
    push_target(&mut targets, flag, freeze_target_flags::NORMAL, "NORMAL");
    push_target(&mut targets, flag, freeze_target_flags::FAN, "FAN");
    push_target(&mut targets, flag, freeze_target_flags::SUPPORTER, "SUPPORTER");
    push_target(&mut targets, flag, freeze_target_flags::TOP_FAN, "TOP_FAN");
    push_target(&mut targets, flag, freeze_target_flags::FOLLOWER, "FOLLOWER");
    push_target(&mut targets, flag, freeze_target_flags::MANAGER, "MANAGER");
    proof {
        assert(texts_view(targets@) =~= freeze_targets(flag));
    }
    targets
}

} // verus!
