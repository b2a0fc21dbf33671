//! The flags field of a user: two decimal masks joined by `'|'`.

use crate::chat::constants::user_flags;
use crate::chat::parser::raw::{chunk_len, lemma_chunk_len, lemma_chunk_len_is, split_on};
use crate::chat::parser::types::UserFlags;
use crate::chat::parser::util::{is, parse_decimal, u32_or};
use crate::chat::types::UserStatus;
use vstd::prelude::*;
use vstd::slice::slice_subrange;
use vstd::string::*;
use vstd::utf8::*;

verus! {

/// The byte that joins the two masks: `'|'`.
pub const FLAGS_JOINT: u8 = 0x7c;

/// The masks that a flags field holds. The field is split at each `'|'`;
/// the first part is the kinds mask and the second the follow mask, each
/// read as decimal, 0 where it is no number. A field without a `'|'` holds
/// no masks; parts after the second are not read.
pub open spec fn user_flags_of(field: Seq<char>) -> Option<UserFlags> {
    let parts = split_on(encode_utf8(field), FLAGS_JOINT);
    if parts.len() >= 2 {
        Some(UserFlags { combined: u32_or(parts[0], 0), follow: u32_or(parts[1], 0) })
    } else {
        None
    }
}

/// The follower tier that a follow mask says: 1 where the tier-1 bit is
/// set, else 2 where the tier-2 bit is set, else 0.
pub open spec fn follow_tier(mask: u32) -> u8 {
    if mask & user_flags::FOLLOWER_TIER1 == user_flags::FOLLOWER_TIER1 {
        1
    } else if mask & user_flags::FOLLOWER_TIER2 == user_flags::FOLLOWER_TIER2 {
        2
    } else {
        0
    }
}

/// What two masks say of a user.
pub open spec fn status_of_flags(flags: UserFlags) -> UserStatus {
    UserStatus {
        follow: follow_tier(flags.follow),
        is_bj: flags.combined & user_flags::BJ == user_flags::BJ,
        is_manager: flags.combined & user_flags::MANAGER == user_flags::MANAGER,
        is_top_fan: flags.combined & user_flags::TOP_FAN == user_flags::TOP_FAN,
        is_fan: flags.combined & user_flags::FAN == user_flags::FAN,
        is_supporter: flags.combined & user_flags::SUPPORTER == user_flags::SUPPORTER,
    }
}

/// What a flags field says of a user, where it holds two masks.
pub open spec fn user_status_of(field: Seq<char>) -> Option<UserStatus> {
    match user_flags_of(field) {
        Some(flags) => Some(status_of_flags(flags)),
        None => None,
    }
}

/// Where the run without `sep` that starts at `from` ends.
fn chunk_end(bytes: &[u8], from: usize, sep: u8) -> (end: usize)
    requires
        from <= bytes@.len(),
    ensures
        from <= end <= bytes@.len(),
        end - from == chunk_len(bytes@.skip(from as int), sep),
{
    let mut end: usize = from;
    while end < bytes.len() && bytes[end] != sep
        invariant
            from <= end <= bytes@.len(),
            forall|k: int| from <= k < end ==> bytes@[k] != sep,
        decreases bytes@.len() - end,
    {
        end = end + 1;
    }
    proof {
        lemma_chunk_len_is(bytes@.skip(from as int), sep, end - from);
    }
    end
}

/// Reads the two masks of a flags field.
pub fn parse_user_flags(flag_str: &str) -> (r: Option<UserFlags>)
    ensures
        r == user_flags_of(flag_str@),
{
    let bytes = flag_str.as_bytes();
    let first_end: usize = chunk_end(bytes, 0, FLAGS_JOINT);
    proof {
        assert(bytes@.skip(0) =~= bytes@);
        lemma_chunk_len(bytes@, FLAGS_JOINT);
    }
    if first_end >= bytes.len() {
        return None;
    }
    let second_end: usize = chunk_end(bytes, first_end + 1, FLAGS_JOINT);
    let first = slice_subrange(bytes, 0, first_end);
    let second = slice_subrange(bytes, first_end + 1, second_end);
    proof {
        let rest = bytes@.skip(first_end + 1);
        lemma_chunk_len(rest, FLAGS_JOINT);
        let parts = split_on(bytes@, FLAGS_JOINT);
        let tail = split_on(rest, FLAGS_JOINT);
        assert(parts == seq![bytes@.take(first_end as int)] + tail);
        assert(tail.len() >= 1);
        assert(tail[0] == rest.take(second_end - first_end - 1));
        assert(parts[0] =~= first@);
        assert(parts[1] == tail[0]);
        assert(tail[0] =~= second@);
    }
    let combined: u32 = match parse_decimal(first, 0xffff_ffff) {
        Some(v) => v as u32,
        None => 0,
    };
    let follow: u32 = match parse_decimal(second, 0xffff_ffff) {
        Some(v) => v as u32,
        None => 0,
    };
    Some(UserFlags { follow, combined })
}

/// The follower tier of a follow mask.
pub fn get_follow(flags: u32) -> (tier: u8)
    ensures
        tier == follow_tier(flags),
{
    if is(flags, user_flags::FOLLOWER_TIER1) {
        1
    } else if is(flags, user_flags::FOLLOWER_TIER2) {
        2
    } else {
        0
    }
}

/// Reads what a flags field says of a user.
pub fn parse_user_status(flag_str: &str) -> (r: Option<UserStatus>)
    ensures
        r == user_status_of(flag_str@),
{
    match parse_user_flags(flag_str) {
        Some(flags) => Some(
            UserStatus {
                follow: get_follow(flags.follow),
                is_bj: is(flags.combined, user_flags::BJ),
                is_manager: is(flags.combined, user_flags::MANAGER),
                is_top_fan: is(flags.combined, user_flags::TOP_FAN),
                is_fan: is(flags.combined, user_flags::FAN),
                is_supporter: is(flags.combined, user_flags::SUPPORTER),
            },
        ),
        None => None,
    }
}

} // verus!
