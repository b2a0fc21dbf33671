//! Numbers and names that the parsers share.

use vstd::prelude::*;

pub mod freeze_target_flags;

verus! {

/// How many kinds of superuser there are.
pub const SUPER_USER_KINDS: usize = 5;

/// The name of a kind of superuser, by its index on the wire.
pub open spec fn super_user(index: nat) -> Option<Seq<char>> {
    if index == 0 {
        Some("streamer"@)
    } else if index == 1 {
        Some("manager"@)
    } else if index == 2 || index == 3 {
        Some("operator"@)
    } else if index == 4 {
        Some("cleaner"@)
    } else {
        None
    }
}

/// The name of a kind of superuser, where the index names one.
pub fn super_user_name(index: usize) -> (name: Option<&'static str>)
    ensures
        option_name(name) == super_user(index as nat),
{
    if index == 0 {
        Some("streamer")
    } else if index == 1 {
        Some("manager")
    } else if index == 2 || index == 3 {
        Some("operator")
    } else if index == 4 {
        Some("cleaner")
    } else {
        None
    }
}

/// The characters of a text that may be absent.
pub open spec fn option_name(name: Option<&'static str>) -> Option<Seq<char>> {
    match name {
        Some(s) => Some(s@),
        None => None,
    }
}

} // verus!
