//! Bits of the two user flag masks.

use vstd::prelude::*;

verus! {

/// Bit 2 of the kinds mask: the broadcaster.
pub const BJ: u32 = 0x4;

/// Bit 4 of the kinds mask.
pub const GUEST: u32 = 0x10;

/// Bit 5 of the kinds mask.
pub const FAN: u32 = 0x20;

/// Bit 8 of the kinds mask.
pub const MANAGER: u32 = 0x100;

/// Bit 15 of the kinds mask.
pub const TOP_FAN: u32 = 0x8000;

/// Bit 20 of the kinds mask.
pub const SUPPORTER: u32 = 0x10_0000;

/// Bit 18 of the follow mask.
pub const FOLLOWER_TIER1: u32 = 0x4_0000;

/// Bit 19 of the follow mask.
pub const FOLLOWER_TIER2: u32 = 0x8_0000;

} // verus!
