//! Bits of the mask that says whom a freeze lets chat.

use vstd::prelude::*;

verus! {

/// Bit 4.
pub const NORMAL: u32 = 0x10;

/// Bit 5.
pub const FAN: u32 = 0x20;

/// Bit 6.
pub const SUPPORTER: u32 = 0x40;

/// Bit 7.
pub const TOP_FAN: u32 = 0x80;

/// Bit 8.
pub const FOLLOWER: u32 = 0x100;

/// Bit 9.
pub const MANAGER: u32 = 0x200;

} // verus!
