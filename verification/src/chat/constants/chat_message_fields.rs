//! Field indices of a CHAT body.

use vstd::prelude::*;

verus! {

pub const CONTENT: usize = 0;

pub const USER_ID: usize = 1;

pub const USER_NICK: usize = 5;

pub const FLAGS: usize = 6;

pub const SUBSCRIBE: usize = 7;

pub const ACC_SUBSCRIBE: usize = 10;

} // verus!
