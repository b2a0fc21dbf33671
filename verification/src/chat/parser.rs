//! Decoding of frames and of their fields into typed events.

pub mod balloon;
pub mod chat;
pub mod constants;
pub mod emoticon;
pub mod exit;
pub mod freeze;
pub mod gift;
pub mod join;
pub mod kick;
pub mod mission;
pub mod mute;
pub mod notification;
pub mod raw;
pub mod slow;
pub mod sticker;
pub mod subscribe;
pub mod types;
pub mod user;
pub mod util;

pub use raw::{parse_message, RawMessage};
