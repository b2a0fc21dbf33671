//! Client-side core of a live-stream chat service: the frame codec, the
//! per-opcode field parsers, the typed event model, the message dispatcher
//! and the session state machine.

pub mod chat;
pub mod error;
pub mod models;
pub mod text;
pub mod vod_chat_parser;

pub use chat::events::Event;
pub use error::Error;

pub use models::{VODDetail, VODFile, VOD};
