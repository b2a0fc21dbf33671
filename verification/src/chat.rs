//! The chat session subsystem.

pub mod commands;
pub mod connection;
pub mod constants;
pub mod events;
pub mod formatter;
pub mod message;
pub mod options;
pub mod parser;
pub mod types;

pub use connection::{Session, SessionAction, SessionInput, SessionState, StartLatch};
pub use events::{
    BattleMissionResultEvent, ChallengeMissionResultEvent, ChatEvent, ConnectedEvent,
    DonationEvent, Event, EventMeta, FreezeEvent, GiftEvent, MissionEvent, MissionTotalEvent,
    MuteEvent, NotificationEvent, SimplifiedUserEvent, SlowEvent, StickerEvent, SubscribeEvent,
    Timestamp, UserEvent,
};
pub use message::MessageHandler;
pub use options::SoopChatOptions;
