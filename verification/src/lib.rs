//! Client-side protocol handling for a real-time chat session.

pub mod chat;
pub mod json;
pub mod roster;
pub mod wire;

pub use chat::{Chat, Effect, FeedEntry, Msg};
pub use roster::UserProfile;
pub use wire::{ChatMessage, DecodeError, Envelope, MsgTypes};
