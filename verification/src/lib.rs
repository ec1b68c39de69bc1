//! Convenience layer for chat-bot interaction handling: permission sets,
//! the classification of errors into what the user should be told, and a
//! tracker for the "one initial response, then followups" protocol.

pub mod error;
pub mod interaction;
pub mod log;
pub mod message;
pub mod outside;
pub mod permissions;
pub mod prettify;
pub mod reply;
