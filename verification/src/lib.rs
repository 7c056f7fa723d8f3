//! The message model of a Telegram client: who sent a message, what it
//! holds, how TDLib updates change it, which name a row shows for its
//! sender, the message's property table, and the link preview of a text
//! message.

pub mod sender;
pub mod content;
pub mod forward;
pub mod property;
pub mod message;
pub mod name;
pub mod value;
pub mod link_preview;
pub mod laws;
