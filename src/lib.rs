//! Interaction authorization and game-role reconciliation for a guild bot.
//!
//! The library decides; the program around it talks to the chat platform and
//! to the key-value store, and hands the library plain values.

pub mod text;
pub mod catalog;
pub mod admins;
pub mod application_commands;
pub mod message_component_commands;
pub mod events;
pub mod modal_submits;
pub mod slash_commands;
pub mod log_channel;
pub mod utils;
