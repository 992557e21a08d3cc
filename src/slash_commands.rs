//! Slash commands that manage the admins, the channel and the bot itself.

pub mod add_admin;
pub mod ping;
pub mod prune;
