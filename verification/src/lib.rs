//! The decisions of a Discord bot that runs projects on a server: the texts it
//! reads and writes, its cache of members and projects, the permission checks,
//! and each slash command as a state machine from state and event to the next
//! state and the action for the caller to perform.

pub mod cache;
pub mod category;
pub mod commands;
pub mod permissions;
pub mod text;
