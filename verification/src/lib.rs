//! Core logic of a chat bot that answers a slash command with a media file
//! drawn at random from one of three themed pools, echoes a sanitized copy of
//! the user's question, and reports telemetry points to a time-series sink.
//!
//! The crate holds the decision and formatting logic: pool selection, reply
//! assembly, sink construction and point building, guild-lifecycle planning,
//! and error routing. Network and file I/O stay with the caller, which hands
//! plain values in and carries the computed replies and points out.

pub mod analytics;
pub mod commands;
pub mod config;
pub mod events;
pub mod folders;
pub mod text;

use vstd::prelude::*;

verus! {

/// The state shared by every command and event invocation: the analytics
/// sink and the pool set, both fixed once the bot is up.
pub struct BotData {
    pub analytics: analytics::AnalyticsClient,
    pub folders: folders::Folders,
}

} // verus!
