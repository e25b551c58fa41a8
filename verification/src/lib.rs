//! Decision logic of a chat-moderation bot: who may act on whom, what each
//! command says, and in which order a moderation action is carried out.
//!
//! Nothing here talks to the chat platform, the database or the network. The
//! commands take snapshots of what the platform knows and return the
//! messages to send; a moderation command is carried out one step at a time,
//! each step naming the next action and taking in what came of the last.
//!
//! - `structs`: the records and snapshots.
//! - `embed`: rich messages as plain data.
//! - `text`: numbers as decimal text.
//! - `utils`: the permission rule, the messages of a moderation action, and
//!   the moderation workflow.
//! - `database`: the guild and infraction tables and the operations on them.
//! - `commands`: the commands themselves.
//! - `config`: what the bot needs to know before it starts.

pub mod commands;
pub mod config;
pub mod database;
pub mod embed;
pub mod structs;
pub mod text;
pub mod utils;
