//! What each command of the bot does with what it is given.

pub mod fun;
pub mod general;
pub mod moderation;
