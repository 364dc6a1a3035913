//! The bot commands: what each one is called and needs, and what it answers.
//!
//! A command that reads or writes the database is split at the statement: a `prepare`
//! step that checks the arguments and names the statement, and a `finish` step that
//! turns the statement's outcome into the answer.

pub mod registry;
pub mod basic;
pub mod reply;
pub mod broadcast;
pub mod calendar;
pub mod control;
pub mod gatekeeper;
pub mod room_sync;
