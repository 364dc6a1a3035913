//! The bot manager's database: the statements it runs and how it reads their rows.
//!
//! A statement is a [`DbQuery`] (SQL text, parameters, and the label that its failure
//! message starts with); the database engine runs it and hands back [`DbRows`].

pub mod row;

pub mod entities;
pub mod audit;
pub mod child;
pub mod collection;
pub mod join;
pub mod meta;
pub mod poll;
pub mod room;
pub mod subscription;
pub mod sync;
pub mod schema;
pub mod sync_db;
pub mod sql;
