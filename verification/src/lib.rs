//! Core logic of the FreeSynergy bot runtime.

pub mod text;

pub mod topic;
pub mod json;
pub mod rights;
pub mod context;
pub mod response;
pub mod order;
pub mod trigger;
pub mod ui;
pub mod handlers;
pub mod db;
pub mod clock;
pub mod commands;
pub mod runtime;
