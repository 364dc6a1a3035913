//! The bot manager: the list of messaging bots and the operations on it.

pub mod model;
pub mod controller;
pub mod grpc;
pub mod rest;
pub mod view;
pub mod cli;
pub mod keys;
pub mod daemon;
