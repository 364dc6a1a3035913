//! The trigger handlers of the bot modules: what each one does with a Bus event.

pub mod broadcast;
pub mod calendar;
pub mod control;
pub mod gatekeeper;
pub mod sync;
