//! Time-triggered reminders: the rules behind creating, listing and firing them.
//!
//! The crate decides; it performs no input or output of its own. A caller
//! reads the environment, talks to the store, the advice service and the
//! desktop, and hands what it got to the functions here.

pub mod config;
pub mod instant;
pub mod outside;
pub mod time_utils;
pub mod json;
pub mod deepseek;
pub mod models;
pub mod cli;
pub mod scheduler;
pub mod listing;
pub mod create;

pub use create::create_reminder;
pub use listing::list_reminders;
