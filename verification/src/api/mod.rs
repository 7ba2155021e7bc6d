//! The JSON API: its payloads and the rules behind its handlers.
pub mod assets;
pub mod attachments;
pub mod auth;
pub mod locations;
pub mod log;
pub mod reminders;
pub mod stats;
pub mod supplies;
pub mod tasks;
