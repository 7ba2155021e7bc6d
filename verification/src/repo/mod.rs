//! Stored records, one module per aggregate, with the rules that shape what is written.
pub mod assets;
pub mod attachments;
pub mod locations;
pub mod log;
pub mod reminders;
pub mod supplies;
pub mod tags;
pub mod tasks;
