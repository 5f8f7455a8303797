//! Reminders for channel users.
pub mod database;
