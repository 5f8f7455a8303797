//! Quotes of channel users.
pub mod database;
