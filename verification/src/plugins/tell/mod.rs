//! Messages left for channel users.
pub mod database;
