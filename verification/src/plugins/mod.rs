//! The plugins.
pub mod counter;
pub mod factoid;
pub mod ollama;
pub mod quote;
pub mod remind;
pub mod tell;
