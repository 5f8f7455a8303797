//! The decisions of an IRC bot's plugins (counters, factoids, quotes,
//! reminders, messages left for others, and a language-model chat), apart from
//! the network, database and scripting work around them.
use vstd::prelude::*;

pub mod config;
pub mod datetime;
pub mod plugin;
pub mod plugins;
pub mod text;

verus! {

} // verus!
