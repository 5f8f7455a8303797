//! What every plugin shares: how a message is handled, the command a user
//! sends, and how a database query can fail.
use vstd::prelude::*;

use crate::text::views;

verus! {

/// What a plugin wants done with a channel message.
#[derive(Clone, Copy, Debug, PartialEq, Eq, Structural)]
pub enum ExecutionStatus {
    /// Nothing more to do.
    Done,
    /// The plugin wants to handle the message on a worker thread.
    RequiresThread,
}

/// A command addressed to a plugin: who sent it, where to answer, and its words.
pub struct PluginCommand {
    pub source: String,
    pub target: String,
    pub tokens: Vec<String>,
}

/// The contents of a [`PluginCommand`].
pub struct PluginCommandView {
    pub source: Seq<char>,
    pub target: Seq<char>,
    pub tokens: Seq<Seq<char>>,
}

impl View for PluginCommand {
    type V = PluginCommandView;

    open spec fn view(&self) -> PluginCommandView {
        PluginCommandView { source: self.source@, target: self.target@, tokens: views(self.tokens@) }
    }
}

/// How a query against the database went wrong.
#[derive(Clone, Copy, Debug, PartialEq, Eq, Structural)]
pub enum QueryFailure {
    /// No connection could be taken from the pool.
    NoConnection,
    /// The query matched no row.
    NotFound,
    /// Any other failure of the query.
    Failed,
}

} // verus!
