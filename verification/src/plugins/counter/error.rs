//! Errors of the counter plugin.
use vstd::prelude::*;

verus! {

/// Why a counter could not be read or changed.
#[derive(Clone, Copy, Debug, PartialEq, Eq, Structural)]
pub enum ErrorKind {
    /// MySQL error
    MysqlError,
    /// No connection error
    NoConnection,
}

/// The text each error shows.
pub open spec fn error_text(kind: ErrorKind) -> Seq<char> {
    match kind {
        ErrorKind::MysqlError => "Failed to execute MySQL Query"@,
        ErrorKind::NoConnection => "No connection to the database"@,
    }
}

impl ErrorKind {
    /// The text this error shows.
    pub fn message(&self) -> (s: String)
        ensures
            s@ == error_text(*self),
    {
        match self {
            ErrorKind::MysqlError => "Failed to execute MySQL Query".to_owned(),
            ErrorKind::NoConnection => "No connection to the database".to_owned(),
        }
    }
}

} // verus!
