//! Errors of the factoid plugin.
use vstd::prelude::*;

verus! {

/// Why a factoid command failed.
#[derive(Clone, Copy, Debug, PartialEq, Eq, Structural)]
pub enum ErrorKind {
    /// Invalid command error
    InvalidCommand,
    /// Invalid index error
    InvalidIndex,
    /// Download  error
    Download,
    /// Duplicate error
    Duplicate,
    /// Not found error
    NotFound,
    /// MySQL error
    MysqlError,
    /// No connection error
    NoConnection,
}

/// The text each error shows.
pub open spec fn error_text(kind: ErrorKind) -> Seq<char> {
    match kind {
        ErrorKind::InvalidCommand => "Invalid Command"@,
        ErrorKind::InvalidIndex => "Invalid index"@,
        ErrorKind::Download => "Download failed"@,
        ErrorKind::Duplicate => "Entry already exists"@,
        ErrorKind::NotFound => "Factoid was not found"@,
        ErrorKind::MysqlError => "Failed to execute MySQL Query"@,
        ErrorKind::NoConnection => "No connection to the database"@,
    }
}

impl ErrorKind {
    /// The text this error shows.
    pub fn message(&self) -> (s: String)
        ensures
            s@ == error_text(*self),
    {
        match self {
            ErrorKind::InvalidCommand => "Invalid Command".to_owned(),
            ErrorKind::InvalidIndex => "Invalid index".to_owned(),
            ErrorKind::Download => "Download failed".to_owned(),
            ErrorKind::Duplicate => "Entry already exists".to_owned(),
            ErrorKind::NotFound => "Factoid was not found".to_owned(),
            ErrorKind::MysqlError => "Failed to execute MySQL Query".to_owned(),
            ErrorKind::NoConnection => "No connection to the database".to_owned(),
        }
    }
}

} // verus!
