//! Messages left for users, and what the plugin makes of each query's result.
use vstd::prelude::*;

use crate::datetime::DateTime;
use crate::plugin::QueryFailure;

verus! {

/// Why a tell query failed.
#[derive(Clone, Copy, Debug, PartialEq, Eq, Structural)]
pub enum ErrorKind {
    /// MySQL error
    MysqlError,
    /// No connection error
    NoConnection,
}

/// A stored message for `receiver`.
#[derive(PartialEq, Clone, Debug)]
pub struct TellMessage {
    pub id: i64,
    pub sender: String,
    pub receiver: String,
    pub time: DateTime,
    pub message: String,
}

/// A message to be stored.
pub struct NewTellMessage {
    pub sender: String,
    pub receiver: String,
    pub time: DateTime,
    pub message: String,
}

/// The error a failed query stands for.
pub open spec fn query_error(f: QueryFailure) -> ErrorKind {
    match f {
        QueryFailure::NoConnection => ErrorKind::NoConnection,
        _ => ErrorKind::MysqlError,
    }
}

fn query_error_of(f: QueryFailure) -> (e: ErrorKind)
    ensures
        e == query_error(f),
{
    match f {
        QueryFailure::NoConnection => ErrorKind::NoConnection,
        _ => ErrorKind::MysqlError,
    }
}

/// The outcome of a query that changes rows (`insert_tell`, `delete_tells`).
pub fn written(outcome: Result<(), QueryFailure>) -> (r: Result<(), ErrorKind>)
    ensures
        outcome is Ok ==> r is Ok,
        outcome matches Err(q) ==> r == Err::<(), ErrorKind>(query_error(q)),
{
    match outcome {
        Ok(()) => Ok(()),
        Err(q) => Err(query_error_of(q)),
    }
}

/// The messages for a receiver, oldest first (`get_tells`).
pub fn loaded_tells(loaded: Result<Vec<TellMessage>, QueryFailure>) -> (r: Result<
    Vec<TellMessage>,
    ErrorKind,
>)
    ensures
        loaded matches Ok(v) ==> (r matches Ok(w) && w@ == v@),
        loaded matches Err(q) ==> (r matches Err(e) && e == query_error(q)),
{
    match loaded {
        Ok(v) => Ok(v),
        Err(q) => Err(query_error_of(q)),
    }
}

/// Everyone a message waits for (`get_receivers`).
pub fn loaded_receivers(loaded: Result<Vec<String>, QueryFailure>) -> (r: Result<
    Vec<String>,
    ErrorKind,
>)
    ensures
        loaded matches Ok(v) ==> (r matches Ok(w) && w@ == v@),
        loaded matches Err(q) ==> (r matches Err(e) && e == query_error(q)),
{
    match loaded {
        Ok(v) => Ok(v),
        Err(q) => Err(query_error_of(q)),
    }
}

} // verus!
