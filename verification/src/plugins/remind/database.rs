//! Reminder rows, and what the plugin makes of each query's result.
use vstd::prelude::*;

use crate::datetime::{chrono_datetime_text, chrono_text, DateTime};
use crate::plugin::QueryFailure;
use crate::text::{i64_text, int_text, push_str, string_from_chars};

verus! {

/// The query that gives the id of the last inserted row.
pub const LAST_ID_SQL: &'static str = "SELECT LAST_INSERT_ID()";

/// Why a reminder query failed.
#[derive(Clone, Copy, Debug, PartialEq, Eq, Structural)]
pub enum ErrorKind {
    /// MySQL error
    MysqlError,
    /// No connection error
    NoConnection,
    /// No reminder has the id
    NotFound,
}

/// A stored reminder.
pub struct Event {
    pub id: i64,
    pub receiver: String,
    pub content: String,
    pub author: String,
    pub time: DateTime,
    pub repeat: Option<i64>,
}

/// A reminder to be stored.
pub struct NewEvent {
    pub receiver: String,
    pub content: String,
    pub author: String,
    pub time: DateTime,
    pub repeat: Option<i64>,
}

/// How a reminder is shown.
pub open spec fn event_text(id: i64, author: Seq<char>, receiver: Seq<char>, content: Seq<char>, time: DateTime) -> Seq<char> {
    int_text(id as int) + ": "@ + author + " reminds "@ + receiver + " to \""@ + content + "\" at "@
        + chrono_datetime_text(
        time.year,
        time.month,
        time.day,
        time.hour,
        time.minute,
        time.second,
        time.nanosecond,
    )
}

impl Event {
    /// How the reminder is shown (`Display`).
    pub fn describe(&self) -> (s: String)
        requires
            self.time.is_valid(),
        ensures
            s@ == event_text(self.id, self.author@, self.receiver@, self.content@, self.time),
    {
        let mut out = i64_text(self.id);
        push_str(&mut out, ": ");
        push_str(&mut out, self.author.as_str());
        push_str(&mut out, " reminds ");
        push_str(&mut out, self.receiver.as_str());
        push_str(&mut out, " to \"");
        push_str(&mut out, self.content.as_str());
        push_str(&mut out, "\" at ");
        let when = chrono_text(&self.time);
        push_str(&mut out, when.as_str());
        string_from_chars(out.as_slice())
    }
}

/// The error a failed query stands for.
pub open spec fn query_error(f: QueryFailure) -> ErrorKind {
    match f {
        QueryFailure::NoConnection => ErrorKind::NoConnection,
        _ => ErrorKind::MysqlError,
    }
}

fn query_error_of(f: QueryFailure) -> (e: ErrorKind)
    ensures
        e == query_error(f),
{
    match f {
        QueryFailure::NoConnection => ErrorKind::NoConnection,
        _ => ErrorKind::MysqlError,
    }
}

/// The id `insert_event` returns: that of the last inserted row, once the
/// insert went through.
pub fn inserted_event(inserted: Result<(), QueryFailure>, last_id: Result<i64, QueryFailure>) -> (r:
    Result<i64, ErrorKind>)
    ensures
        inserted matches Err(q) ==> r == Err::<i64, ErrorKind>(query_error(q)),
        inserted is Ok ==> r == match last_id {
            Ok(id) => Ok::<i64, ErrorKind>(id),
            Err(q) => Err::<i64, ErrorKind>(query_error(q)),
        },
{
    match inserted {
        Err(q) => Err(query_error_of(q)),
        Ok(()) => match last_id {
            Ok(id) => Ok(id),
            Err(q) => Err(query_error_of(q)),
        },
    }
}

/// The outcome of updating or deleting a reminder by id, given how many rows
/// changed: none means there is no such reminder.
pub fn changed_event(changed: Result<usize, QueryFailure>) -> (r: Result<(), ErrorKind>)
    ensures
        changed matches Ok(n) ==> (n > 0 <==> r is Ok) && (n == 0 ==> r == Err::<(), ErrorKind>(
            ErrorKind::NotFound,
        )),
        changed matches Err(q) ==> r == Err::<(), ErrorKind>(query_error(q)),
{
    match changed {
        Ok(n) => if n == 0 {
            Err(ErrorKind::NotFound)
        } else {
            Ok(())
        },
        Err(q) => Err(query_error_of(q)),
    }
}

/// The reminders a query loaded (`get_events_before`, `get_user_events`).
pub fn loaded_events(loaded: Result<Vec<Event>, QueryFailure>) -> (r: Result<Vec<Event>, ErrorKind>)
    ensures
        loaded matches Ok(v) ==> (r matches Ok(w) && w@ == v@),
        loaded matches Err(q) ==> (r matches Err(e) && e == query_error(q)),
{
    match loaded {
        Ok(v) => Ok(v),
        Err(q) => Err(query_error_of(q)),
    }
}

/// The reminder `get_event` fetched: no such id is a MySQL error.
pub fn fetched_event(fetched: Result<Event, QueryFailure>) -> (r: Result<Event, ErrorKind>)
    ensures
        fetched matches Ok(v) ==> (r matches Ok(w) && w == v),
        fetched matches Err(q) ==> (r matches Err(e) && e == query_error(q)),
{
    match fetched {
        Ok(e) => Ok(e),
        Err(q) => Err(query_error_of(q)),
    }
}

} // verus!
