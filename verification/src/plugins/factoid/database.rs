//! Factoid rows, and what the plugin makes of each query's result.
use vstd::prelude::*;

use super::error::ErrorKind;
use crate::datetime::DateTime;
use crate::plugin::QueryFailure;

verus! {

/// A stored version of a factoid.
pub struct Factoid {
    pub name: String,
    pub idx: i32,
    pub content: String,
    pub author: String,
    pub created: DateTime,
}

/// The contents of a [`Factoid`].
pub struct FactoidView {
    pub name: Seq<char>,
    pub idx: i32,
    pub content: Seq<char>,
    pub author: Seq<char>,
    pub created: DateTime,
}

impl View for Factoid {
    type V = FactoidView;

    open spec fn view(&self) -> FactoidView {
        FactoidView {
            name: self.name@,
            idx: self.idx,
            content: self.content@,
            author: self.author@,
            created: self.created,
        }
    }
}

/// A factoid version to be inserted.
pub struct NewFactoid {
    pub name: String,
    pub idx: i32,
    pub content: String,
    pub author: String,
    pub created: DateTime,
}

impl View for NewFactoid {
    type V = FactoidView;

    open spec fn view(&self) -> FactoidView {
        FactoidView {
            name: self.name@,
            idx: self.idx,
            content: self.content@,
            author: self.author@,
            created: self.created,
        }
    }
}

/// The error a failed query stands for: a lost connection, or a MySQL error.
pub open spec fn query_error(f: QueryFailure) -> ErrorKind {
    match f {
        QueryFailure::NoConnection => ErrorKind::NoConnection,
        _ => ErrorKind::MysqlError,
    }
}

fn query_error_of(f: QueryFailure) -> (e: ErrorKind)
    ensures
        e == query_error(f),
{
    match f {
        QueryFailure::NoConnection => ErrorKind::NoConnection,
        _ => ErrorKind::MysqlError,
    }
}

/// The outcome of inserting a factoid version.
pub fn insert_factoid(inserted: Result<(), QueryFailure>) -> (r: Result<(), ErrorKind>)
    ensures
        inserted is Ok ==> r is Ok,
        inserted matches Err(f) ==> r == Err::<(), ErrorKind>(query_error(f)),
{
    match inserted {
        Ok(()) => Ok(()),
        Err(f) => Err(query_error_of(f)),
    }
}

/// The outcome of fetching version `idx` of a factoid: a missing row is a MySQL error.
pub fn get_factoid(fetched: Result<Factoid, QueryFailure>) -> (r: Result<Factoid, ErrorKind>)
    ensures
        fetched matches Ok(f) ==> (r matches Ok(g) && g@ == f@),
        fetched matches Err(q) ==> (r matches Err(e) && e == query_error(q)),
{
    match fetched {
        Ok(f) => Ok(f),
        Err(q) => Err(query_error_of(q)),
    }
}

/// The outcome of deleting a factoid version, given how many rows went:
/// none is "not found".
pub fn delete_factoid(deleted: Result<usize, QueryFailure>) -> (r: Result<(), ErrorKind>)
    ensures
        deleted matches Ok(n) ==> (n > 0 <==> r is Ok) && (n == 0 ==> r == Err::<(), ErrorKind>(
            ErrorKind::NotFound,
        )),
        deleted matches Err(q) ==> r == Err::<(), ErrorKind>(query_error(q)),
{
    match deleted {
        Ok(n) => if n > 0 {
            Ok(())
        } else {
            Err(ErrorKind::NotFound)
        },
        Err(q) => Err(query_error_of(q)),
    }
}

/// The number of versions of a factoid, from the count query: no row counts
/// 0, and the count is cut to an `i32` as `as` does.
pub fn count_factoids(counted: Result<i64, QueryFailure>) -> (r: Result<i32, ErrorKind>)
    ensures
        counted matches Ok(n) ==> r == Ok::<i32, ErrorKind>(n as i32),
        counted == Err::<i64, QueryFailure>(QueryFailure::NotFound) ==> r == Ok::<i32, ErrorKind>(0),
        counted matches Err(q) ==> (q != QueryFailure::NotFound ==> r == Err::<i32, ErrorKind>(
            query_error(q),
        )),
{
    match counted {
        Ok(n) => Ok(#[verifier::truncate] (n as i32)),
        Err(QueryFailure::NotFound) => Ok(0),
        Err(q) => Err(query_error_of(q)),
    }
}

/// The value stored under a key for factoid scripts: no row is no value.
pub fn get_lua_value(found: Result<String, QueryFailure>) -> (r: Result<Option<String>, ErrorKind>)
    ensures
        found matches Ok(v) ==> (r matches Ok(Some(w)) && w@ == v@),
        found == Err::<String, QueryFailure>(QueryFailure::NotFound) ==> r matches Ok(None),
        found matches Err(q) ==> (q != QueryFailure::NotFound ==> (r matches Err(e) && e
            == query_error(q))),
{
    match found {
        Ok(v) => Ok(Some(v)),
        Err(QueryFailure::NotFound) => Ok(None),
        Err(q) => Err(query_error_of(q)),
    }
}

/// The outcome of storing a value for factoid scripts.
pub fn set_lua_value(written: Result<(), QueryFailure>) -> (r: Result<(), ErrorKind>)
    ensures
        written is Ok ==> r is Ok,
        written matches Err(q) ==> r == Err::<(), ErrorKind>(query_error(q)),
{
    match written {
        Ok(()) => Ok(()),
        Err(q) => Err(query_error_of(q)),
    }
}

} // verus!
