//! Quote rows, and what the plugin makes of each query's result.
use vstd::prelude::*;

use crate::datetime::DateTime;
use crate::plugin::QueryFailure;
use crate::text::{push_str, string_from_chars};

verus! {

/// Why a quote query failed.
#[derive(Clone, Copy, Debug, PartialEq, Eq, Structural)]
pub enum ErrorKind {
    /// MySQL error
    MysqlError,
    /// No connection error
    NoConnection,
}

/// A stored quote.
pub struct Quote {
    pub quotee: String,
    pub channel: String,
    pub idx: i32,
    pub content: String,
    pub author: String,
    pub created: DateTime,
}

/// A quote to be inserted.
pub struct NewQuote {
    pub quotee: String,
    pub channel: String,
    pub idx: i32,
    pub content: String,
    pub author: String,
    pub created: DateTime,
}

/// The error a failed query stands for.
pub open spec fn query_error(f: QueryFailure) -> ErrorKind {
    match f {
        QueryFailure::NoConnection => ErrorKind::NoConnection,
        _ => ErrorKind::MysqlError,
    }
}

fn query_error_of(f: QueryFailure) -> (e: ErrorKind)
    ensures
        e == query_error(f),
{
    match f {
        QueryFailure::NoConnection => ErrorKind::NoConnection,
        _ => ErrorKind::MysqlError,
    }
}

/// The outcome of inserting a quote.
pub fn insert_quote(inserted: Result<(), QueryFailure>) -> (r: Result<(), ErrorKind>)
    ensures
        inserted is Ok ==> r is Ok,
        inserted matches Err(q) ==> r == Err::<(), ErrorKind>(query_error(q)),
{
    match inserted {
        Ok(()) => Ok(()),
        Err(q) => Err(query_error_of(q)),
    }
}

/// The outcome of any query that fetches one quote (by quotee, channel and
/// index; by channel and position; or by search): no match is a MySQL error.
pub fn fetched_quote(fetched: Result<Quote, QueryFailure>) -> (r: Result<Quote, ErrorKind>)
    ensures
        fetched matches Ok(v) ==> (r matches Ok(w) && w == v),
        fetched matches Err(q) ==> (r matches Err(e) && e == query_error(q)),
{
    match fetched {
        Ok(quote) => Ok(quote),
        Err(q) => Err(query_error_of(q)),
    }
}

/// How many quotes a channel's quote number `idx` skips (it counts from 1).
pub fn channel_quote_offset(idx: i32) -> (o: i64)
    ensures
        o == idx - 1,
{
    idx as i64 - 1
}

/// The number of quotes, from a count query: no row counts 0, and the count
/// is cut to an `i32` as `as` does.
pub fn count_quotes(counted: Result<i64, QueryFailure>) -> (r: Result<i32, ErrorKind>)
    ensures
        counted matches Ok(n) ==> r == Ok::<i32, ErrorKind>(n as i32),
        counted == Err::<i64, QueryFailure>(QueryFailure::NotFound) ==> r == Ok::<i32, ErrorKind>(0),
        counted matches Err(q) ==> (q != QueryFailure::NotFound ==> r == Err::<i32, ErrorKind>(
            query_error(q),
        )),
{
    match counted {
        Ok(n) => Ok(#[verifier::truncate] (n as i32)),
        Err(QueryFailure::NotFound) => Ok(0),
        Err(q) => Err(query_error_of(q)),
    }
}

/// The `LIKE` pattern a quote search uses: the query anywhere in the content.
/// `%` and `_` in the query keep their `LIKE` meaning.
pub fn search_pattern(query: &str) -> (p: String)
    ensures
        p@ == "%"@ + query@ + "%"@,
{
    let mut out: Vec<char> = Vec::new();
    push_str(&mut out, "%");
    push_str(&mut out, query);
    push_str(&mut out, "%");
    string_from_chars(out.as_slice())
}

} // verus!
