//! What the counter plugin does with a count it looked up: what to write back
//! and what to answer.
use vstd::prelude::*;

use super::error::ErrorKind;
use super::CounterOp;
use crate::plugin::QueryFailure;
use crate::text::{i64_text, int_text, string_from_chars};

verus! {

/// The row to write for a counter.
#[derive(Clone, Copy, Debug, PartialEq, Eq, Structural)]
pub enum CounterWrite {
    /// Set the count of the existing row.
    Update(i64),
    /// Insert a new row with this count.
    Insert(i64),
}

/// What to write after a lookup, and the count to answer.
#[derive(Clone, Copy, Debug, PartialEq, Eq, Structural)]
pub struct CounterPlan {
    pub write: Option<CounterWrite>,
    pub count: i64,
}

/// The lookup of the counter's row gives a count the operation can move
/// without leaving `i64`.
pub open spec fn lookup_in_range(op: CounterOp, lookup: Result<i64, QueryFailure>) -> bool {
    match lookup {
        Ok(c) => match op {
            CounterOp::Increment => c < i64::MAX,
            CounterOp::Decrement => c > i64::MIN,
            CounterOp::Show => true,
        },
        Err(_) => true,
    }
}

/// What `add`, `subtract` and `get_count` decide after looking up the row:
/// an existing count moves by one and is updated, a missing row starts at
/// 1 or -1 (or reads as 0), a lost connection or a failed query is an error.
pub open spec fn counter_plan(op: CounterOp, lookup: Result<i64, QueryFailure>) -> Result<
    CounterPlan,
    ErrorKind,
> {
    match lookup {
        Ok(c) => match op {
            CounterOp::Increment => Ok(
                CounterPlan { write: Some(CounterWrite::Update((c + 1) as i64)), count: (c + 1) as i64 },
            ),
            CounterOp::Decrement => Ok(
                CounterPlan { write: Some(CounterWrite::Update((c - 1) as i64)), count: (c - 1) as i64 },
            ),
            CounterOp::Show => Ok(CounterPlan { write: None, count: c }),
        },
        Err(QueryFailure::NotFound) => match op {
            CounterOp::Increment => Ok(CounterPlan { write: Some(CounterWrite::Insert(1)), count: 1 }),
            CounterOp::Decrement => Ok(
                CounterPlan { write: Some(CounterWrite::Insert(-1i64)), count: -1i64 },
            ),
            CounterOp::Show => Ok(CounterPlan { write: None, count: 0 }),
        },
        Err(QueryFailure::NoConnection) => Err(ErrorKind::NoConnection),
        Err(QueryFailure::Failed) => Err(ErrorKind::MysqlError),
    }
}

/// Whether [`plan`] can take this lookup: the count can move without leaving
/// `i64` (where `count += 1` or `count -= 1` would overflow).
pub fn in_range(op: CounterOp, lookup: Result<i64, QueryFailure>) -> (r: bool)
    ensures
        r == lookup_in_range(op, lookup),
{
    match lookup {
        Ok(c) => match op {
            CounterOp::Increment => c < i64::MAX,
            CounterOp::Decrement => c > i64::MIN,
            CounterOp::Show => true,
        },
        Err(_) => true,
    }
}

/// Decides what to write and answer, given the lookup of the counter's row.
pub fn plan(op: CounterOp, lookup: Result<i64, QueryFailure>) -> (r: Result<CounterPlan, ErrorKind>)
    requires
        lookup_in_range(op, lookup),
    ensures
        r == counter_plan(op, lookup),
{
    match lookup {
        Ok(c) => match op {
            CounterOp::Increment => Ok(
                CounterPlan { write: Some(CounterWrite::Update(c + 1)), count: c + 1 },
            ),
            CounterOp::Decrement => Ok(
                CounterPlan { write: Some(CounterWrite::Update(c - 1)), count: c - 1 },
            ),
            CounterOp::Show => Ok(CounterPlan { write: None, count: c }),
        },
        Err(QueryFailure::NotFound) => match op {
            CounterOp::Increment => Ok(CounterPlan { write: Some(CounterWrite::Insert(1)), count: 1 }),
            CounterOp::Decrement => Ok(
                CounterPlan { write: Some(CounterWrite::Insert(-1)), count: -1 },
            ),
            CounterOp::Show => Ok(CounterPlan { write: None, count: 0 }),
        },
        Err(QueryFailure::NoConnection) => Err(ErrorKind::NoConnection),
        Err(QueryFailure::Failed) => Err(ErrorKind::MysqlError),
    }
}

/// The answer once the planned write (if any) has run: the count as decimal
/// text, or a MySQL error if the write failed.
pub fn finish(plan: &CounterPlan, written: Result<(), QueryFailure>) -> (r: Result<String, ErrorKind>)
    ensures
        plan.write is None || written is Ok ==> (r matches Ok(s) && s@ == int_text(plan.count as int)),
        plan.write is Some && written is Err ==> r == Err::<String, ErrorKind>(ErrorKind::MysqlError),
{
    if plan.write.is_some() && written.is_err() {
        return Err(ErrorKind::MysqlError);
    }
    let t = i64_text(plan.count);
    Ok(string_from_chars(t.as_slice()))
}

// ---------------------------------------------------------------------------
// The counter as a stored value
// ---------------------------------------------------------------------------

/// What looking up a counter's row gives when the row holds `stored`
/// (`None`: there is no row).
pub open spec fn lookup_of(stored: Option<i64>) -> Result<i64, QueryFailure> {
    match stored {
        Some(c) => Ok(c),
        None => Err(QueryFailure::NotFound),
    }
}

/// The row after the planned write has run.
pub open spec fn stored_after(plan: CounterPlan, stored: Option<i64>) -> Option<i64> {
    match plan.write {
        Some(CounterWrite::Update(v)) => Some(v),
        Some(CounterWrite::Insert(v)) => Some(v),
        None => stored,
    }
}

/// The count a row shows: a missing row counts 0.
pub open spec fn shown(stored: Option<i64>) -> int {
    match stored {
        Some(c) => c as int,
        None => 0,
    }
}

/// How much an operation moves a count.
pub open spec fn delta(op: CounterOp) -> int {
    match op {
        CounterOp::Increment => 1,
        CounterOp::Decrement => -1,
        CounterOp::Show => 0,
    }
}

/// Every operation answers the count that the row shows afterwards, which is
/// the count before moved by one (or not at all for `==`); only `==` writes
/// nothing, and a row is inserted only where none existed.
pub proof fn law_answer_is_stored_count(op: CounterOp, stored: Option<i64>)
    requires
        lookup_in_range(op, lookup_of(stored)),
    ensures
        counter_plan(op, lookup_of(stored)) is Ok,
        ({
            let p = counter_plan(op, lookup_of(stored))->Ok_0;
            &&& p.count == shown(stored_after(p, stored))
            &&& p.count == shown(stored) + delta(op)
            &&& (p.write is None <==> op == CounterOp::Show)
            &&& (p.write matches Some(CounterWrite::Insert(_)) ==> stored is None)
        }),
{
}

/// `name++` followed by `name--` leaves the shown count as it was.
pub proof fn law_increment_then_decrement(stored: Option<i64>)
    requires
        lookup_in_range(CounterOp::Increment, lookup_of(stored)),
    ensures
        ({
            let p1 = counter_plan(CounterOp::Increment, lookup_of(stored))->Ok_0;
            let s1 = stored_after(p1, stored);
            let p2 = counter_plan(CounterOp::Decrement, lookup_of(s1))->Ok_0;
            &&& lookup_in_range(CounterOp::Decrement, lookup_of(s1))
            &&& shown(stored_after(p2, s1)) == shown(stored)
        }),
{
}

/// `name--` followed by `name++` leaves the shown count as it was.
pub proof fn law_decrement_then_increment(stored: Option<i64>)
    requires
        lookup_in_range(CounterOp::Decrement, lookup_of(stored)),
    ensures
        ({
            let p1 = counter_plan(CounterOp::Decrement, lookup_of(stored))->Ok_0;
            let s1 = stored_after(p1, stored);
            let p2 = counter_plan(CounterOp::Increment, lookup_of(s1))->Ok_0;
            &&& lookup_in_range(CounterOp::Increment, lookup_of(s1))
            &&& shown(stored_after(p2, s1)) == shown(stored)
        }),
{
}

} // verus!
