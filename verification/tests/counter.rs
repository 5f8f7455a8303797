use frippy::plugin::{ExecutionStatus, QueryFailure};
use frippy::plugins::counter::database::{finish, plan, CounterPlan, CounterWrite};
use frippy::plugins::counter::error::ErrorKind;
use frippy::plugins::counter::{Counter, CounterOp};

#[test]
fn counter_messages_need_a_thread() {
    let c = Counter::new();
    assert_eq!(c.execute("rust++"), ExecutionStatus::RequiresThread);
    assert_eq!(c.execute("rust--"), ExecutionStatus::RequiresThread);
    assert_eq!(c.execute("rust=="), ExecutionStatus::RequiresThread);
    assert_eq!(c.execute("é++"), ExecutionStatus::RequiresThread);
}

#[test]
fn other_messages_are_ignored() {
    let c = Counter::new();
    assert_eq!(c.execute("++"), ExecutionStatus::Done);
    assert_eq!(c.execute("a+"), ExecutionStatus::Done);
    assert_eq!(c.execute("hello world++"), ExecutionStatus::Done);
    assert_eq!(c.execute("rust+-"), ExecutionStatus::Done);
    assert_eq!(c.execute(""), ExecutionStatus::Done);
    assert_eq!(c.execute("rust"), ExecutionStatus::Done);
}

#[test]
fn counter_message_splits_into_name_and_op() {
    let c = Counter::new();
    let r = c.request("rust++");
    assert_eq!(r.name, "rust");
    assert_eq!(r.op, CounterOp::Increment);
    let r = c.request("a--");
    assert_eq!(r.name, "a");
    assert_eq!(r.op, CounterOp::Decrement);
    let r = c.request("é==");
    assert_eq!(r.name, "é");
    assert_eq!(r.op, CounterOp::Show);
}

#[test]
fn increment_updates_existing_row() {
    let p = plan(CounterOp::Increment, Ok(41)).unwrap();
    assert_eq!(p, CounterPlan { write: Some(CounterWrite::Update(42)), count: 42 });
    assert_eq!(finish(&p, Ok(())), Ok("42".to_string()));
}

#[test]
fn missing_row_is_inserted() {
    let p = plan(CounterOp::Increment, Err(QueryFailure::NotFound)).unwrap();
    assert_eq!(p, CounterPlan { write: Some(CounterWrite::Insert(1)), count: 1 });
    let p = plan(CounterOp::Decrement, Err(QueryFailure::NotFound)).unwrap();
    assert_eq!(p, CounterPlan { write: Some(CounterWrite::Insert(-1)), count: -1 });
    assert_eq!(finish(&p, Ok(())), Ok("-1".to_string()));
}

#[test]
fn show_reads_without_writing() {
    let p = plan(CounterOp::Show, Err(QueryFailure::NotFound)).unwrap();
    assert_eq!(p, CounterPlan { write: None, count: 0 });
    assert_eq!(finish(&p, Err(QueryFailure::Failed)), Ok("0".to_string()));
    let p = plan(CounterOp::Show, Ok(-7)).unwrap();
    assert_eq!(finish(&p, Ok(())), Ok("-7".to_string()));
}

#[test]
fn counter_errors() {
    assert_eq!(plan(CounterOp::Increment, Err(QueryFailure::NoConnection)), Err(ErrorKind::NoConnection));
    assert_eq!(plan(CounterOp::Show, Err(QueryFailure::Failed)), Err(ErrorKind::MysqlError));
    let p = plan(CounterOp::Decrement, Ok(3)).unwrap();
    assert_eq!(finish(&p, Err(QueryFailure::Failed)), Err(ErrorKind::MysqlError));
    assert_eq!(ErrorKind::MysqlError.message(), "Failed to execute MySQL Query");
    assert_eq!(ErrorKind::NoConnection.message(), "No connection to the database");
}

#[test]
fn increment_then_decrement_restores_count() {
    // A small table standing in for the database.
    let mut stored: Option<i64> = Some(5);
    for op in [CounterOp::Increment, CounterOp::Decrement] {
        let lookup = stored.ok_or(QueryFailure::NotFound);
        let p = plan(op, lookup).unwrap();
        match p.write {
            Some(CounterWrite::Update(v)) | Some(CounterWrite::Insert(v)) => stored = Some(v),
            None => {}
        }
    }
    assert_eq!(stored, Some(5));
    let p = plan(CounterOp::Show, stored.ok_or(QueryFailure::NotFound)).unwrap();
    assert_eq!(finish(&p, Ok(())), Ok("5".to_string()));
}

#[test]
fn extreme_counts_are_written_in_full() {
    let p = plan(CounterOp::Show, Ok(i64::MIN)).unwrap();
    assert_eq!(finish(&p, Ok(())), Ok("-9223372036854775808".to_string()));
    let p = plan(CounterOp::Increment, Ok(i64::MAX - 1)).unwrap();
    assert_eq!(finish(&p, Ok(())), Ok("9223372036854775807".to_string()));
}

#[test]
fn counter_has_no_commands() {
    let c = Counter::new();
    assert_eq!(c.command(), "This Plugin does not implement any commands.");
    assert_eq!(
        c.evaluate(),
        Err("Evaluation of commands is not implemented for Factoid at this time".to_string())
    );
}
