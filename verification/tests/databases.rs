use frippy::datetime::DateTime;
use frippy::plugin::QueryFailure;
use frippy::plugins::quote::database as quote;
use frippy::plugins::remind::database as remind;
use frippy::plugins::tell::database as tell;

fn when() -> DateTime {
    DateTime { year: 2021, month: 12, day: 31, hour: 23, minute: 59, second: 58, nanosecond: 0 }
}

#[test]
fn quote_queries() {
    assert_eq!(quote::channel_quote_offset(1), 0);
    assert_eq!(quote::channel_quote_offset(i32::MIN), i32::MIN as i64 - 1);
    assert_eq!(quote::search_pattern("cat"), "%cat%");
    assert_eq!(quote::search_pattern(""), "%%");
    assert_eq!(quote::count_quotes(Ok(12)), Ok(12));
    assert_eq!(quote::count_quotes(Err(QueryFailure::NotFound)), Ok(0));
    assert_eq!(quote::count_quotes(Err(QueryFailure::Failed)), Err(quote::ErrorKind::MysqlError));
    assert_eq!(quote::insert_quote(Err(QueryFailure::NoConnection)), Err(quote::ErrorKind::NoConnection));
    assert!(quote::insert_quote(Ok(())).is_ok());
    assert!(matches!(
        quote::fetched_quote(Err(QueryFailure::NotFound)),
        Err(quote::ErrorKind::MysqlError)
    ));
}

#[test]
fn reminders() {
    let e = remind::Event {
        id: 7,
        receiver: "alice".to_string(),
        content: "water the plants".to_string(),
        author: "bob".to_string(),
        time: when(),
        repeat: None,
    };
    assert_eq!(
        e.describe(),
        "7: bob reminds alice to \"water the plants\" at 2021-12-31 23:59:58"
    );
    assert_eq!(remind::LAST_ID_SQL, "SELECT LAST_INSERT_ID()");
    assert_eq!(remind::inserted_event(Ok(()), Ok(42)), Ok(42));
    assert_eq!(
        remind::inserted_event(Err(QueryFailure::Failed), Ok(42)),
        Err(remind::ErrorKind::MysqlError)
    );
    assert_eq!(remind::changed_event(Ok(0)), Err(remind::ErrorKind::NotFound));
    assert_eq!(remind::changed_event(Ok(1)), Ok(()));
    assert_eq!(remind::changed_event(Err(QueryFailure::NoConnection)), Err(remind::ErrorKind::NoConnection));
    assert!(matches!(remind::loaded_events(Ok(vec![])), Ok(v) if v.is_empty()));
    assert!(matches!(
        remind::fetched_event(Err(QueryFailure::NotFound)),
        Err(remind::ErrorKind::MysqlError)
    ));
}

#[test]
fn tells() {
    assert_eq!(tell::written(Ok(())), Ok(()));
    assert_eq!(tell::written(Err(QueryFailure::Failed)), Err(tell::ErrorKind::MysqlError));
    let m = tell::TellMessage {
        id: 1,
        sender: "a".to_string(),
        receiver: "b".to_string(),
        time: when(),
        message: "hi".to_string(),
    };
    assert_eq!(tell::loaded_tells(Ok(vec![m.clone()])), Ok(vec![m]));
    assert_eq!(
        tell::loaded_receivers(Err(QueryFailure::NoConnection)),
        Err(tell::ErrorKind::NoConnection)
    );
}
