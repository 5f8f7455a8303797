use std::collections::HashMap;

use frippy::datetime::DateTime;
use frippy::plugin::{ExecutionStatus, PluginCommand, QueryFailure};
use frippy::plugins::factoid::database::{
    count_factoids, delete_factoid, get_factoid, get_lua_value, insert_factoid, set_lua_value,
    Factoid as Row,
};
use frippy::plugins::factoid::error::ErrorKind;
use frippy::plugins::factoid::utils::LuaFailure;
use frippy::plugins::factoid::{Factoid, FactoidEvent, FactoidRequest, FactoidStep, FactoidTask};

fn when() -> DateTime {
    DateTime { year: 2020, month: 1, day: 2, hour: 3, minute: 4, second: 5, nanosecond: 0 }
}

fn cmd(words: &[&str]) -> PluginCommand {
    PluginCommand {
        source: "alice".to_string(),
        target: "#chan".to_string(),
        tokens: words.iter().map(|w| w.to_string()).collect(),
    }
}

/// A table of factoid versions standing in for the database.
struct Table {
    rows: HashMap<String, Vec<Row>>,
    scripts_run: Vec<(String, String, Vec<String>, String)>,
    script_result: Result<String, LuaFailure>,
    download: Option<String>,
}

impl Table {
    fn new() -> Table {
        Table {
            rows: HashMap::new(),
            scripts_run: Vec::new(),
            script_result: Ok(String::new()),
            download: None,
        }
    }

    fn answer(&mut self, request: FactoidRequest) -> FactoidEvent {
        match request {
            FactoidRequest::CountFactoids { name } => {
                let n = self.rows.get(&name).map(|v| v.len()).unwrap_or(0) as i64;
                FactoidEvent::Counted(count_factoids(Ok(n)))
            }
            FactoidRequest::GetFactoid { name, idx } => {
                let row = self
                    .rows
                    .get(&name)
                    .and_then(|v| if idx >= 0 { v.get(idx as usize) } else { None })
                    .map(|r| Row {
                        name: r.name.clone(),
                        idx: r.idx,
                        content: r.content.clone(),
                        author: r.author.clone(),
                        created: r.created,
                    })
                    .ok_or(QueryFailure::NotFound);
                FactoidEvent::Fetched(get_factoid(row))
            }
            FactoidRequest::DeleteFactoid { name, idx } => {
                let versions = self.rows.entry(name).or_default();
                let deleted = if idx >= 0 && (idx as usize) + 1 == versions.len() {
                    versions.pop();
                    1
                } else {
                    0
                };
                FactoidEvent::Deleted(delete_factoid(Ok(deleted)))
            }
            FactoidRequest::ReadClock => FactoidEvent::Clock(when()),
            FactoidRequest::InsertFactoid { factoid } => {
                let versions = self.rows.entry(factoid.name.clone()).or_default();
                let outcome = if factoid.idx as usize == versions.len() {
                    versions.push(Row {
                        name: factoid.name,
                        idx: factoid.idx,
                        content: factoid.content,
                        author: factoid.author,
                        created: factoid.created,
                    });
                    Ok(())
                } else {
                    Err(QueryFailure::Failed)
                };
                FactoidEvent::Inserted(insert_factoid(outcome))
            }
            FactoidRequest::Download { url: _ } => FactoidEvent::Downloaded(self.download.clone()),
            FactoidRequest::RunLua { name, code, inputs } => {
                self.scripts_run.push((name, code, inputs.args, inputs.input));
                let result = match &self.script_result {
                    Ok(s) => Ok(s.clone()),
                    Err(LuaFailure::OutOfMemory) => Err(LuaFailure::OutOfMemory),
                    Err(LuaFailure::Callback { cause_out_of_memory, cause_text }) => {
                        Err(LuaFailure::Callback {
                            cause_out_of_memory: *cause_out_of_memory,
                            cause_text: cause_text.clone(),
                        })
                    }
                    Err(LuaFailure::Other { text }) => Err(LuaFailure::Other { text: text.clone() }),
                };
                FactoidEvent::LuaFinished(result)
            }
        }
    }

    fn drive(&mut self, f: &Factoid, start: (FactoidTask, FactoidStep)) -> Result<String, ErrorKind> {
        let (mut task, mut step) = start;
        loop {
            match step {
                FactoidStep::Reply(r) => return r,
                FactoidStep::Request(request) => {
                    let event = self.answer(request);
                    let (t, s) = f.resume(task, event);
                    task = t;
                    step = s;
                }
            }
        }
    }

    fn command(&mut self, f: &Factoid, words: &[&str]) -> Result<String, ErrorKind> {
        let start = f.command(cmd(words));
        self.drive(f, start)
    }
}

#[test]
fn add_then_get_shows_latest() {
    let f = Factoid::new();
    let mut t = Table::new();
    assert_eq!(t.command(&f, &["add", "greet", "hello", "world"]), Ok("Successfully added!".to_string()));
    assert_eq!(t.command(&f, &["get", "greet"]), Ok("greet: hello world".to_string()));
    assert_eq!(t.command(&f, &["add", "greet", "hi"]), Ok("Successfully added!".to_string()));
    assert_eq!(t.command(&f, &["get", "greet"]), Ok("greet: hi".to_string()));
    assert_eq!(t.command(&f, &["get", "greet", "0"]), Ok("greet: hello world".to_string()));
    let stored = &t.rows["greet"];
    assert_eq!(stored.len(), 2);
    assert_eq!(stored[1].idx, 1);
    assert_eq!(stored[1].author, "alice");
    assert_eq!(stored[1].created, when());
}

#[test]
fn get_flattens_and_cuts() {
    let f = Factoid::new();
    let mut t = Table::new();
    t.rows.insert(
        "lines".to_string(),
        vec![Row {
            name: "lines".to_string(),
            idx: 0,
            content: "a\r\nb\nc".to_string(),
            author: "bob".to_string(),
            created: when(),
        }],
    );
    assert_eq!(t.command(&f, &["get", "lines"]), Ok("lines: a|b|c".to_string()));
    let long = "x".repeat(600);
    t.rows.get_mut("lines").unwrap()[0].content = long;
    let expected = format!("lines: {}", "x".repeat(512));
    assert_eq!(t.command(&f, &["get", "lines"]), Ok(expected));
}

#[test]
fn get_errors() {
    let f = Factoid::new();
    let mut t = Table::new();
    assert_eq!(t.command(&f, &["get"]), Err(ErrorKind::InvalidCommand));
    assert_eq!(t.command(&f, &["get", "nothing"]), Err(ErrorKind::NotFound));
    assert_eq!(t.command(&f, &["get", "nothing", "x"]), Err(ErrorKind::InvalidCommand));
    assert_eq!(t.command(&f, &["get", "nothing", "3"]), Err(ErrorKind::NotFound));
}

#[test]
fn remove_deletes_last_version() {
    let f = Factoid::new();
    let mut t = Table::new();
    t.command(&f, &["add", "n", "one"]).unwrap();
    t.command(&f, &["add", "n", "two"]).unwrap();
    assert_eq!(t.command(&f, &["remove", "n"]), Ok("Successfully removed".to_string()));
    assert_eq!(t.command(&f, &["get", "n"]), Ok("n: one".to_string()));
    assert_eq!(t.command(&f, &["remove", "n"]), Ok("Successfully removed".to_string()));
    assert_eq!(t.command(&f, &["remove", "n"]), Err(ErrorKind::NotFound));
    assert_eq!(t.command(&f, &["remove"]), Err(ErrorKind::InvalidCommand));
}

#[test]
fn info_tells_versions_and_author() {
    let f = Factoid::new();
    let mut t = Table::new();
    assert_eq!(t.command(&f, &["info", "n"]), Err(ErrorKind::NotFound));
    t.command(&f, &["add", "n", "one"]).unwrap();
    assert_eq!(t.command(&f, &["info", "n"]), Ok("There is 1 version of n".to_string()));
    t.command(&f, &["add", "n", "two"]).unwrap();
    assert_eq!(t.command(&f, &["info", "n"]), Ok("There are 2 versions of n".to_string()));
    assert_eq!(
        t.command(&f, &["info", "n", "1"]),
        Ok("n: Added by alice at 2020-01-02 3:04:05.0 UTC".to_string())
    );
    assert_eq!(t.command(&f, &["info", "n", "one"]), Err(ErrorKind::InvalidIndex));
    assert_eq!(t.command(&f, &["info", "n", "9"]), Err(ErrorKind::MysqlError));
    assert_eq!(t.command(&f, &["info"]), Err(ErrorKind::InvalidCommand));
}

#[test]
fn other_subcommands() {
    let f = Factoid::new();
    let mut t = Table::new();
    assert_eq!(t.command(&f, &[]), Ok("Invalid command".to_string()));
    assert_eq!(t.command(&f, &["frobnicate"]), Err(ErrorKind::InvalidCommand));
    assert_eq!(t.command(&f, &["add", "only-name"]), Err(ErrorKind::InvalidCommand));
    assert_eq!(
        t.command(&f, &["help"]),
        Ok("usage: factoids <subcommand>\r\nsubcommands: add, fromurl, remove, get, info, exec, help".to_string())
    );
    assert_eq!(f.help(), "usage: factoids <subcommand>\r\nsubcommands: add, fromurl, remove, get, info, exec, help");
    assert_eq!(
        f.evaluate(),
        Err("Evaluation of commands is not implemented for Factoid at this time".to_string())
    );
}

#[test]
fn fromurl_stores_download() {
    let f = Factoid::new();
    let mut t = Table::new();
    assert_eq!(t.command(&f, &["fromurl", "page", "http://example.org"]), Err(ErrorKind::Download));
    t.download = Some("downloaded text".to_string());
    assert_eq!(
        t.command(&f, &["fromurl", "page", "http://example.org"]),
        Ok("Successfully added!".to_string())
    );
    assert_eq!(t.command(&f, &["get", "page"]), Ok("page: downloaded text".to_string()));
    assert_eq!(t.command(&f, &["fromurl", "page"]), Err(ErrorKind::InvalidCommand));
}

#[test]
fn exec_shows_plain_and_quoted_content() {
    let f = Factoid::new();
    let mut t = Table::new();
    t.command(&f, &["add", "plain", "just", "text"]).unwrap();
    assert_eq!(t.command(&f, &["exec", "plain"]), Ok("just text".to_string()));
    t.command(&f, &["add", "quoted", ">>not", "code"]).unwrap();
    assert_eq!(t.command(&f, &["exec", "quoted"]), Ok(">not code".to_string()));
    assert!(t.scripts_run.is_empty());
    assert_eq!(t.command(&f, &["exec"]), Err(ErrorKind::InvalidIndex));
}

#[test]
fn exec_runs_scripts() {
    let f = Factoid::new();
    let mut t = Table::new();
    t.command(&f, &["add", "script", ">output[1]", "=", "input"]).unwrap();
    t.script_result = Ok("line1\nline2".to_string());
    assert_eq!(t.command(&f, &["exec", "script", "a", "", "b"]), Ok("line1|line2".to_string()));
    let (name, code, args, input) = &t.scripts_run[0];
    assert_eq!(name, "script");
    assert_eq!(code, "output[1] = input");
    assert_eq!(args, &vec!["a".to_string(), "b".to_string()]);
    assert_eq!(input, "a  b");
}

#[test]
fn exec_reports_script_failures() {
    let f = Factoid::new();
    let mut t = Table::new();
    t.command(&f, &["add", "s", ">x"]).unwrap();
    t.script_result = Err(LuaFailure::OutOfMemory);
    assert_eq!(
        t.command(&f, &["exec", "s"]),
        Ok("memory error: Factoid used over 1 MiB of ram".to_string())
    );
    t.script_result = Err(LuaFailure::Callback { cause_out_of_memory: true, cause_text: "x".to_string() });
    assert_eq!(
        t.command(&f, &["exec", "s"]),
        Ok("memory error: Factoid used over 1 MiB of ram".to_string())
    );
    t.script_result = Err(LuaFailure::Callback { cause_out_of_memory: false, cause_text: "boom".to_string() });
    assert_eq!(t.command(&f, &["exec", "s"]), Ok("boom".to_string()));
    t.script_result = Err(LuaFailure::Other { text: "syntax\r\nerror".to_string() });
    assert_eq!(t.command(&f, &["exec", "s"]), Ok("syntax|error".to_string()));
    t.script_result = Ok("y".repeat(500));
    assert_eq!(t.command(&f, &["exec", "s"]), Ok("y".repeat(412)));
}

#[test]
fn bang_messages_run_factoids() {
    let f = Factoid::new();
    assert_eq!(f.execute("!greet"), ExecutionStatus::RequiresThread);
    assert_eq!(f.execute("greet"), ExecutionStatus::Done);
    assert_eq!(f.execute(""), ExecutionStatus::Done);
    let c = f.threaded_command("!greet a  b", "bob".to_string(), "#c".to_string());
    assert_eq!(c.tokens, vec!["greet", "a", "", "b"]);
    assert_eq!(c.source, "bob");
    assert_eq!(c.target, "#c");
    let mut t = Table::new();
    t.command(&f, &["add", "greet", ">code"]).unwrap();
    let start = f.exec(c);
    assert_eq!(t.drive(&f, start), Ok(String::new()));
    assert_eq!(t.scripts_run[0].3, "a  b");
}

#[test]
fn query_outcomes() {
    assert_eq!(count_factoids(Ok(3)), Ok(3));
    assert_eq!(count_factoids(Err(QueryFailure::NotFound)), Ok(0));
    assert_eq!(count_factoids(Err(QueryFailure::NoConnection)), Err(ErrorKind::NoConnection));
    assert_eq!(count_factoids(Ok(4294967297)), Ok(1));
    assert_eq!(delete_factoid(Ok(0)), Err(ErrorKind::NotFound));
    assert_eq!(delete_factoid(Ok(2)), Ok(()));
    assert_eq!(delete_factoid(Err(QueryFailure::Failed)), Err(ErrorKind::MysqlError));
    assert!(matches!(get_factoid(Err(QueryFailure::NotFound)), Err(ErrorKind::MysqlError)));
    assert_eq!(insert_factoid(Err(QueryFailure::Failed)), Err(ErrorKind::MysqlError));
    assert_eq!(get_lua_value(Err(QueryFailure::NotFound)), Ok(None));
    assert_eq!(get_lua_value(Ok("v".to_string())), Ok(Some("v".to_string())));
    assert_eq!(set_lua_value(Err(QueryFailure::NoConnection)), Err(ErrorKind::NoConnection));
    assert_eq!(ErrorKind::NotFound.message(), "Factoid was not found");
    assert_eq!(ErrorKind::InvalidCommand.message(), "Invalid Command");
}

#[test]
fn adds_keep_versions_numbered() {
    let f = Factoid::new();
    let mut t = Table::new();
    for words in [
        &["add", "a", "one"][..],
        &["add", "b", "two"][..],
        &["add", "a", "three"][..],
        &["remove", "a"][..],
        &["add", "a", "four"][..],
        &["add", "a", "five"][..],
    ] {
        assert!(t.command(&f, words).is_ok());
    }
    for (name, count) in [("a", 3), ("b", 1)] {
        let rows = &t.rows[name];
        assert_eq!(rows.len(), count);
        for (i, row) in rows.iter().enumerate() {
            assert_eq!(row.idx as usize, i);
        }
    }

    // An insert under a number already taken is refused and changes nothing.
    let (task, _) = f.command(cmd(&["add", "a", "late"]));
    let (task, _) = f.resume(task, FactoidEvent::Counted(Ok(1)));
    let (task, step) = f.resume(task, FactoidEvent::Clock(when()));
    let event = match step {
        FactoidStep::Request(request) => t.answer(request),
        FactoidStep::Reply(r) => panic!("no insert asked: {:?}", r),
    };
    let (_, step) = f.resume(task, event);
    assert!(matches!(step, FactoidStep::Reply(Err(_))));
    assert_eq!(t.rows["a"].len(), 3);
    assert_eq!(t.rows["a"][1].content, "four");
}
