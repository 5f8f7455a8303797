//! Factoids: named texts, kept in numbered versions, that channel users add,
//! read, remove and run as scripts.
//!
//! A factoid command needs the database, a download or a script run between
//! its decisions. [`Factoid::command`] and [`Factoid::exec`] start a command
//! and say what to do first; the caller does it and hands the outcome to
//! [`Factoid::resume`], which says what to do next, until a reply comes out.
use vstd::prelude::*;

use self::database::{Factoid as Record, FactoidView, NewFactoid};
use self::error::ErrorKind;
use self::utils::{
    lua_failure_message, lua_failure_text, lua_failure_text_of, lua_inputs, lua_inputs_for,
    LuaFailure, LuaFailureView, LuaInputs, LuaInputsView,
};
use crate::datetime::{time_datetime_text, time_text, DateTime};
use crate::plugin::{ExecutionStatus, PluginCommand, PluginCommandView};
use crate::text::{
    chars_equal, chars_of, cuts_cleanly, flatten_line_breaks, flatten_lines, i32_text, int_text, join_with,
    join_words, parse_i32, parse_i32_chars, push_chars, push_str, split_on, split_spaces,
    string_from_chars, suffix_chars, truncate_chars, truncated, truncates_cleanly, views,
};

pub mod database;
pub mod error;
pub mod json;
pub mod laws;
pub mod utils;

verus! {

// ---------------------------------------------------------------------------
// Requests, outcomes and replies
// ---------------------------------------------------------------------------

/// Work the plugin needs done before it can go on.
pub enum FactoidRequest {
    /// Count the versions of a factoid.
    CountFactoids { name: String },
    /// Fetch version `idx` of a factoid.
    GetFactoid { name: String, idx: i32 },
    /// Delete version `idx` of a factoid.
    DeleteFactoid { name: String, idx: i32 },
    /// Read the current time (UTC).
    ReadClock,
    /// Store a new version.
    InsertFactoid { factoid: NewFactoid },
    /// Download the text at `url` (at most 1024 KiB).
    Download { url: String },
    /// Run the script `code` of factoid `name` with the given globals.
    RunLua { name: String, code: String, inputs: LuaInputs },
}

/// The contents of a [`FactoidRequest`].
pub enum FactoidRequestView {
    CountFactoids { name: Seq<char> },
    GetFactoid { name: Seq<char>, idx: i32 },
    DeleteFactoid { name: Seq<char>, idx: i32 },
    ReadClock,
    InsertFactoid { factoid: FactoidView },
    Download { url: Seq<char> },
    RunLua { name: Seq<char>, code: Seq<char>, inputs: LuaInputsView },
}

impl View for FactoidRequest {
    type V = FactoidRequestView;

    open spec fn view(&self) -> FactoidRequestView {
        match self {
            FactoidRequest::CountFactoids { name } => FactoidRequestView::CountFactoids { name: name@ },
            FactoidRequest::GetFactoid { name, idx } => FactoidRequestView::GetFactoid {
                name: name@,
                idx: *idx,
            },
            FactoidRequest::DeleteFactoid { name, idx } => FactoidRequestView::DeleteFactoid {
                name: name@,
                idx: *idx,
            },
            FactoidRequest::ReadClock => FactoidRequestView::ReadClock,
            FactoidRequest::InsertFactoid { factoid } => FactoidRequestView::InsertFactoid {
                factoid: factoid@,
            },
            FactoidRequest::Download { url } => FactoidRequestView::Download { url: url@ },
            FactoidRequest::RunLua { name, code, inputs } => FactoidRequestView::RunLua {
                name: name@,
                code: code@,
                inputs: inputs@,
            },
        }
    }
}

/// The outcome of a [`FactoidRequest`].
pub enum FactoidEvent {
    Counted(Result<i32, ErrorKind>),
    Fetched(Result<Record, ErrorKind>),
    Deleted(Result<(), ErrorKind>),
    Clock(DateTime),
    Inserted(Result<(), ErrorKind>),
    /// The downloaded text, or `None` when the download failed.
    Downloaded(Option<String>),
    LuaFinished(Result<String, LuaFailure>),
}

/// The contents of a [`FactoidEvent`].
pub enum FactoidEventView {
    Counted(Result<i32, ErrorKind>),
    Fetched(Result<FactoidView, ErrorKind>),
    Deleted(Result<(), ErrorKind>),
    Clock(DateTime),
    Inserted(Result<(), ErrorKind>),
    Downloaded(Option<Seq<char>>),
    LuaFinished(Result<Seq<char>, LuaFailureView>),
}

impl View for FactoidEvent {
    type V = FactoidEventView;

    open spec fn view(&self) -> FactoidEventView {
        match self {
            FactoidEvent::Counted(r) => FactoidEventView::Counted(*r),
            FactoidEvent::Fetched(r) => FactoidEventView::Fetched(
                match r {
                    Ok(f) => Ok(f@),
                    Err(e) => Err(*e),
                },
            ),
            FactoidEvent::Deleted(r) => FactoidEventView::Deleted(*r),
            FactoidEvent::Clock(t) => FactoidEventView::Clock(*t),
            FactoidEvent::Inserted(r) => FactoidEventView::Inserted(*r),
            FactoidEvent::Downloaded(d) => FactoidEventView::Downloaded(
                match d {
                    Some(s) => Some(s@),
                    None => None,
                },
            ),
            FactoidEvent::LuaFinished(r) => FactoidEventView::LuaFinished(
                match r {
                    Ok(s) => Ok(s@),
                    Err(f) => Err(f@),
                },
            ),
        }
    }
}

/// What the plugin wants next: some work done, or the reply to send.
pub enum FactoidStep {
    Request(FactoidRequest),
    Reply(Result<String, ErrorKind>),
}

/// The contents of a [`FactoidStep`].
pub enum FactoidStepView {
    Request(FactoidRequestView),
    Reply(Result<Seq<char>, ErrorKind>),
}

impl View for FactoidStep {
    type V = FactoidStepView;

    open spec fn view(&self) -> FactoidStepView {
        match self {
            FactoidStep::Request(r) => FactoidStepView::Request(r@),
            FactoidStep::Reply(r) => FactoidStepView::Reply(
                match r {
                    Ok(s) => Ok(s@),
                    Err(e) => Err(*e),
                },
            ),
        }
    }
}

/// Where a factoid command stands: what it waits for, and what it keeps.
pub enum FactoidTask {
    AddAwaitCount { name: String, content: String, author: String },
    AddAwaitClock { name: String, idx: i32, content: String, author: String },
    AddAwaitInsert,
    FromUrlAwaitDownload { name: String, author: String },
    RemoveAwaitCount { name: String },
    RemoveAwaitDelete,
    GetAwaitCount { name: String },
    GetAwaitFactoid,
    InfoAwaitCount { name: String },
    InfoAwaitFactoid { name: String },
    ExecAwaitCount { name: String, inputs: LuaInputs },
    ExecAwaitFactoid { name: String, inputs: LuaInputs },
    ExecAwaitLua,
    Finished,
}

/// The contents of a [`FactoidTask`].
pub enum FactoidTaskView {
    AddAwaitCount { name: Seq<char>, content: Seq<char>, author: Seq<char> },
    AddAwaitClock { name: Seq<char>, idx: i32, content: Seq<char>, author: Seq<char> },
    AddAwaitInsert,
    FromUrlAwaitDownload { name: Seq<char>, author: Seq<char> },
    RemoveAwaitCount { name: Seq<char> },
    RemoveAwaitDelete,
    GetAwaitCount { name: Seq<char> },
    GetAwaitFactoid,
    InfoAwaitCount { name: Seq<char> },
    InfoAwaitFactoid { name: Seq<char> },
    ExecAwaitCount { name: Seq<char>, inputs: LuaInputsView },
    ExecAwaitFactoid { name: Seq<char>, inputs: LuaInputsView },
    ExecAwaitLua,
    Finished,
}

impl View for FactoidTask {
    type V = FactoidTaskView;

    open spec fn view(&self) -> FactoidTaskView {
        match self {
            FactoidTask::AddAwaitCount { name, content, author } => FactoidTaskView::AddAwaitCount {
                name: name@,
                content: content@,
                author: author@,
            },
            FactoidTask::AddAwaitClock { name, idx, content, author } =>
                FactoidTaskView::AddAwaitClock {
                name: name@,
                idx: *idx,
                content: content@,
                author: author@,
            },
            FactoidTask::AddAwaitInsert => FactoidTaskView::AddAwaitInsert,
            FactoidTask::FromUrlAwaitDownload { name, author } =>
                FactoidTaskView::FromUrlAwaitDownload { name: name@, author: author@ },
            FactoidTask::RemoveAwaitCount { name } => FactoidTaskView::RemoveAwaitCount {
                name: name@,
            },
            FactoidTask::RemoveAwaitDelete => FactoidTaskView::RemoveAwaitDelete,
            FactoidTask::GetAwaitCount { name } => FactoidTaskView::GetAwaitCount { name: name@ },
            FactoidTask::GetAwaitFactoid => FactoidTaskView::GetAwaitFactoid,
            FactoidTask::InfoAwaitCount { name } => FactoidTaskView::InfoAwaitCount { name: name@ },
            FactoidTask::InfoAwaitFactoid { name } => FactoidTaskView::InfoAwaitFactoid {
                name: name@,
            },
            FactoidTask::ExecAwaitCount { name, inputs } => FactoidTaskView::ExecAwaitCount {
                name: name@,
                inputs: inputs@,
            },
            FactoidTask::ExecAwaitFactoid { name, inputs } => FactoidTaskView::ExecAwaitFactoid {
                name: name@,
                inputs: inputs@,
            },
            FactoidTask::ExecAwaitLua => FactoidTaskView::ExecAwaitLua,
            FactoidTask::Finished => FactoidTaskView::Finished,
        }
    }
}

// ---------------------------------------------------------------------------
// The replies
// ---------------------------------------------------------------------------

/// The text of `help`.
pub open spec fn help_text() -> Seq<char> {
    "usage: factoids <subcommand>\r\nsubcommands: add, fromurl, remove, get, info, exec, help"@
}

/// Whether `s` begins with `c`.
pub open spec fn starts_with(s: Seq<char>, c: char) -> bool {
    s.len() > 0 && s[0] == c
}

/// How `get` shows a factoid: its name, then its content with line breaks
/// flattened, cut to 512 bytes.
pub open spec fn get_text(f: FactoidView) -> Seq<char> {
    f.name + ": "@ + truncated(flatten_lines(f.content), 512)
}

/// How `info` tells the number of versions (`count` is not 0).
pub open spec fn count_text(name: Seq<char>, count: i32) -> Seq<char> {
    if count == 1 {
        "There is 1 version of "@ + name
    } else {
        "There are "@ + int_text(count as int) + " versions of "@ + name
    }
}

/// How `info` tells who added a version, and when.
pub open spec fn author_text(name: Seq<char>, f: FactoidView) -> Seq<char> {
    name + ": Added by "@ + f.author + " at "@ + time_datetime_text(
        f.created.year,
        f.created.month,
        f.created.day,
        f.created.hour,
        f.created.minute,
        f.created.second,
        f.created.nanosecond,
    ) + " UTC"@
}

/// How `exec` shows its result: cut to 412 bytes, then line breaks flattened.
pub open spec fn exec_text(m: Seq<char>) -> Seq<char> {
    flatten_lines(truncated(m, 412))
}

/// What `exec` makes of a factoid's content: content starting with `>` is a
/// script, unless it starts with `>>`, in which case the rest is shown as it
/// is; other content is shown as it is. `Ok` is the text to show, `Err` the
/// script to run.
pub open spec fn exec_content(content: Seq<char>) -> Result<Seq<char>, Seq<char>> {
    if starts_with(content, '>') {
        let rest = content.drop_first();
        if starts_with(rest, '>') {
            Ok(rest)
        } else {
            Err(rest)
        }
    } else {
        Ok(content)
    }
}

// ---------------------------------------------------------------------------
// Starting a command
// ---------------------------------------------------------------------------

/// A command that is over, with its reply.
pub open spec fn reply_with(r: Result<Seq<char>, ErrorKind>) -> (FactoidTaskView, FactoidStepView) {
    (FactoidTaskView::Finished, FactoidStepView::Reply(r))
}

/// How `exec` starts, for `words` (the factoid's name, then the script's words).
pub open spec fn start_exec(words: Seq<Seq<char>>, source: Seq<char>, target: Seq<char>) -> (
    FactoidTaskView,
    FactoidStepView,
) {
    if words.len() == 0 {
        reply_with(Err(ErrorKind::InvalidIndex))
    } else {
        (
            FactoidTaskView::ExecAwaitCount {
                name: words[0],
                inputs: lua_inputs_for(words.drop_first(), source, target),
            },
            FactoidStepView::Request(FactoidRequestView::CountFactoids { name: words[0] }),
        )
    }
}

/// How the `factoid` command starts: the first word picks the subcommand,
/// the rest are its words.
pub open spec fn start_command(cmd: PluginCommandView) -> (FactoidTaskView, FactoidStepView) {
    let t = cmd.tokens;
    if t.len() == 0 {
        reply_with(Ok("Invalid command"@))
    } else {
        let sub = t[0];
        let rest = t.drop_first();
        if sub == "add"@ {
            if rest.len() < 2 {
                reply_with(Err(ErrorKind::InvalidCommand))
            } else {
                (
                    FactoidTaskView::AddAwaitCount {
                        name: rest[0],
                        content: join_with(rest.drop_first(), seq![' ']),
                        author: cmd.source,
                    },
                    FactoidStepView::Request(FactoidRequestView::CountFactoids { name: rest[0] }),
                )
            }
        } else if sub == "fromurl"@ {
            if rest.len() < 2 {
                reply_with(Err(ErrorKind::InvalidCommand))
            } else {
                (
                    FactoidTaskView::FromUrlAwaitDownload { name: rest[0], author: cmd.source },
                    FactoidStepView::Request(FactoidRequestView::Download { url: rest[1] }),
                )
            }
        } else if sub == "remove"@ {
            if rest.len() == 0 {
                reply_with(Err(ErrorKind::InvalidCommand))
            } else {
                (
                    FactoidTaskView::RemoveAwaitCount { name: rest[0] },
                    FactoidStepView::Request(FactoidRequestView::CountFactoids { name: rest[0] }),
                )
            }
        } else if sub == "get"@ {
            if rest.len() == 0 {
                reply_with(Err(ErrorKind::InvalidCommand))
            } else if rest.len() == 1 {
                (
                    FactoidTaskView::GetAwaitCount { name: rest[0] },
                    FactoidStepView::Request(FactoidRequestView::CountFactoids { name: rest[0] }),
                )
            } else {
                match parse_i32(rest[1]) {
                    None => reply_with(Err(ErrorKind::InvalidCommand)),
                    Some(idx) => (
                        FactoidTaskView::GetAwaitFactoid,
                        FactoidStepView::Request(
                            FactoidRequestView::GetFactoid { name: rest[0], idx },
                        ),
                    ),
                }
            }
        } else if sub == "info"@ {
            if rest.len() == 0 {
                reply_with(Err(ErrorKind::InvalidCommand))
            } else if rest.len() == 1 {
                (
                    FactoidTaskView::InfoAwaitCount { name: rest[0] },
                    FactoidStepView::Request(FactoidRequestView::CountFactoids { name: rest[0] }),
                )
            } else {
                match parse_i32(rest[1]) {
                    None => reply_with(Err(ErrorKind::InvalidIndex)),
                    Some(idx) => (
                        FactoidTaskView::InfoAwaitFactoid { name: rest[0] },
                        FactoidStepView::Request(
                            FactoidRequestView::GetFactoid { name: rest[0], idx },
                        ),
                    ),
                }
            }
        } else if sub == "exec"@ {
            start_exec(rest, cmd.source, cmd.target)
        } else if sub == "help"@ {
            reply_with(Ok(help_text()))
        } else {
            reply_with(Err(ErrorKind::InvalidCommand))
        }
    }
}

// ---------------------------------------------------------------------------
// Going on after an outcome
// ---------------------------------------------------------------------------

/// The outcome is the one `task` waits for, and the plugin can go on from it
/// without an arithmetic overflow or a cut inside a character.
pub open spec fn resume_ok(task: FactoidTaskView, event: FactoidEventView) -> bool {
    match task {
        FactoidTaskView::AddAwaitCount { .. } => event is Counted,
        FactoidTaskView::AddAwaitClock { .. } => event is Clock,
        FactoidTaskView::AddAwaitInsert => event is Inserted,
        FactoidTaskView::FromUrlAwaitDownload { .. } => event is Downloaded,
        FactoidTaskView::RemoveAwaitCount { .. } => match event {
            FactoidEventView::Counted(Ok(c)) => c > i32::MIN,
            FactoidEventView::Counted(Err(_)) => true,
            _ => false,
        },
        FactoidTaskView::RemoveAwaitDelete => event is Deleted,
        FactoidTaskView::GetAwaitCount { .. } => event is Counted,
        FactoidTaskView::GetAwaitFactoid => match event {
            FactoidEventView::Fetched(Ok(f)) => truncates_cleanly(flatten_lines(f.content), 512),
            FactoidEventView::Fetched(Err(_)) => true,
            _ => false,
        },
        FactoidTaskView::InfoAwaitCount { .. } => event is Counted,
        FactoidTaskView::InfoAwaitFactoid { .. } => match event {
            FactoidEventView::Fetched(Ok(f)) => f.created.is_valid(),
            FactoidEventView::Fetched(Err(_)) => true,
            _ => false,
        },
        FactoidTaskView::ExecAwaitCount { .. } => match event {
            FactoidEventView::Counted(Ok(c)) => c > i32::MIN,
            FactoidEventView::Counted(Err(_)) => true,
            _ => false,
        },
        FactoidTaskView::ExecAwaitFactoid { .. } => match event {
            FactoidEventView::Fetched(Ok(f)) => match exec_content(f.content) {
                Ok(text) => truncates_cleanly(text, 412),
                Err(_) => true,
            },
            FactoidEventView::Fetched(Err(_)) => true,
            _ => false,
        },
        FactoidTaskView::ExecAwaitLua => match event {
            FactoidEventView::LuaFinished(Ok(v)) => truncates_cleanly(v, 412),
            FactoidEventView::LuaFinished(Err(f)) => truncates_cleanly(lua_failure_text(f), 412),
            _ => false,
        },
        FactoidTaskView::Finished => false,
    }
}

/// Where a command goes from `task` on `event`:
/// - `add` and `fromurl` store the text as the next version (numbered by the
///   count of versions), stamped with the time read after counting;
/// - `remove` deletes the last version;
/// - `get` and `info` with a name only look at the last version (none is
///   "not found"); with an index they fetch that version;
/// - `exec` runs or shows the last version's content.
pub open spec fn resume_spec(task: FactoidTaskView, event: FactoidEventView) -> (
    FactoidTaskView,
    FactoidStepView,
) {
    match (task, event) {
        (
            FactoidTaskView::AddAwaitCount { name, content, author },
            FactoidEventView::Counted(Ok(c)),
        ) => (
            FactoidTaskView::AddAwaitClock { name, idx: c, content, author },
            FactoidStepView::Request(FactoidRequestView::ReadClock),
        ),
        (
            FactoidTaskView::AddAwaitClock { name, idx, content, author },
            FactoidEventView::Clock(t),
        ) => (
            FactoidTaskView::AddAwaitInsert,
            FactoidStepView::Request(
                FactoidRequestView::InsertFactoid {
                    factoid: FactoidView { name, idx, content, author, created: t },
                },
            ),
        ),
        (FactoidTaskView::AddAwaitInsert, FactoidEventView::Inserted(Ok(()))) => reply_with(
            Ok("Successfully added!"@),
        ),
        (FactoidTaskView::FromUrlAwaitDownload { name, author }, FactoidEventView::Downloaded(d)) =>
            match d {
            Some(content) => (
                FactoidTaskView::AddAwaitCount { name, content, author },
                FactoidStepView::Request(FactoidRequestView::CountFactoids { name }),
            ),
            None => reply_with(Err(ErrorKind::Download)),
        },
        (FactoidTaskView::RemoveAwaitCount { name }, FactoidEventView::Counted(Ok(c))) => (
            FactoidTaskView::RemoveAwaitDelete,
            FactoidStepView::Request(FactoidRequestView::DeleteFactoid { name, idx: (c - 1) as i32 }),
        ),
        (FactoidTaskView::RemoveAwaitDelete, FactoidEventView::Deleted(Ok(()))) => reply_with(
            Ok("Successfully removed"@),
        ),
        (FactoidTaskView::GetAwaitCount { name }, FactoidEventView::Counted(Ok(c))) => if c < 1 {
            reply_with(Err(ErrorKind::NotFound))
        } else {
            (
                FactoidTaskView::GetAwaitFactoid,
                FactoidStepView::Request(
                    FactoidRequestView::GetFactoid { name, idx: (c - 1) as i32 },
                ),
            )
        },
        (FactoidTaskView::GetAwaitFactoid, FactoidEventView::Fetched(r)) => match r {
            Ok(f) => reply_with(Ok(get_text(f))),
            Err(_) => reply_with(Err(ErrorKind::NotFound)),
        },
        (FactoidTaskView::InfoAwaitCount { name }, FactoidEventView::Counted(Ok(c))) => if c == 0 {
            reply_with(Err(ErrorKind::NotFound))
        } else {
            reply_with(Ok(count_text(name, c)))
        },
        (FactoidTaskView::InfoAwaitFactoid { name }, FactoidEventView::Fetched(Ok(f))) => reply_with(
            Ok(author_text(name, f)),
        ),
        (FactoidTaskView::ExecAwaitCount { name, inputs }, FactoidEventView::Counted(Ok(c))) => (
            FactoidTaskView::ExecAwaitFactoid { name, inputs },
            FactoidStepView::Request(FactoidRequestView::GetFactoid { name, idx: (c - 1) as i32 }),
        ),
        (FactoidTaskView::ExecAwaitFactoid { name, inputs }, FactoidEventView::Fetched(Ok(f))) =>
            match exec_content(f.content) {
            Ok(text) => reply_with(Ok(exec_text(text))),
            Err(code) => (
                FactoidTaskView::ExecAwaitLua,
                FactoidStepView::Request(FactoidRequestView::RunLua { name, code, inputs }),
            ),
        },
        (FactoidTaskView::ExecAwaitLua, FactoidEventView::LuaFinished(r)) => match r {
            Ok(v) => reply_with(Ok(exec_text(v))),
            Err(f) => reply_with(Ok(exec_text(lua_failure_text(f)))),
        },
        // Every failed query ends the command with its error.
        (_, FactoidEventView::Counted(Err(e))) => reply_with(Err(e)),
        (_, FactoidEventView::Fetched(Err(e))) => reply_with(Err(e)),
        (_, FactoidEventView::Deleted(Err(e))) => reply_with(Err(e)),
        (_, FactoidEventView::Inserted(Err(e))) => reply_with(Err(e)),
        _ => reply_with(Err(ErrorKind::InvalidCommand)),
    }
}

/// A channel message starting with `!` runs a factoid.
pub open spec fn is_factoid_message(content: Seq<char>) -> bool {
    starts_with(content, '!')
}

// ---------------------------------------------------------------------------
// The plugin
// ---------------------------------------------------------------------------

/// The factoid plugin.
pub struct Factoid {}

/// Whether `w` is the word `lit`.
fn word_is(w: &String, lit: &str) -> (r: bool)
    ensures
        r == (w@ == lit@),
{
    let a = chars_of(w.as_str());
    let b = chars_of(lit);
    chars_equal(a.as_slice(), b.as_slice())
}

/// Copies of the words of `words` from position `k` on.
fn words_from(words: &Vec<String>, k: usize) -> (r: Vec<String>)
    requires
        k <= words@.len(),
    ensures
        views(r@) == views(words@).skip(k as int),
{
    let mut r: Vec<String> = Vec::new();
    let mut j: usize = k;
    while j < words.len()
        invariant
            k <= j <= words@.len(),
            views(r@) == views(words@).subrange(k as int, j as int),
        decreases words@.len() - j,
    {
        let ghost before = r@;
        r.push(words[j].clone());
        proof {
            assert(views(r@) =~= views(before).push(words@[j as int]@));
            assert(views(words@).subrange(k as int, j + 1) =~= views(words@).subrange(
                k as int,
                j as int,
            ).push(words@[j as int]@));
        }
        j = j + 1;
    }
    r
}

fn finish(r: Result<String, ErrorKind>) -> (out: (FactoidTask, FactoidStep))
    ensures
        (out.0@, out.1@) == reply_with(
            match r {
                Ok(s) => Ok(s@),
                Err(e) => Err(e),
            },
        ),
{
    (FactoidTask::Finished, FactoidStep::Reply(r))
}

fn fail(e: ErrorKind) -> (out: (FactoidTask, FactoidStep))
    ensures
        (out.0@, out.1@) == reply_with(Err(e)),
{
    (FactoidTask::Finished, FactoidStep::Reply(Err(e)))
}

fn count_request(name: String) -> (r: FactoidStep)
    ensures
        r@ == FactoidStepView::Request(FactoidRequestView::CountFactoids { name: name@ }),
{
    FactoidStep::Request(FactoidRequest::CountFactoids { name })
}

/// The reply of `get` for a fetched version.
fn get_reply(f: &Record) -> (s: String)
    requires
        truncates_cleanly(flatten_lines(f@.content), 512),
    ensures
        s@ == get_text(f@),
{
    let content = chars_of(f.content.as_str());
    let flat = flatten_line_breaks(content.as_slice());
    let cut = truncate_chars(flat.as_slice(), 512);
    let mut out = chars_of(f.name.as_str());
    push_str(&mut out, ": ");
    push_chars(&mut out, cut.as_slice());
    string_from_chars(out.as_slice())
}

/// The reply of `info` for a count of versions other than 0.
fn count_reply(name: &String, count: i32) -> (s: String)
    ensures
        s@ == count_text(name@, count),
{
    let mut out: Vec<char> = Vec::new();
    if count == 1 {
        push_str(&mut out, "There is 1 version of ");
        push_str(&mut out, name.as_str());
    } else {
        push_str(&mut out, "There are ");
        let digits = i32_text(count);
        push_chars(&mut out, digits.as_slice());
        push_str(&mut out, " versions of ");
        push_str(&mut out, name.as_str());
    }
    string_from_chars(out.as_slice())
}

/// The reply of `info` for a fetched version.
fn author_reply(name: &String, f: &Record) -> (s: String)
    requires
        f.created.is_valid(),
    ensures
        s@ == author_text(name@, f@),
{
    let mut out = chars_of(name.as_str());
    push_str(&mut out, ": Added by ");
    push_str(&mut out, f.author.as_str());
    push_str(&mut out, " at ");
    let when = time_text(&f.created);
    push_str(&mut out, when.as_str());
    push_str(&mut out, " UTC");
    string_from_chars(out.as_slice())
}

/// The reply of `exec` for the text to show.
fn exec_reply(m: &[char]) -> (s: String)
    requires
        truncates_cleanly(m@, 412),
    ensures
        s@ == exec_text(m@),
{
    let cut = truncate_chars(m, 412);
    let flat = flatten_line_breaks(cut.as_slice());
    string_from_chars(flat.as_slice())
}

impl Factoid {
    /// A factoid plugin.
    pub fn new() -> (f: Factoid) {
        Factoid {}
    }

    /// The text of `help`.
    pub fn help(&self) -> (s: String)
        ensures
            s@ == help_text(),
    {
        "usage: factoids <subcommand>\r\nsubcommands: add, fromurl, remove, get, info, exec, help".to_owned()
    }

    /// Evaluation is not offered.
    pub fn evaluate(&self) -> (r: Result<String, String>)
        ensures
            r matches Err(m) && m@ == "Evaluation of commands is not implemented for Factoid at this time"@,
    {
        Err("Evaluation of commands is not implemented for Factoid at this time".to_owned())
    }

    /// Whether a channel message runs a factoid (`execute`).
    pub fn execute(&self, content: &str) -> (s: ExecutionStatus)
        ensures
            s == (if is_factoid_message(content@) {
                ExecutionStatus::RequiresThread
            } else {
                ExecutionStatus::Done
            }),
    {
        let cs = chars_of(content);
        if cs.len() > 0 && cs[0] == '!' {
            ExecutionStatus::RequiresThread
        } else {
            ExecutionStatus::Done
        }
    }

    /// The command a `!` message stands for (`execute_threaded`): the text
    /// after the first character, split at each space.
    pub fn threaded_command(&self, content: &str, source: String, target: String) -> (c:
        PluginCommand)
        requires
            content@.len() > 0,
        ensures
            c@ == (PluginCommandView {
                source: source@,
                target: target@,
                tokens: split_on(content@.drop_first(), ' '),
            }),
    {
        let cs = chars_of(content);
        let rest = suffix_chars(cs.as_slice(), 1);
        proof {
            assert(cs@.skip(1) == content@.drop_first());
        }
        let tokens = split_spaces(rest.as_slice());
        PluginCommand { source, target, tokens }
    }

    /// Starts `exec` (also what a `!` message runs): `command.tokens` are the
    /// factoid's name and the script's words.
    pub fn exec(&self, command: PluginCommand) -> (r: (FactoidTask, FactoidStep))
        ensures
            (r.0@, r.1@) == start_exec(command@.tokens, command@.source, command@.target),
    {
        if command.tokens.len() == 0 {
            return fail(ErrorKind::InvalidIndex);
        }
        let name = command.tokens[0].clone();
        let words = words_from(&command.tokens, 1);
        let inputs = lua_inputs(words.as_slice(), &command.source, &command.target);
        proof {
            assert(views(command.tokens@).skip(1) == views(command.tokens@).drop_first());
        }
        let request = count_request(name.clone());
        (FactoidTask::ExecAwaitCount { name, inputs }, request)
    }

    /// Starts a `factoid` command.
    pub fn command(&self, command: PluginCommand) -> (r: (FactoidTask, FactoidStep))
        ensures
            (r.0@, r.1@) == start_command(command@),
    {
        let n = command.tokens.len();
        if n == 0 {
            return finish(Ok("Invalid command".to_owned()));
        }
        let ghost t = views(command.tokens@);
        let ghost rest = t.drop_first();
        proof {
            assert(t[0] == command.tokens@[0]@);
            assert(rest.len() == n - 1);
            if n > 1 {
                assert(rest[0] == command.tokens@[1]@);
            }
            if n > 2 {
                assert(rest[1] == command.tokens@[2]@);
            }
        }
        let sub = &command.tokens[0];
        if word_is(sub, "add") {
            if n < 3 {
                return fail(ErrorKind::InvalidCommand);
            }
            let name = command.tokens[1].clone();
            let words = words_from(&command.tokens, 2);
            proof {
                assert(views(command.tokens@).skip(2) =~= rest.drop_first());
            }
            let joined = join_words(words.as_slice());
            let content = string_from_chars(joined.as_slice());
            let request = count_request(name.clone());
            (FactoidTask::AddAwaitCount { name, content, author: command.source }, request)
        } else if word_is(sub, "fromurl") {
            if n < 3 {
                return fail(ErrorKind::InvalidCommand);
            }
            let name = command.tokens[1].clone();
            let url = command.tokens[2].clone();
            (
                FactoidTask::FromUrlAwaitDownload { name, author: command.source },
                FactoidStep::Request(FactoidRequest::Download { url }),
            )
        } else if word_is(sub, "remove") {
            if n < 2 {
                return fail(ErrorKind::InvalidCommand);
            }
            let name = command.tokens[1].clone();
            let request = count_request(name.clone());
            (FactoidTask::RemoveAwaitCount { name }, request)
        } else if word_is(sub, "get") {
            if n < 2 {
                return fail(ErrorKind::InvalidCommand);
            }
            let name = command.tokens[1].clone();
            if n == 2 {
                let request = count_request(name.clone());
                return (FactoidTask::GetAwaitCount { name }, request);
            }
            let index = chars_of(command.tokens[2].as_str());
            match parse_i32_chars(index.as_slice()) {
                None => fail(ErrorKind::InvalidCommand),
                Some(idx) => (
                    FactoidTask::GetAwaitFactoid,
                    FactoidStep::Request(FactoidRequest::GetFactoid { name, idx }),
                ),
            }
        } else if word_is(sub, "info") {
            if n < 2 {
                return fail(ErrorKind::InvalidCommand);
            }
            let name = command.tokens[1].clone();
            if n == 2 {
                let request = count_request(name.clone());
                return (FactoidTask::InfoAwaitCount { name }, request);
            }
            let index = chars_of(command.tokens[2].as_str());
            match parse_i32_chars(index.as_slice()) {
                None => fail(ErrorKind::InvalidIndex),
                Some(idx) => {
                    let request = FactoidStep::Request(
                        FactoidRequest::GetFactoid { name: name.clone(), idx },
                    );
                    (FactoidTask::InfoAwaitFactoid { name }, request)
                },
            }
        } else if word_is(sub, "exec") {
            let words = words_from(&command.tokens, 1);
            proof {
                assert(views(command.tokens@).skip(1) =~= rest);
            }
            self.exec(PluginCommand { source: command.source, target: command.target, tokens: words })
        } else if word_is(sub, "help") {
            finish(Ok(self.help()))
        } else {
            fail(ErrorKind::InvalidCommand)
        }
    }

    /// Whether [`Factoid::resume`] can take `event` in `task`: it is the
    /// outcome `task` waits for, and going on neither overflows nor cuts a
    /// reply inside a character (where `count - 1` or `String::truncate`
    /// would panic).
    pub fn can_resume(&self, task: &FactoidTask, event: &FactoidEvent) -> (r: bool)
        ensures
            r == resume_ok(task@, event@),
    {
        match task {
            FactoidTask::AddAwaitCount { .. } | FactoidTask::GetAwaitCount { .. }
            | FactoidTask::InfoAwaitCount { .. } => match event {
                FactoidEvent::Counted(_) => true,
                _ => false,
            },
            FactoidTask::AddAwaitClock { .. } => match event {
                FactoidEvent::Clock(_) => true,
                _ => false,
            },
            FactoidTask::AddAwaitInsert => match event {
                FactoidEvent::Inserted(_) => true,
                _ => false,
            },
            FactoidTask::FromUrlAwaitDownload { .. } => match event {
                FactoidEvent::Downloaded(_) => true,
                _ => false,
            },
            FactoidTask::RemoveAwaitCount { .. } | FactoidTask::ExecAwaitCount { .. } => match event {
                FactoidEvent::Counted(Ok(c)) => *c > i32::MIN,
                FactoidEvent::Counted(Err(_)) => true,
                _ => false,
            },
            FactoidTask::RemoveAwaitDelete => match event {
                FactoidEvent::Deleted(_) => true,
                _ => false,
            },
            FactoidTask::GetAwaitFactoid => match event {
                FactoidEvent::Fetched(Ok(f)) => {
                    let content = chars_of(f.content.as_str());
                    let flat = flatten_line_breaks(content.as_slice());
                    cuts_cleanly(flat.as_slice(), 512)
                },
                FactoidEvent::Fetched(Err(_)) => true,
                _ => false,
            },
            FactoidTask::InfoAwaitFactoid { .. } => match event {
                FactoidEvent::Fetched(Ok(f)) => f.created.valid(),
                FactoidEvent::Fetched(Err(_)) => true,
                _ => false,
            },
            FactoidTask::ExecAwaitFactoid { .. } => match event {
                FactoidEvent::Fetched(Ok(f)) => {
                    let content = chars_of(f.content.as_str());
                    if content.len() > 0 && content[0] == '>' {
                        let rest = suffix_chars(content.as_slice(), 1);
                        proof {
                            assert(content@.skip(1) == content@.drop_first());
                        }
                        if rest.len() > 0 && rest[0] == '>' {
                            cuts_cleanly(rest.as_slice(), 412)
                        } else {
                            true
                        }
                    } else {
                        cuts_cleanly(content.as_slice(), 412)
                    }
                },
                FactoidEvent::Fetched(Err(_)) => true,
                _ => false,
            },
            FactoidTask::ExecAwaitLua => match event {
                FactoidEvent::LuaFinished(Ok(v)) => {
                    let cs = chars_of(v.as_str());
                    cuts_cleanly(cs.as_slice(), 412)
                },
                FactoidEvent::LuaFinished(Err(f)) => {
                    let text = lua_failure_text_of(f);
                    let cs = chars_of(text.as_str());
                    cuts_cleanly(cs.as_slice(), 412)
                },
                _ => false,
            },
            FactoidTask::Finished => false,
        }
    }

    /// Goes on with a command after the outcome of the work it asked for.
    pub fn resume(&self, task: FactoidTask, event: FactoidEvent) -> (r: (FactoidTask, FactoidStep))
        requires
            resume_ok(task@, event@),
        ensures
            (r.0@, r.1@) == resume_spec(task@, event@),
    {
        match task {
            FactoidTask::AddAwaitCount { name, content, author } => match event {
                FactoidEvent::Counted(Ok(c)) => (
                    FactoidTask::AddAwaitClock { name, idx: c, content, author },
                    FactoidStep::Request(FactoidRequest::ReadClock),
                ),
                FactoidEvent::Counted(Err(e)) => fail(e),
                _ => fail(ErrorKind::InvalidCommand),
            },
            FactoidTask::AddAwaitClock { name, idx, content, author } => match event {
                FactoidEvent::Clock(t) => (
                    FactoidTask::AddAwaitInsert,
                    FactoidStep::Request(
                        FactoidRequest::InsertFactoid {
                            factoid: NewFactoid { name, idx, content, author, created: t },
                        },
                    ),
                ),
                _ => fail(ErrorKind::InvalidCommand),
            },
            FactoidTask::AddAwaitInsert => match event {
                FactoidEvent::Inserted(Ok(())) => finish(Ok("Successfully added!".to_owned())),
                FactoidEvent::Inserted(Err(e)) => fail(e),
                _ => fail(ErrorKind::InvalidCommand),
            },
            FactoidTask::FromUrlAwaitDownload { name, author } => match event {
                FactoidEvent::Downloaded(Some(content)) => {
                    let request = count_request(name.clone());
                    (FactoidTask::AddAwaitCount { name, content, author }, request)
                },
                FactoidEvent::Downloaded(None) => fail(ErrorKind::Download),
                _ => fail(ErrorKind::InvalidCommand),
            },
            FactoidTask::RemoveAwaitCount { name } => match event {
                FactoidEvent::Counted(Ok(c)) => (
                    FactoidTask::RemoveAwaitDelete,
                    FactoidStep::Request(FactoidRequest::DeleteFactoid { name, idx: c - 1 }),
                ),
                FactoidEvent::Counted(Err(e)) => fail(e),
                _ => fail(ErrorKind::InvalidCommand),
            },
            FactoidTask::RemoveAwaitDelete => match event {
                FactoidEvent::Deleted(Ok(())) => finish(Ok("Successfully removed".to_owned())),
                FactoidEvent::Deleted(Err(e)) => fail(e),
                _ => fail(ErrorKind::InvalidCommand),
            },
            FactoidTask::GetAwaitCount { name } => match event {
                FactoidEvent::Counted(Ok(c)) => if c < 1 {
                    fail(ErrorKind::NotFound)
                } else {
                    (
                        FactoidTask::GetAwaitFactoid,
                        FactoidStep::Request(FactoidRequest::GetFactoid { name, idx: c - 1 }),
                    )
                },
                FactoidEvent::Counted(Err(e)) => fail(e),
                _ => fail(ErrorKind::InvalidCommand),
            },
            FactoidTask::GetAwaitFactoid => match event {
                FactoidEvent::Fetched(Ok(f)) => finish(Ok(get_reply(&f))),
                FactoidEvent::Fetched(Err(_)) => fail(ErrorKind::NotFound),
                _ => fail(ErrorKind::InvalidCommand),
            },
            FactoidTask::InfoAwaitCount { name } => match event {
                FactoidEvent::Counted(Ok(c)) => if c == 0 {
                    fail(ErrorKind::NotFound)
                } else {
                    finish(Ok(count_reply(&name, c)))
                },
                FactoidEvent::Counted(Err(e)) => fail(e),
                _ => fail(ErrorKind::InvalidCommand),
            },
            FactoidTask::InfoAwaitFactoid { name } => match event {
                FactoidEvent::Fetched(Ok(f)) => finish(Ok(author_reply(&name, &f))),
                FactoidEvent::Fetched(Err(e)) => fail(e),
                _ => fail(ErrorKind::InvalidCommand),
            },
            FactoidTask::ExecAwaitCount { name, inputs } => match event {
                FactoidEvent::Counted(Ok(c)) => {
                    let request = FactoidStep::Request(
                        FactoidRequest::GetFactoid { name: name.clone(), idx: c - 1 },
                    );
                    (FactoidTask::ExecAwaitFactoid { name, inputs }, request)
                },
                FactoidEvent::Counted(Err(e)) => fail(e),
                _ => fail(ErrorKind::InvalidCommand),
            },
            FactoidTask::ExecAwaitFactoid { name, inputs } => match event {
                FactoidEvent::Fetched(Ok(f)) => {
                    let content = chars_of(f.content.as_str());
                    if content.len() > 0 && content[0] == '>' {
                        let rest = suffix_chars(content.as_slice(), 1);
                        proof {
                            assert(content@.skip(1) == content@.drop_first());
                        }
                        if rest.len() > 0 && rest[0] == '>' {
                            finish(Ok(exec_reply(rest.as_slice())))
                        } else {
                            let code = string_from_chars(rest.as_slice());
                            (
                                FactoidTask::ExecAwaitLua,
                                FactoidStep::Request(FactoidRequest::RunLua { name, code, inputs }),
                            )
                        }
                    } else {
                        finish(Ok(exec_reply(content.as_slice())))
                    }
                },
                FactoidEvent::Fetched(Err(e)) => fail(e),
                _ => fail(ErrorKind::InvalidCommand),
            },
            FactoidTask::ExecAwaitLua => match event {
                FactoidEvent::LuaFinished(Ok(v)) => {
                    let cs = chars_of(v.as_str());
                    finish(Ok(exec_reply(cs.as_slice())))
                },
                FactoidEvent::LuaFinished(Err(f)) => {
                    let text = lua_failure_message(f);
                    let cs = chars_of(text.as_str());
                    finish(Ok(exec_reply(cs.as_slice())))
                },
                _ => fail(ErrorKind::InvalidCommand),
            },
            FactoidTask::Finished => fail(ErrorKind::InvalidCommand),
        }
    }
}

} // verus!
