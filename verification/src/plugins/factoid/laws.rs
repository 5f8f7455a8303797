//! What factoid commands do to the versions stored under a name, and what
//! they show of them, when every query is answered from those versions.
use vstd::prelude::*;

use super::database::FactoidView;
use super::error::ErrorKind;
use super::utils::nonempty_words;
use super::{
    exec_content, exec_text, get_text, is_factoid_message, resume_ok, resume_spec, start_command, start_exec,
    FactoidEventView, FactoidRequestView, FactoidStepView, FactoidTaskView,
};
use crate::datetime::DateTime;
use crate::plugin::PluginCommandView;
use crate::text::{
    byte_len, flatten_lines, join_with, lemma_flatten_lines_has_no_breaks,
    lemma_flatten_lines_shrinks, lemma_join_split, lemma_split_on_first_piece, lemma_truncated_fits,
    split_on, truncated, truncates_cleanly,
};

verus! {

proof fn lemma_subcommands_differ()
    ensures
        "get"@ != "add"@,
        "get"@ != "fromurl"@,
        "get"@ != "remove"@,
        "info"@ != "add"@,
        "info"@ != "fromurl"@,
        "info"@ != "remove"@,
        "info"@ != "get"@,
        "remove"@ != "add"@,
        "remove"@ != "fromurl"@,
{
    reveal_strlit("get");
    reveal_strlit("info");
    reveal_strlit("add");
    reveal_strlit("fromurl");
    reveal_strlit("remove");
    assert("get"@[0] != "add"@[0]);
    assert("get"@[0] != "fromurl"@[0]);
    assert("get"@[0] != "remove"@[0]);
    assert("info"@[0] != "add"@[0]);
    assert("info"@[0] != "fromurl"@[0]);
    assert("info"@[0] != "remove"@[0]);
    assert("info"@[0] != "get"@[0]);
    assert("remove"@[0] != "add"@[0]);
    assert("remove"@[0] != "fromurl"@[0]);
}

/// The command `cmd` with `words` as its words.
pub open spec fn command_of(source: Seq<char>, target: Seq<char>, words: Seq<Seq<char>>) -> PluginCommandView {
    PluginCommandView { source, target, tokens: words }
}

/// `get name` on a name with versions shows the last version: it counts the
/// versions, fetches the last one, and shows its name and flattened content.
pub proof fn law_get_shows_last_version(
    versions: Seq<FactoidView>,
    name: Seq<char>,
    source: Seq<char>,
    target: Seq<char>,
)
    requires
        1 <= versions.len() <= i32::MAX,
        truncates_cleanly(flatten_lines(versions.last().content), 512),
    ensures
        ({
            let n = versions.len() as i32;
            let (t1, s1) = start_command(command_of(source, target, seq!["get"@, name]));
            let e1 = FactoidEventView::Counted(Ok(n));
            let (t2, s2) = resume_spec(t1, e1);
            let e2 = FactoidEventView::Fetched(Ok(versions[n - 1]));
            &&& s1 == FactoidStepView::Request(FactoidRequestView::CountFactoids { name })
            &&& resume_ok(t1, e1)
            &&& s2 == FactoidStepView::Request(FactoidRequestView::GetFactoid { name, idx: (n - 1) as i32 })
            &&& resume_ok(t2, e2)
            &&& resume_spec(t2, e2).1 == FactoidStepView::Reply(Ok(get_text(versions.last())))
        }),
{
    lemma_subcommands_differ();
    let cmd = command_of(source, target, seq!["get"@, name]);
    assert(cmd.tokens.drop_first() =~= seq![name]);
}

/// `get name` and `info name` on a name without versions say it was not found.
pub proof fn law_unknown_name_is_not_found(name: Seq<char>, source: Seq<char>, target: Seq<char>)
    ensures
        ({
            let (g, _) = start_command(command_of(source, target, seq!["get"@, name]));
            let (i, _) = start_command(command_of(source, target, seq!["info"@, name]));
            let e = FactoidEventView::Counted(Ok(0));
            &&& resume_ok(g, e)
            &&& resume_spec(g, e).1 == FactoidStepView::Reply(Err(ErrorKind::NotFound))
            &&& resume_ok(i, e)
            &&& resume_spec(i, e).1 == FactoidStepView::Reply(Err(ErrorKind::NotFound))
        }),
{
    lemma_subcommands_differ();
    assert(command_of(source, target, seq!["get"@, name]).tokens.drop_first() =~= seq![name]);
    assert(command_of(source, target, seq!["info"@, name]).tokens.drop_first() =~= seq![name]);
}

/// `add name words..` stores the words, joined by spaces, as the next version
/// of `name` (numbered by the count of versions so far), by its sender, at the
/// time read; and a later `get name` shows exactly that text.
pub proof fn law_added_version_is_read_back(
    versions: Seq<FactoidView>,
    name: Seq<char>,
    words: Seq<Seq<char>>,
    source: Seq<char>,
    target: Seq<char>,
    now: DateTime,
)
    requires
        versions.len() < i32::MAX,
        words.len() >= 1,
        truncates_cleanly(flatten_lines(join_with(words, seq![' '])), 512),
    ensures
        ({
            let n = versions.len() as i32;
            let content = join_with(words, seq![' ']);
            let added = FactoidView { name, idx: n, content, author: source, created: now };
            let (t1, s1) = start_command(command_of(source, target, seq!["add"@, name] + words));
            let e1 = FactoidEventView::Counted(Ok(n));
            let (t2, s2) = resume_spec(t1, e1);
            let e2 = FactoidEventView::Clock(now);
            let (t3, s3) = resume_spec(t2, e2);
            let e3 = FactoidEventView::Inserted(Ok(()));
            &&& s1 == FactoidStepView::Request(FactoidRequestView::CountFactoids { name })
            &&& resume_ok(t1, e1)
            &&& s2 == FactoidStepView::Request(FactoidRequestView::ReadClock)
            &&& resume_ok(t2, e2)
            &&& s3 == FactoidStepView::Request(FactoidRequestView::InsertFactoid { factoid: added })
            &&& resume_ok(t3, e3)
            &&& resume_spec(t3, e3).1 == FactoidStepView::Reply(Ok("Successfully added!"@))
            &&& get_text(versions.push(added).last()) == name + ": "@ + truncated(
                flatten_lines(content),
                512,
            )
        }),
{
    reveal_strlit("add");
    let cmd = command_of(source, target, seq!["add"@, name] + words);
    assert(cmd.tokens[0] == "add"@);
    assert(cmd.tokens.drop_first() =~= seq![name] + words);
    assert(cmd.tokens.drop_first().drop_first() =~= words);
}

/// `remove name` deletes the last version; right after an `add` that is the
/// version the `add` inserted.
pub proof fn law_remove_deletes_last_version(
    count: i32,
    name: Seq<char>,
    source: Seq<char>,
    target: Seq<char>,
)
    requires
        0 <= count < i32::MAX,
    ensures
        ({
            let (t1, s1) = start_command(command_of(source, target, seq!["remove"@, name]));
            let e1 = FactoidEventView::Counted(Ok((count + 1) as i32));
            let (t2, s2) = resume_spec(t1, e1);
            let e2 = FactoidEventView::Deleted(Ok(()));
            &&& s1 == FactoidStepView::Request(FactoidRequestView::CountFactoids { name })
            &&& resume_ok(t1, e1)
            &&& s2 == FactoidStepView::Request(FactoidRequestView::DeleteFactoid { name, idx: count })
            &&& resume_ok(t2, e2)
            &&& resume_spec(t2, e2).1 == FactoidStepView::Reply(Ok("Successfully removed"@))
        }),
{
    lemma_subcommands_differ();
    assert(command_of(source, target, seq!["remove"@, name]).tokens.drop_first() =~= seq![name]);
}

/// A `!name rest` message runs the last version of factoid `name`, and its
/// script sees `rest` as its input and the sender and channel as user and
/// channel.
pub proof fn law_bang_message_runs_named_factoid(
    name: Seq<char>,
    rest: Seq<char>,
    source: Seq<char>,
    target: Seq<char>,
)
    requires
        !name.contains(' '),
    ensures
        ({
            let content = seq!['!'] + name + seq![' '] + rest;
            let words = split_on(content.drop_first(), ' ');
            let (t, s) = start_exec(words, source, target);
            &&& is_factoid_message(content)
            &&& s == FactoidStepView::Request(FactoidRequestView::CountFactoids { name })
            &&& t matches FactoidTaskView::ExecAwaitCount { name: n, inputs } && n == name
                && inputs.input == rest && inputs.user == source && inputs.channel == target
        }),
{
    let content = seq!['!'] + name + seq![' '] + rest;
    assert(content.drop_first() =~= name + seq![' '] + rest);
    lemma_split_on_first_piece(name, ' ', rest);
    lemma_join_split(rest, ' ');
    let words = split_on(content.drop_first(), ' ');
    assert(words.drop_first() =~= split_on(rest, ' '));
}

/// What `exec` shows is one line (no line feed or carriage return) of at
/// most 412 bytes, whatever the factoid or its script produced.
pub proof fn law_exec_reply_is_one_short_line(m: Seq<char>)
    ensures
        byte_len(exec_text(m)) <= 412,
        forall|i: int|
            0 <= i < exec_text(m).len() ==> exec_text(m)[i] != '\n' && exec_text(m)[i] != '\r',
{
    lemma_truncated_fits(m, 412);
    lemma_flatten_lines_shrinks(truncated(m, 412));
    lemma_flatten_lines_has_no_breaks(truncated(m, 412));
}

/// What `get` shows of a factoid's content is one line of at most 512 bytes,
/// after the name and `": "`.
pub proof fn law_get_reply_content_is_one_short_line(f: FactoidView)
    ensures
        ({
            let shown = truncated(flatten_lines(f.content), 512);
            &&& get_text(f) == f.name + ": "@ + shown
            &&& byte_len(shown) <= 512
            &&& forall|i: int| 0 <= i < shown.len() ==> shown[i] != '\n' && shown[i] != '\r'
        }),
{
    let flat = flatten_lines(f.content);
    lemma_truncated_fits(flat, 512);
    lemma_flatten_lines_has_no_breaks(f.content);
    let shown = truncated(flat, 512);
    assert forall|i: int| 0 <= i < shown.len() implies shown[i] != '\n' && shown[i] != '\r' by {
        assert(shown[i] == flat[i]);
    }
}

/// How many rows of `table` are versions of `name`.
pub open spec fn versions_of(table: Seq<FactoidView>, name: Seq<char>) -> nat
    decreases table.len(),
{
    if table.len() == 0 {
        0
    } else {
        versions_of(table.drop_last(), name) + if table.last().name == name {
            1nat
        } else {
            0nat
        }
    }
}

/// Whether `table` holds version `idx` of `name`.
pub open spec fn has_version(table: Seq<FactoidView>, name: Seq<char>, idx: int) -> bool {
    exists|i: int| 0 <= i < table.len() && #[trigger] table[i].name == name && table[i].idx == idx
}

/// Whether the versions of every name are numbered 0 up to their count, each
/// number once: no two rows share a name and a number, every number is below
/// its name's count, and every number below it is there.
pub open spec fn versions_numbered(table: Seq<FactoidView>) -> bool {
    &&& forall|i: int, j: int|
        0 <= i < j < table.len() ==> !(#[trigger] table[i].name == #[trigger] table[j].name
            && table[i].idx == table[j].idx)
    &&& forall|i: int|
        0 <= i < table.len() ==> 0 <= #[trigger] table[i].idx < versions_of(table, table[i].name)
    &&& forall|name: Seq<char>, k: int|
        0 <= k < versions_of(table, name) ==> #[trigger] has_version(table, name, k)
}

/// Inserting `row` into the factoid table, whose key is the name and the
/// number: refused (`None`) where a row with that key exists, else the table
/// with the row added.
pub open spec fn insert_row(table: Seq<FactoidView>, row: FactoidView) -> Option<Seq<FactoidView>> {
    if has_version(table, row.name, row.idx as int) {
        None
    } else {
        Some(table.push(row))
    }
}

proof fn lemma_versions_of_push(table: Seq<FactoidView>, row: FactoidView, name: Seq<char>)
    ensures
        versions_of(table.push(row), name) == versions_of(table, name) + if row.name == name {
            1nat
        } else {
            0nat
        },
{
    assert(table.push(row).drop_last() =~= table);
}

/// `add name words..` on a table whose versions are numbered keeps them so:
/// counting the versions of `name` in the table and inserting the next one,
/// numbered by that count, is never refused by the key; afterwards `name` has
/// one version more and every name's versions are still numbered 0 up to
/// their count. Where the insert fails all the same, the table is as it was
/// and the reply is that failure.
pub proof fn law_add_keeps_versions_numbered(
    table: Seq<FactoidView>,
    name: Seq<char>,
    words: Seq<Seq<char>>,
    source: Seq<char>,
    target: Seq<char>,
    now: DateTime,
    failure: ErrorKind,
)
    requires
        versions_numbered(table),
        versions_of(table, name) < i32::MAX,
        words.len() >= 1,
        truncates_cleanly(flatten_lines(join_with(words, seq![' '])), 512),
    ensures
        ({
            let n = versions_of(table, name) as i32;
            let added = FactoidView {
                name,
                idx: n,
                content: join_with(words, seq![' ']),
                author: source,
                created: now,
            };
            let (t1, s1) = start_command(command_of(source, target, seq!["add"@, name] + words));
            let e1 = FactoidEventView::Counted(Ok(n));
            let (t2, s2) = resume_spec(t1, e1);
            let (t3, s3) = resume_spec(t2, FactoidEventView::Clock(now));
            &&& s1 == FactoidStepView::Request(FactoidRequestView::CountFactoids { name })
            &&& s3 == FactoidStepView::Request(FactoidRequestView::InsertFactoid { factoid: added })
            &&& insert_row(table, added) == Some(table.push(added))
            &&& versions_of(table.push(added), name) == versions_of(table, name) + 1
            &&& versions_numbered(table.push(added))
            &&& resume_spec(t3, FactoidEventView::Inserted(Ok(()))).1 == FactoidStepView::Reply(
                Ok("Successfully added!"@),
            )
            &&& resume_spec(t3, FactoidEventView::Inserted(Err(failure))).1 == FactoidStepView::Reply(
                Err(failure),
            )
        }),
{
    law_added_version_is_read_back(
        Seq::new(versions_of(table, name), |i: int| FactoidView { name, idx: 0, content: Seq::empty(), author: Seq::empty(), created: now }),
        name,
        words,
        source,
        target,
        now,
    );
    let n = versions_of(table, name) as i32;
    let added = FactoidView { name, idx: n, content: join_with(words, seq![' ']), author: source, created: now };
    let grown = table.push(added);
    assert forall|nm: Seq<char>| #[trigger] versions_of(grown, nm) == versions_of(table, nm) + if added.name == nm {
        1nat
    } else {
        0nat
    } by {
        lemma_versions_of_push(table, added, nm);
    }
    assert(!has_version(table, name, n as int)) by {
        if has_version(table, name, n as int) {
            let i = choose|i: int| 0 <= i < table.len() && #[trigger] table[i].name == name && table[i].idx == n as int;
            assert(table[i].idx < versions_of(table, table[i].name));
        }
    }
    assert forall|i: int, j: int|
        0 <= i < j < grown.len() implies !(#[trigger] grown[i].name == #[trigger] grown[j].name
            && grown[i].idx == grown[j].idx) by {
        if j == table.len() {
            assert(grown[i] == table[i]);
            if grown[i].name == name {
                assert(table[i].idx < versions_of(table, table[i].name));
            }
        } else {
            assert(grown[i] == table[i]);
            assert(grown[j] == table[j]);
        }
    }
    assert forall|i: int|
        0 <= i < grown.len() implies 0 <= #[trigger] grown[i].idx < versions_of(grown, grown[i].name) by {
        if i < table.len() {
            assert(grown[i] == table[i]);
            assert(0 <= table[i].idx < versions_of(table, table[i].name));
            assert(versions_of(grown, table[i].name) >= versions_of(table, table[i].name));
        }
    }
    assert forall|nm: Seq<char>, k: int|
        0 <= k < versions_of(grown, nm) implies #[trigger] has_version(grown, nm, k) by {
        if nm == name && k == n as int {
            assert(grown[table.len() as int] == added);
        } else {
            assert(versions_of(grown, nm) == versions_of(table, nm) + if added.name == nm {
                1nat
            } else {
                0nat
            });
            assert(k < versions_of(table, nm));
            assert(has_version(table, nm, k));
            let i = choose|i: int| 0 <= i < table.len() && #[trigger] table[i].name == nm && table[i].idx == k;
            assert(grown[i] == table[i]);
        }
    }
}


/// The answer to `step` from `versions`, the versions of one name in order:
/// the version at the index asked for, or "not found" for an index outside
/// them or any other request.
pub open spec fn fetch_from(versions: Seq<FactoidView>, step: FactoidStepView) -> FactoidEventView {
    match step {
        FactoidStepView::Request(FactoidRequestView::GetFactoid { idx, .. }) => if 0 <= idx
            < versions.len() {
            FactoidEventView::Fetched(Ok(versions[idx as int]))
        } else {
            FactoidEventView::Fetched(Err(ErrorKind::NotFound))
        },
        _ => FactoidEventView::Fetched(Err(ErrorKind::NotFound)),
    }
}

/// `exec name words..` (and so a `!name words..` message) uses the latest
/// version of `name`, the one `get name` shows: answered from the versions of
/// `name`, it is handed the last of them. Text is shown; a script is run with
/// the words (those not empty) as its arguments, the words joined by spaces
/// as its input, and the command's sender and channel as user and channel.
pub proof fn law_exec_uses_latest_version(
    versions: Seq<FactoidView>,
    name: Seq<char>,
    words: Seq<Seq<char>>,
    source: Seq<char>,
    target: Seq<char>,
)
    requires
        1 <= versions.len() <= i32::MAX,
    ensures
        ({
            let n = versions.len() as i32;
            let latest = versions.last();
            let (t1, s1) = start_exec(seq![name] + words, source, target);
            let (t2, s2) = resume_spec(t1, FactoidEventView::Counted(Ok(n)));
            let (_, s3) = resume_spec(t2, fetch_from(versions, s2));
            let (_, shown_by_get) = resume_spec(
                FactoidTaskView::GetAwaitCount { name },
                FactoidEventView::Counted(Ok(n)),
            );
            &&& s1 == FactoidStepView::Request(FactoidRequestView::CountFactoids { name })
            &&& s2 matches FactoidStepView::Request(FactoidRequestView::GetFactoid { name: asked, .. })
                && asked == name
            &&& s2 == shown_by_get
            &&& fetch_from(versions, s2) == FactoidEventView::Fetched(Ok(latest))
            &&& match exec_content(latest.content) {
                Ok(text) => s3 == FactoidStepView::Reply(Ok(exec_text(text))),
                Err(code) => s3 matches FactoidStepView::Request(
                    FactoidRequestView::RunLua { name: ran, code: c, inputs },
                ) && ran == name && c == code && inputs.user == source && inputs.channel == target
                    && inputs.input == join_with(words, seq![' ']) && inputs.args == nonempty_words(
                    words,
                ),
            }
        }),
{
    let all = seq![name] + words;
    assert(all[0] == name);
    assert(all.drop_first() =~= words);
}

/// `fromurl name url ..` downloads `url`, the word after the name, and stores
/// what came back as the next version of `name` (numbered by the count of
/// its versions), by the sender, at the time read; a failed download stores
/// nothing and says so.
pub proof fn law_fromurl_stores_downloaded_text(
    name: Seq<char>,
    url: Seq<char>,
    more: Seq<Seq<char>>,
    source: Seq<char>,
    target: Seq<char>,
    text: Seq<char>,
    count: i32,
    now: DateTime,
)
    ensures
        ({
            let (t1, s1) = start_command(command_of(source, target, seq!["fromurl"@, name, url] + more));
            let (t2, s2) = resume_spec(t1, FactoidEventView::Downloaded(Some(text)));
            let (t3, _) = resume_spec(t2, FactoidEventView::Counted(Ok(count)));
            let (t4, s4) = resume_spec(t3, FactoidEventView::Clock(now));
            &&& s1 == FactoidStepView::Request(FactoidRequestView::Download { url })
            &&& s2 == FactoidStepView::Request(FactoidRequestView::CountFactoids { name })
            &&& s4 == FactoidStepView::Request(
                FactoidRequestView::InsertFactoid {
                    factoid: FactoidView { name, idx: count, content: text, author: source, created: now },
                },
            )
            &&& resume_spec(t4, FactoidEventView::Inserted(Ok(()))).1 == FactoidStepView::Reply(
                Ok("Successfully added!"@),
            )
            &&& resume_spec(t1, FactoidEventView::Downloaded(None)).1 == FactoidStepView::Reply(
                Err(ErrorKind::Download),
            )
        }),
{
    reveal_strlit("add");
    reveal_strlit("fromurl");
    let tokens = seq!["fromurl"@, name, url] + more;
    assert(tokens[0] == "fromurl"@);
    assert("fromurl"@[0] != "add"@[0]);
    assert(tokens.drop_first()[0] == name);
    assert(tokens.drop_first()[1] == url);
}

} // verus!
