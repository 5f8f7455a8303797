//! The helpers factoid scripts can call, and what the plugin hands a script.
use vstd::prelude::*;

use crate::text::{
    byte_len, byte_len_exceeds, join_texts, join_with, join_words, push_str, string_from_chars, views,
};
use crate::datetime::{days_in_month, midnight_timestamp, midnight_unix};

verus! {

// ---------------------------------------------------------------------------
// persist
// ---------------------------------------------------------------------------

/// The longest key a script may store a value under, in bytes.
pub const MAX_KEY_BYTES: usize = 32;

/// The longest value a script may store, in bytes.
pub const MAX_VALUE_BYTES: usize = 5120;

/// Whether `persist` accepts the key and value, and else the error it raises:
/// the key is checked first.
pub open spec fn persist_check(key: Seq<char>, value: Seq<char>) -> Result<(), Seq<char>> {
    if byte_len(key) > MAX_KEY_BYTES {
        Err("Key can't be longer than 32 characters"@)
    } else if byte_len(value) > MAX_VALUE_BYTES {
        Err("Value can't be longer than 5120 characters"@)
    } else {
        Ok(())
    }
}

/// The checks `persist` makes before it stores `value` under `key`.
pub fn validate_persist(key: &str, value: &str) -> (r: Result<(), String>)
    ensures
        match (r, persist_check(key@, value@)) {
            (Ok(()), Ok(())) => true,
            (Err(m), Err(t)) => m@ == t,
            _ => false,
        },
{
    if byte_len_exceeds(key, MAX_KEY_BYTES) {
        return Err("Key can't be longer than 32 characters".to_owned());
    }
    if byte_len_exceeds(value, MAX_VALUE_BYTES) {
        return Err("Value can't be longer than 5120 characters".to_owned());
    }
    Ok(())
}

// ---------------------------------------------------------------------------
// What a script sees
// ---------------------------------------------------------------------------

/// The words of `words` that are not empty, in order.
pub open spec fn nonempty_words(words: Seq<Seq<char>>) -> Seq<Seq<char>>
    decreases words.len(),
{
    if words.len() == 0 {
        words
    } else {
        let front = nonempty_words(words.drop_last());
        if words.last().len() > 0 {
            front.push(words.last())
        } else {
            front
        }
    }
}

/// The globals a factoid script gets: `args`, `input`, `user` and `channel`.
pub struct LuaInputs {
    pub args: Vec<String>,
    pub input: String,
    pub user: String,
    pub channel: String,
}

/// The contents of [`LuaInputs`].
pub struct LuaInputsView {
    pub args: Seq<Seq<char>>,
    pub input: Seq<char>,
    pub user: Seq<char>,
    pub channel: Seq<char>,
}

impl View for LuaInputs {
    type V = LuaInputsView;

    open spec fn view(&self) -> LuaInputsView {
        LuaInputsView {
            args: views(self.args@),
            input: self.input@,
            user: self.user@,
            channel: self.channel@,
        }
    }
}

/// What a script run for `source` in `target` with the words `words` sees:
/// the non-empty words as `args`, all words joined by spaces as `input`.
pub open spec fn lua_inputs_for(words: Seq<Seq<char>>, source: Seq<char>, target: Seq<char>) -> LuaInputsView {
    LuaInputsView {
        args: nonempty_words(words),
        input: join_with(words, seq![' ']),
        user: source,
        channel: target,
    }
}

/// Builds the script's globals from the command's words.
pub fn lua_inputs(words: &[String], source: &String, target: &String) -> (r: LuaInputs)
    ensures
        r@ == lua_inputs_for(views(words@), source@, target@),
{
    let mut args: Vec<String> = Vec::new();
    let mut i: usize = 0;
    while i < words.len()
        invariant
            i <= words@.len(),
            views(args@) == nonempty_words(views(words@.take(i as int))),
        decreases words@.len() - i,
    {
        proof {
            assert(views(words@.take(i + 1)).drop_last() =~= views(words@.take(i as int)));
            assert(views(words@.take(i + 1)).last() == words@[i as int]@);
        }
        let ghost x = views(words@.take(i + 1));
        let w = words[i].clone();
        if !w.as_str().is_empty() {
            let ghost before = args@;
            args.push(w);
            proof {
                assert(nonempty_words(x) == nonempty_words(x.drop_last()).push(x.last()));
                assert(views(args@) =~= views(before).push(w@));
            }
        } else {
            proof {
                assert(nonempty_words(x) == nonempty_words(x.drop_last()));
            }
        }
        i = i + 1;
    }
    proof {
        assert(words@.take(words@.len() as int) == words@);
    }
    let joined = join_words(words);
    LuaInputs {
        args,
        input: string_from_chars(joined.as_slice()),
        user: source.clone(),
        channel: target.clone(),
    }
}

// ---------------------------------------------------------------------------
// Script failures
// ---------------------------------------------------------------------------

/// How running a factoid script failed.
pub enum LuaFailure {
    /// The script used more memory than it may.
    OutOfMemory,
    /// A function the script called failed; `cause_out_of_memory` says whether
    /// that failure was running out of memory, `cause_text` is its text.
    Callback { cause_out_of_memory: bool, cause_text: String },
    /// Any other failure, with its text.
    Other { text: String },
}

/// The contents of a [`LuaFailure`].
pub enum LuaFailureView {
    OutOfMemory,
    Callback { cause_out_of_memory: bool, cause_text: Seq<char> },
    Other { text: Seq<char> },
}

impl View for LuaFailure {
    type V = LuaFailureView;

    open spec fn view(&self) -> LuaFailureView {
        match self {
            LuaFailure::OutOfMemory => LuaFailureView::OutOfMemory,
            LuaFailure::Callback { cause_out_of_memory, cause_text } => LuaFailureView::Callback {
                cause_out_of_memory: *cause_out_of_memory,
                cause_text: cause_text@,
            },
            LuaFailure::Other { text } => LuaFailureView::Other { text: text@ },
        }
    }
}

/// What a factoid shows when its script fails: running out of memory, directly
/// or in a called function, has its own text; otherwise the failure's text.
pub open spec fn lua_failure_text(f: LuaFailureView) -> Seq<char> {
    match f {
        LuaFailureView::OutOfMemory => "memory error: Factoid used over 1 MiB of ram"@,
        LuaFailureView::Callback { cause_out_of_memory, cause_text } => if cause_out_of_memory {
            "memory error: Factoid used over 1 MiB of ram"@
        } else {
            cause_text
        },
        LuaFailureView::Other { text } => text,
    }
}

/// The text a factoid shows when its script fails, leaving the failure in place.
pub fn lua_failure_text_of(f: &LuaFailure) -> (s: String)
    ensures
        s@ == lua_failure_text(f@),
{
    match f {
        LuaFailure::OutOfMemory => "memory error: Factoid used over 1 MiB of ram".to_owned(),
        LuaFailure::Callback { cause_out_of_memory, cause_text } => if *cause_out_of_memory {
            "memory error: Factoid used over 1 MiB of ram".to_owned()
        } else {
            cause_text.clone()
        },
        LuaFailure::Other { text } => text.clone(),
    }
}

/// The text a factoid shows when its script fails.
pub fn lua_failure_message(f: LuaFailure) -> (s: String)
    ensures
        s@ == lua_failure_text(f@),
{
    match f {
        LuaFailure::OutOfMemory => "memory error: Factoid used over 1 MiB of ram".to_owned(),
        LuaFailure::Callback { cause_out_of_memory, cause_text } => if cause_out_of_memory {
            "memory error: Factoid used over 1 MiB of ram".to_owned()
        } else {
            cause_text
        },
        LuaFailure::Other { text } => text,
    }
}

// ---------------------------------------------------------------------------
// download
// ---------------------------------------------------------------------------

/// What a factoid script's run shows: the lines of its `output` table joined
/// by `'|'`.
pub fn join_output(lines: &[String]) -> (s: String)
    ensures
        s@ == join_with(views(lines@), seq!['|']),
{
    let joined = join_texts(lines, '|');
    string_from_chars(joined.as_slice())
}

/// The error a script gets when `download` fails.
pub fn download_failure(url: &str, error: &str) -> (s: String)
    ensures
        s@ == "Failed to download "@ + url@ + " - "@ + error@,
{
    let mut out: Vec<char> = Vec::new();
    push_str(&mut out, "Failed to download ");
    push_str(&mut out, url);
    push_str(&mut out, " - ");
    push_str(&mut out, error);
    string_from_chars(out.as_slice())
}

/// What a script's `download` options ask for, beside the URL.
#[derive(Debug)]
pub struct RequestOptions {
    /// The HTTP method, `GET` where none was given.
    pub method: String,
    /// The headers, in the order given.
    pub headers: Vec<(String, String)>,
    /// The body, where one was given.
    pub body: Option<String>,
}

/// `RequestOptions` with each text taken by its view.
pub struct RequestOptionsView {
    pub method: Seq<char>,
    pub headers: Seq<(Seq<char>, Seq<char>)>,
    pub body: Option<Seq<char>>,
}

/// Header pairs with each text taken by its view.
pub open spec fn pairs_view(hs: Seq<(String, String)>) -> Seq<(Seq<char>, Seq<char>)> {
    hs.map_values(|h: (String, String)| (h.0@, h.1@))
}

impl View for RequestOptions {
    type V = RequestOptionsView;

    open spec fn view(&self) -> RequestOptionsView {
        RequestOptionsView {
            method: self.method@,
            headers: pairs_view(self.headers@),
            body: match self.body {
                Some(b) => Some(b@),
                None => None,
            },
        }
    }
}

/// A character HTTP allows in a token (a method or a header name): a digit,
/// a letter, or one of ``!#$%&'*+-.^_`|~``.
pub open spec fn is_token_char(c: char) -> bool {
    ||| '0' <= c <= '9'
    ||| 'a' <= c <= 'z'
    ||| 'A' <= c <= 'Z'
    ||| c == '!' || c == '#' || c == '$' || c == '%' || c == '&' || c == '\'' || c == '*'
    ||| c == '+' || c == '-' || c == '.' || c == '^' || c == '_' || c == '`' || c == '|' || c == '~'
}

/// What `reqwest::Method::from_str` says of `method`: a method is one or more
/// token characters.
pub open spec fn http_method_check(method: Seq<char>) -> Result<(), Seq<char>> {
    if method.len() > 0 && forall|i: int| 0 <= i < method.len() ==> is_token_char(#[trigger] method[i]) {
        Ok(())
    } else {
        Err("invalid HTTP method"@)
    }
}

/// What `reqwest::header::HeaderName::from_str` says of `name`: a header name
/// is 1 to 65535 token characters (upper case is taken as lower case).
pub open spec fn http_header_name_check(name: Seq<char>) -> Result<(), Seq<char>> {
    if 1 <= name.len() <= 65535 && forall|i: int| 0 <= i < name.len() ==> is_token_char(#[trigger] name[i]) {
        Ok(())
    } else {
        Err("invalid HTTP header name"@)
    }
}

/// What `reqwest::header::HeaderValue::from_str` says of `value`: every
/// character is a tab or is neither a control character below a space nor
/// DEL (characters beyond ASCII are allowed).
pub open spec fn http_header_value_check(value: Seq<char>) -> Result<(), Seq<char>> {
    if forall|i: int|
        0 <= i < value.len() ==> (' ' <= #[trigger] value[i] && value[i] != '\u{7f}') || value[i] == '\t' {
        Ok(())
    } else {
        Err("failed to parse header value"@)
    }
}

/// `reqwest::Method::from_str` (`http`'s `Method::from_bytes`), keeping only
/// whether it failed and its error. Claimed: `http_method_check`, the rule of
/// its `METHOD_CHARS` table.
#[verifier::external_body]
fn check_method(method: &str) -> (r: Result<(), String>)
    ensures
        error_view(r) == http_method_check(method@),
{
    match <reqwest::Method as std::str::FromStr>::from_str(method) {
        Ok(_) => Ok(()),
        Err(e) => Err(e.to_string()),
    }
}

/// `reqwest::header::HeaderName::from_str`, keeping only whether it failed
/// and its error. Claimed: `http_header_name_check`, the rule of `http`'s
/// `HEADER_CHARS` table and `MAX_HEADER_NAME_LEN`.
#[verifier::external_body]
fn check_header_name(name: &str) -> (r: Result<(), String>)
    ensures
        error_view(r) == http_header_name_check(name@),
{
    match <reqwest::header::HeaderName as std::str::FromStr>::from_str(name) {
        Ok(_) => Ok(()),
        Err(e) => Err(e.to_string()),
    }
}

/// `reqwest::header::HeaderValue::from_str`, keeping only whether it failed
/// and its error. Claimed: `http_header_value_check`, the rule of `http`'s
/// `is_valid` on each byte (the bytes of a character beyond ASCII are all
/// 128 or more).
#[verifier::external_body]
fn check_header_value(value: &str) -> (r: Result<(), String>)
    ensures
        error_view(r) == http_header_value_check(value@),
{
    match <reqwest::header::HeaderValue as std::str::FromStr>::from_str(value) {
        Ok(_) => Ok(()),
        Err(e) => Err(e.to_string()),
    }
}

/// The error of one header: its name's, else its value's, else none.
pub open spec fn header_failure(h: (Seq<char>, Seq<char>)) -> Option<Seq<char>> {
    match http_header_name_check(h.0) {
        Err(e) => Some(e),
        Ok(_) => match http_header_value_check(h.1) {
            Err(e) => Some(e),
            Ok(_) => None,
        },
    }
}

/// The error of the first header that has one.
pub open spec fn first_header_failure(hs: Seq<(Seq<char>, Seq<char>)>) -> Option<Seq<char>>
    decreases hs.len(),
{
    if hs.len() == 0 {
        None
    } else {
        match header_failure(hs[0]) {
            Some(e) => Some(e),
            None => first_header_failure(hs.drop_first()),
        }
    }
}

/// What `download` makes of its options: `method` is absent, not a string
/// (`None`), or a string; `headers` and `body` are absent, or what reading
/// them as a table of strings and as a string gave. The checks go in that
/// order, each header's name before its value, and the first failure is the
/// answer.
pub open spec fn request_options_result(
    method: Option<Option<Seq<char>>>,
    headers: Option<Result<Seq<(Seq<char>, Seq<char>)>, Seq<char>>>,
    body: Option<Result<Seq<char>, Seq<char>>>,
) -> Result<RequestOptionsView, Seq<char>> {
    let method_failure = match method {
        Some(None) => Some("Method must be String"@),
        Some(Some(m)) => match http_method_check(m) {
            Err(e) => Some(e),
            Ok(_) => None,
        },
        None => None,
    };
    let headers_failure = match headers {
        Some(Err(e)) => Some(e),
        Some(Ok(hs)) => first_header_failure(hs),
        None => None,
    };
    let body_failure = match body {
        Some(Err(e)) => Some(e),
        _ => None,
    };
    if method_failure is Some {
        Err(method_failure->Some_0)
    } else if headers_failure is Some {
        Err(headers_failure->Some_0)
    } else if body_failure is Some {
        Err(body_failure->Some_0)
    } else {
        Ok(
            RequestOptionsView {
                method: match method {
                    Some(Some(m)) => m,
                    _ => "GET"@,
                },
                headers: match headers {
                    Some(Ok(hs)) => hs,
                    _ => Seq::empty(),
                },
                body: match body {
                    Some(Ok(b)) => Some(b),
                    _ => None,
                },
            },
        )
    }
}

/// The method argument with each text taken by its view.
pub open spec fn method_view(method: Option<Option<String>>) -> Option<Option<Seq<char>>> {
    match method {
        Some(Some(m)) => Some(Some(m@)),
        Some(None) => Some(None),
        None => None,
    }
}

/// The headers argument with each text taken by its view.
pub open spec fn headers_view(headers: Option<Result<Vec<(String, String)>, String>>) -> Option<
    Result<Seq<(Seq<char>, Seq<char>)>, Seq<char>>,
> {
    match headers {
        Some(Ok(hs)) => Some(Ok(pairs_view(hs@))),
        Some(Err(e)) => Some(Err(e@)),
        None => None,
    }
}

/// The body argument with each text taken by its view.
pub open spec fn body_view(body: Option<Result<String, String>>) -> Option<Result<Seq<char>, Seq<char>>> {
    match body {
        Some(Ok(b)) => Some(Ok(b@)),
        Some(Err(e)) => Some(Err(e@)),
        None => None,
    }
}

/// The result of `request_options` with each text taken by its view.
pub open spec fn options_view(r: Result<RequestOptions, String>) -> Result<RequestOptionsView, Seq<char>> {
    match r {
        Ok(o) => Ok(o@),
        Err(e) => Err(e@),
    }
}

/// The options of a script's `download` call: see `request_options_result`.
pub fn request_options(
    method: Option<Option<String>>,
    headers: Option<Result<Vec<(String, String)>, String>>,
    body: Option<Result<String, String>>,
) -> (r: Result<RequestOptions, String>)
    ensures
        options_view(r) == request_options_result(method_view(method), headers_view(headers), body_view(body)),
{
    let ghost mv = method_view(method);
    let ghost hv = headers_view(headers);
    let method_text = match method {
        None => {
            let m = "GET".to_owned();
            proof {
                reveal_strlit("GET");
            }
            m
        },
        Some(None) => {
            return Err("Method must be String".to_owned());
        },
        Some(Some(m)) => {
            match check_method(m.as_str()) {
                Err(e) => {
                    return Err(e);
                },
                Ok(_) => {},
            }
            m
        },
    };
    let header_list = match headers {
        None => Vec::new(),
        Some(Err(e)) => {
            return Err(e);
        },
        Some(Ok(hs)) => {
            let ghost pv = pairs_view(hs@);
            assert(pv.skip(0) == pv);
            let mut i: usize = 0;
            while i < hs.len()
                invariant
                    i <= hs.len(),
                    pv == pairs_view(hs@),
                    hv == Some(Ok::<Seq<(Seq<char>, Seq<char>)>, Seq<char>>(pv)),
                    mv == method_view(method),
                    hv == headers_view(headers),
                    match mv {
                        Some(None) => false,
                        Some(Some(m)) => http_method_check(m) is Ok,
                        None => true,
                    },
                    first_header_failure(pv) == first_header_failure(pv.skip(i as int)),
                decreases hs.len() - i,
            {
                let pair = &hs[i];
                proof {
                    assert(pv[i as int] == (pair.0@, pair.1@));
                    assert(pv.skip(i as int)[0] == pv[i as int]);
                    assert(pv.skip(i as int).drop_first() == pv.skip(i as int + 1));
                }
                match check_header_name(pair.0.as_str()) {
                    Err(e) => {
                        return Err(e);
                    },
                    Ok(_) => {},
                }
                match check_header_value(pair.1.as_str()) {
                    Err(e) => {
                        return Err(e);
                    },
                    Ok(_) => {},
                }
                i = i + 1;
            }
            proof {
                assert(pv.skip(i as int).len() == 0);
            }
            hs
        },
    };
    let body_text = match body {
        None => None,
        Some(Err(e)) => {
            return Err(e);
        },
        Some(Ok(b)) => Some(b),
    };
    let r = RequestOptions { method: method_text, headers: header_list, body: body_text };
    proof {
        assert(pairs_view(Seq::<(String, String)>::empty()) == Seq::<(Seq<char>, Seq<char>)>::empty());
    }
    Ok(r)
}

// ---------------------------------------------------------------------------
// parse_date and format_timestamp
// ---------------------------------------------------------------------------

#[verifier::external_type_specification]
#[verifier::external_body]
pub struct ExFormatItem<'a>(time::format_description::BorrowedFormatItem<'a>);

/// What `time::format_description::parse` reports for `format`: `None` when it
/// accepts the description, else the text of its error.
pub uninterp spec fn format_description_error(format: Seq<char>) -> Option<Seq<char>>;

/// What `time::Date::parse` reads from `date` with the items parsed from
/// `format`: year, month and day, or the text of the error.
pub uninterp spec fn time_parsed_date(date: Seq<char>, format: Seq<char>) -> Result<(i32, u8, u8), Seq<char>>;

/// What `time::OffsetDateTime::from_unix_timestamp(timestamp)` written with
/// the items parsed from `format` gives; or the text of the error.
pub uninterp spec fn time_timestamp_text(timestamp: i64, format: Seq<char>) -> Result<Seq<char>, Seq<char>>;

/// A result whose error is a `String`, with the error taken by its view.
pub open spec fn error_view<T>(r: Result<T, String>) -> Result<T, Seq<char>> {
    match r {
        Ok(v) => Ok(v),
        Err(m) => Err(m@),
    }
}

/// A result of two `String`s, each taken by its view.
pub open spec fn texts_view(r: Result<String, String>) -> Result<Seq<char>, Seq<char>> {
    match r {
        Ok(v) => Ok(v@),
        Err(m) => Err(m@),
    }
}

/// The format items that `time::format_description::parse` made of a format
/// description; its view is that description.
struct FormatItems<'a> {
    items: Vec<time::format_description::BorrowedFormatItem<'a>>,
    source: Ghost<Seq<char>>,
}

impl<'a> View for FormatItems<'a> {
    type V = Seq<char>;

    closed spec fn view(&self) -> Seq<char> {
        self.source@
    }
}

/// `time::format_description::parse`. Claimed: whether it fails, and the text
/// of its error, depend on `format` alone; the items it returns are those of
/// `format`.
#[verifier::external_body]
fn parse_format(format: &str) -> (r: Result<FormatItems<'_>, String>)
    ensures
        r is Ok <==> format_description_error(format@) is None,
        r matches Err(m) ==> Some(m@) == format_description_error(format@),
        r matches Ok(items) ==> items@ == format@,
{
    match time::format_description::parse(format) {
        Ok(items) => Ok(FormatItems { items, source: Ghost(format@) }),
        Err(e) => Err(e.to_string()),
    }
}

/// `time::Date::parse`, giving the year, month and day it read. Claimed: the
/// result depends on `date` and the format description alone, and a date of
/// `time` has a year within 999 999 of year 0 and a day that exists in its
/// month.
#[verifier::external_body]
fn parse_calendar_date(date: &str, items: &FormatItems<'_>) -> (r: Result<(i32, u8, u8), String>)
    ensures
        error_view(r) == time_parsed_date(date@, items@),
        r matches Ok((y, m, d)) ==> -999_999 <= y <= 999_999 && 1 <= m <= 12 && 1 <= d
            <= days_in_month(y as int, m as int),
{
    match time::Date::parse(date, &items.items) {
        Ok(d) => Ok((d.year(), u8::from(d.month()), d.day())),
        Err(e) => Err(e.to_string()),
    }
}

/// `time::OffsetDateTime::from_unix_timestamp`, then `format` with the items.
/// Claimed: the result depends on `timestamp` and the format description alone.
#[verifier::external_body]
fn format_unix(timestamp: i64, items: &FormatItems<'_>) -> (r: Result<String, String>)
    ensures
        texts_view(r) == time_timestamp_text(timestamp, items@),
{
    time::OffsetDateTime::from_unix_timestamp(timestamp).map_err(|e| e.to_string()).and_then(
        |d| d.format(&items.items).map_err(|e| e.to_string()),
    )
}

/// The script helper `parse_date(date, format)`: the Unix timestamp of
/// midnight UTC of `date`, read with the `time` format description `format`.
/// A description that `time` refuses gives its error; otherwise the date is
/// read with it, and the timestamp counts the days from 1 January 1970.
pub fn parse_date(date: &str, format: &str) -> (r: Result<i64, String>)
    ensures
        (match format_description_error(format@) {
            Some(t) => r matches Err(m) && m@ == t,
            None => match time_parsed_date(date@, format@) {
                Ok((y, m, d)) => r matches Ok(t) && t == midnight_timestamp(y as int, m as int, d as int),
                Err(e) => r matches Err(x) && x@ == e,
            },
        }),
{
    let items = parse_format(format)?;
    let (year, month, day) = parse_calendar_date(date, &items)?;
    Ok(midnight_unix(year, month, day))
}

/// The script helper `format_timestamp(timestamp, format)`: the Unix
/// timestamp written with the `time` format description `format`. A
/// description that `time` refuses gives its error; otherwise the timestamp is
/// written with it.
pub fn format_timestamp(timestamp: i64, format: &str) -> (r: Result<String, String>)
    ensures
        (match format_description_error(format@) {
            Some(t) => r matches Err(m) && m@ == t,
            None => texts_view(r) == time_timestamp_text(timestamp, format@),
        }),
{
    let items = parse_format(format)?;
    format_unix(timestamp, &items)
}

} // verus!
