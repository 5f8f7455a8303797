use frippy::plugins::factoid::json::{
    enter_level, json_double, lua_number, JsonNumber, LuaNumber, Nesting, MAX_NESTING,
};
use frippy::plugins::factoid::utils::{
    download_failure, format_timestamp, join_output, lua_failure_message, lua_inputs, parse_date,
    request_options, validate_persist, LuaFailure,
};
use frippy::datetime::midnight_unix;

#[test]
fn persist_limits() {
    assert_eq!(validate_persist("key", "value"), Ok(()));
    assert_eq!(validate_persist(&"k".repeat(32), &"v".repeat(5120)), Ok(()));
    assert_eq!(
        validate_persist(&"k".repeat(33), "v"),
        Err("Key can't be longer than 32 characters".to_string())
    );
    assert_eq!(
        validate_persist(&"k".repeat(33), &"v".repeat(6000)),
        Err("Key can't be longer than 32 characters".to_string())
    );
    assert_eq!(
        validate_persist("k", &"v".repeat(5121)),
        Err("Value can't be longer than 5120 characters".to_string())
    );
    // Lengths count bytes: 16 two-byte characters are 32 bytes, 17 are 34.
    assert_eq!(validate_persist(&"é".repeat(16), "v"), Ok(()));
    assert!(validate_persist(&"é".repeat(17), "v").is_err());
}

#[test]
fn script_globals() {
    let words: Vec<String> = vec!["a".to_string(), String::new(), "b".to_string()];
    let inputs = lua_inputs(&words, &"user".to_string(), &"#chan".to_string());
    assert_eq!(inputs.args, vec!["a", "b"]);
    assert_eq!(inputs.input, "a  b");
    assert_eq!(inputs.user, "user");
    assert_eq!(inputs.channel, "#chan");
    let none: Vec<String> = Vec::new();
    let inputs = lua_inputs(&none, &"u".to_string(), &"c".to_string());
    assert!(inputs.args.is_empty());
    assert_eq!(inputs.input, "");
}

#[test]
fn script_failure_texts() {
    assert_eq!(lua_failure_message(LuaFailure::OutOfMemory), "memory error: Factoid used over 1 MiB of ram");
    assert_eq!(
        lua_failure_message(LuaFailure::Other { text: "bad".to_string() }),
        "bad"
    );
}

#[test]
fn download_failure_text() {
    assert_eq!(
        download_failure("http://x", "timed out"),
        "Failed to download http://x - timed out"
    );
}

#[test]
fn dates() {
    assert_eq!(parse_date("2020-01-02", "[year]-[month]-[day]"), Ok(1577923200));
    assert!(parse_date("2020-01-02", "[year").is_err());
    assert!(parse_date("garbage", "[year]-[month]-[day]").is_err());
    assert_eq!(format_timestamp(0, "[year]-[month]-[day]"), Ok("1970-01-01".to_string()));
    assert_eq!(format_timestamp(1577923200, "[day].[month]."), Ok("02.01.".to_string()));
    assert!(format_timestamp(0, "[nonsense]").is_err());
}

#[test]
fn nesting_limit() {
    assert_eq!(MAX_NESTING, 25);
    assert_eq!(enter_level(25, Nesting::Json), Ok(24));
    assert_eq!(
        enter_level(0, Nesting::Json),
        Err("Reached max recursion level - json is nested too deep".to_string())
    );
    assert_eq!(
        enter_level(0, Nesting::Table),
        Err("Reached max recursion level - table is nested too deep".to_string())
    );
}

#[test]
fn numbers_between_json_and_lua() {
    assert_eq!(lua_number(JsonNumber::PosInt(7)), Ok(LuaNumber::Integer(7)));
    assert_eq!(lua_number(JsonNumber::NegInt(-7)), Ok(LuaNumber::Integer(-7)));
    assert_eq!(
        lua_number(JsonNumber::PosInt(u64::MAX)),
        Err("Failed to convert number into integer".to_string())
    );
    let half = 0.5f64.to_bits();
    assert_eq!(lua_number(JsonNumber::Float(half)), Ok(LuaNumber::Number(half)));
    assert_eq!(json_double(half), Some(half));
    assert_eq!(json_double(f64::NAN.to_bits()), None);
    assert_eq!(json_double(f64::INFINITY.to_bits()), None);
    assert_eq!(json_double(f64::NEG_INFINITY.to_bits()), None);
    assert_eq!(json_double(f64::MAX.to_bits()), Some(f64::MAX.to_bits()));
}

fn strings(v: &[&str]) -> Vec<String> {
    v.iter().map(|s| s.to_string()).collect()
}

#[test]
fn script_output_lines_are_joined_by_bars() {
    assert_eq!(join_output(&strings(&["a", "b", "c"])), "a|b|c");
    assert_eq!(join_output(&strings(&["only"])), "only");
    assert_eq!(join_output(&[]), "");
}

#[test]
fn midnight_counts_days_since_1970() {
    assert_eq!(midnight_unix(1970, 1, 1), 0);
    assert_eq!(midnight_unix(2000, 3, 1), 951868800);
    assert_eq!(midnight_unix(1969, 12, 31), -86400);
    assert_eq!(midnight_unix(1900, 1, 1), -2208988800);
    assert_eq!(midnight_unix(2024, 2, 29), 1709164800);
    assert_eq!(parse_date("1969-12-31", "[year]-[month]-[day]"), Ok(-86400));
}

#[test]
fn download_options_default_to_get() {
    let o = request_options(None, None, None).unwrap();
    assert_eq!(o.method, "GET");
    assert!(o.headers.is_empty());
    assert_eq!(o.body, None);
}

#[test]
fn download_options_keep_what_was_given() {
    let o = request_options(
        Some(Some("POST".to_string())),
        Some(Ok(vec![("X-Token".to_string(), "abc".to_string())])),
        Some(Ok("hi".to_string())),
    )
    .unwrap();
    assert_eq!(o.method, "POST");
    assert_eq!(o.headers, vec![("X-Token".to_string(), "abc".to_string())]);
    assert_eq!(o.body, Some("hi".to_string()));
}

#[test]
fn download_options_report_the_first_failure() {
    assert_eq!(
        request_options(Some(None), Some(Err("bad table".to_string())), None).unwrap_err(),
        "Method must be String"
    );
    assert_eq!(
        request_options(Some(Some("PO ST".to_string())), Some(Err("bad table".to_string())), None)
            .unwrap_err(),
        "invalid HTTP method"
    );
    assert_eq!(
        request_options(None, Some(Err("bad table".to_string())), Some(Err("bad body".to_string())))
            .unwrap_err(),
        "bad table"
    );
    assert_eq!(
        request_options(
            None,
            Some(Ok(vec![("bad name".to_string(), "a\nb".to_string())])),
            None
        )
        .unwrap_err(),
        "invalid HTTP header name"
    );
    assert_eq!(
        request_options(
            None,
            Some(Ok(vec![
                ("ok".to_string(), "fine".to_string()),
                ("x".to_string(), "a\nb".to_string())
            ])),
            None
        )
        .unwrap_err(),
        "failed to parse header value"
    );
    assert_eq!(
        request_options(None, None, Some(Err("bad body".to_string()))).unwrap_err(),
        "bad body"
    );
}

fn header(name: &str, value: &str) -> Option<Result<Vec<(String, String)>, String>> {
    Some(Ok(vec![(name.to_string(), value.to_string())]))
}

#[test]
fn download_options_follow_the_http_character_rules() {
    assert!(request_options(Some(Some("get".to_string())), None, None).is_ok());
    assert!(request_options(Some(Some("M!#$%&'*+-.^_`|~9".to_string())), None, None).is_ok());
    assert_eq!(
        request_options(Some(Some(String::new())), None, None).unwrap_err(),
        "invalid HTTP method"
    );
    assert_eq!(
        request_options(Some(Some("GÉT".to_string())), None, None).unwrap_err(),
        "invalid HTTP method"
    );
    assert!(request_options(None, header("X-Upper", "caf\u{e9}\tok"), None).is_ok());
    assert_eq!(
        request_options(None, header("n\u{e9}", "v"), None).unwrap_err(),
        "invalid HTTP header name"
    );
    assert_eq!(
        request_options(None, header("", "v"), None).unwrap_err(),
        "invalid HTTP header name"
    );
    assert_eq!(
        request_options(None, header(&"a".repeat(65536), "v"), None).unwrap_err(),
        "invalid HTTP header name"
    );
    assert!(request_options(None, header(&"a".repeat(65535), "v"), None).is_ok());
    assert_eq!(
        request_options(None, header("x", "a\u{7f}b"), None).unwrap_err(),
        "failed to parse header value"
    );
}
