use frippy::plugins::factoid::json::{
    json_decode, json_encode, JsonNumber, JsonTree, LuaKey, LuaTree,
};

fn nested_arrays(depth: usize) -> String {
    format!("{}{}", "[".repeat(depth), "]".repeat(depth))
}

fn nested_tables(depth: usize) -> LuaTree {
    let mut t = LuaTree::Table(Vec::new());
    for _ in 1..depth {
        t = LuaTree::Table(vec![(LuaKey::Name("x".to_string()), t)]);
    }
    t
}

#[test]
fn decoding_arrays_gives_tables_indexed_from_one() {
    let tree = json_decode("[1, -2, 1.5, \"x\", null, true]").unwrap();
    assert_eq!(
        tree,
        LuaTree::Table(vec![
            (LuaKey::Index(1), LuaTree::Integer(1)),
            (LuaKey::Index(2), LuaTree::Integer(-2)),
            (LuaKey::Index(3), LuaTree::Number(1.5f64.to_bits())),
            (LuaKey::Index(4), LuaTree::Text("x".to_string())),
            (LuaKey::Index(5), LuaTree::Nil),
            (LuaKey::Index(6), LuaTree::Boolean(true)),
        ])
    );
}

#[test]
fn decoding_objects_keys_tables_by_member_name() {
    match json_decode("{\"b\": 1, \"a\": \"z\"}").unwrap() {
        LuaTree::Table(entries) => {
            assert_eq!(entries.len(), 2);
            assert!(entries.contains(&(LuaKey::Name("a".to_string()), LuaTree::Text("z".to_string()))));
            assert!(entries.contains(&(LuaKey::Name("b".to_string()), LuaTree::Integer(1))));
        }
        other => panic!("not a table: {:?}", other),
    }
}

#[test]
fn decoding_stops_past_twenty_five_levels() {
    assert!(json_decode(&nested_arrays(25)).is_ok());
    assert_eq!(
        json_decode(&nested_arrays(26)),
        Err("Reached max recursion level - json is nested too deep".to_string())
    );
}

#[test]
fn decoding_refuses_integers_past_i64() {
    assert_eq!(json_decode("9223372036854775807"), Ok(LuaTree::Integer(i64::MAX)));
    assert_eq!(
        json_decode("[18446744073709551615]"),
        Err("Failed to convert number into integer".to_string())
    );
}

#[test]
fn decoding_bad_json_gives_the_parser_error() {
    let e = json_decode("{").unwrap_err();
    assert!(e.contains("EOF"), "{}", e);
}

#[test]
fn encoding_maps_each_kind_of_lua_value() {
    let tree = LuaTree::Table(vec![
        (LuaKey::Name("a".to_string()), LuaTree::Integer(1)),
        (LuaKey::Name("b".to_string()), LuaTree::Integer(-3)),
        (LuaKey::Name("c".to_string()), LuaTree::Number(f64::NAN.to_bits())),
        (LuaKey::Name("d".to_string()), LuaTree::Number(2.5f64.to_bits())),
        (LuaKey::Name("e".to_string()), LuaTree::Error("boom".to_string())),
        (LuaKey::Name("f".to_string()), LuaTree::Other),
        (LuaKey::Index(7), LuaTree::Boolean(false)),
    ]);
    assert_eq!(
        json_encode(&tree),
        Ok(JsonTree::Object(vec![
            ("a".to_string(), JsonTree::Number(JsonNumber::PosInt(1))),
            ("b".to_string(), JsonTree::Number(JsonNumber::NegInt(-3))),
            ("c".to_string(), JsonTree::Null),
            ("d".to_string(), JsonTree::Number(JsonNumber::Float(2.5f64.to_bits()))),
            ("e".to_string(), JsonTree::Text("boom".to_string())),
            ("f".to_string(), JsonTree::Null),
            ("7".to_string(), JsonTree::Bool(false)),
        ]))
    );
}

#[test]
fn encoding_stops_past_twenty_five_levels() {
    assert!(json_encode(&nested_tables(25)).is_ok());
    assert_eq!(
        json_encode(&nested_tables(26)),
        Err("Reached max recursion level - table is nested too deep".to_string())
    );
}

#[test]
fn decoding_reports_the_first_failure_met() {
    let deep_then_big = format!("[{}, 18446744073709551615]", nested_arrays(25));
    let big_then_deep = format!("[18446744073709551615, {}]", nested_arrays(25));
    assert_eq!(
        json_decode(&deep_then_big),
        Err("Reached max recursion level - json is nested too deep".to_string())
    );
    assert_eq!(
        json_decode(&big_then_deep),
        Err("Failed to convert number into integer".to_string())
    );
}
