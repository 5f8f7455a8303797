//! The rules `json_decode` and `json_encode` follow when they turn JSON into
//! Lua values and back: how deep they may go, and what becomes of numbers.
use vstd::prelude::*;

use serde_json::Value;

use super::utils::error_view;
use crate::text::{nat_text, string_from_chars, u64_text};

verus! {

/// How deep a JSON document or a Lua table may nest before conversion gives up.
pub const MAX_NESTING: usize = 25;

/// Which conversion is walking a nested value.
#[derive(Clone, Copy, Debug, PartialEq, Eq, Structural)]
pub enum Nesting {
    /// JSON being turned into Lua values.
    Json,
    /// A Lua table being turned into JSON.
    Table,
}

/// The error when nesting goes past the limit.
pub open spec fn too_deep_text(what: Nesting) -> Seq<char> {
    match what {
        Nesting::Json => "Reached max recursion level - json is nested too deep"@,
        Nesting::Table => "Reached max recursion level - table is nested too deep"@,
    }
}

/// Entering a value with `levels_left` levels of nesting still allowed: at
/// none left the conversion fails, else the value's children have one less.
pub fn enter_level(levels_left: usize, what: Nesting) -> (r: Result<usize, String>)
    ensures
        levels_left == 0 ==> (r matches Err(m) && m@ == too_deep_text(what)),
        levels_left > 0 ==> r == Ok::<usize, String>((levels_left - 1) as usize),
{
    if levels_left == 0 {
        match what {
            Nesting::Json => Err("Reached max recursion level - json is nested too deep".to_owned()),
            Nesting::Table => Err(
                "Reached max recursion level - table is nested too deep".to_owned(),
            ),
        }
    } else {
        Ok(levels_left - 1)
    }
}

/// A JSON number as `serde_json` keeps it: a non-negative integer, a negative
/// integer, or a double (by its IEEE 754 bits).
#[derive(Clone, Copy, Debug, PartialEq, Eq, Structural)]
pub enum JsonNumber {
    PosInt(u64),
    NegInt(i64),
    Float(u64),
}

/// A Lua number: an integer, or a double (by its IEEE 754 bits).
#[derive(Clone, Copy, Debug, PartialEq, Eq, Structural)]
pub enum LuaNumber {
    Integer(i64),
    Number(u64),
}

/// A JSON double stays a double; an integer must fit in an `i64`.
pub fn lua_number(n: JsonNumber) -> (r: Result<LuaNumber, String>)
    ensures
        match n {
            JsonNumber::Float(b) => r == Ok::<LuaNumber, String>(LuaNumber::Number(b)),
            JsonNumber::NegInt(i) => r == Ok::<LuaNumber, String>(LuaNumber::Integer(i)),
            JsonNumber::PosInt(u) => if u <= i64::MAX {
                r == Ok::<LuaNumber, String>(LuaNumber::Integer(u as i64))
            } else {
                r matches Err(m) && m@ == "Failed to convert number into integer"@
            },
        },
{
    match n {
        JsonNumber::Float(b) => Ok(LuaNumber::Number(b)),
        JsonNumber::NegInt(i) => Ok(LuaNumber::Integer(i)),
        JsonNumber::PosInt(u) => if u <= 9223372036854775807u64 {
            Ok(LuaNumber::Integer(u as i64))
        } else {
            Err("Failed to convert number into integer".to_owned())
        },
    }
}

/// Whether the double with IEEE 754 bits `bits` is finite (its exponent is
/// not all ones).
pub open spec fn is_finite_bits(bits: u64) -> bool {
    (bits >> 52u64) & 0x7ffu64 != 0x7ffu64
}

/// A Lua double becomes a JSON number when finite, else JSON `null` (`None`).
pub fn json_double(bits: u64) -> (r: Option<u64>)
    ensures
        is_finite_bits(bits) ==> r == Some(bits),
        !is_finite_bits(bits) ==> r is None,
{
    if (bits >> 52u64) & 0x7ffu64 != 0x7ffu64 {
        Some(bits)
    } else {
        None
    }
}

/// A JSON value as `serde_json` reads it; object members in the order it keeps.
#[derive(Debug, PartialEq)]
pub enum JsonTree {
    Null,
    Bool(bool),
    Number(JsonNumber),
    Text(String),
    Array(Vec<JsonTree>),
    Object(Vec<(String, JsonTree)>),
}

/// The key of a Lua table entry: an integer index or a string.
#[derive(Debug, PartialEq)]
pub enum LuaKey {
    Index(usize),
    Name(String),
}

/// A Lua value as the scripts' helpers pass it: `Other` stands for functions,
/// threads and user data, `Error` for an error value with its text; a double
/// is kept by its IEEE 754 bits.
#[derive(Debug, PartialEq)]
pub enum LuaTree {
    Nil,
    Boolean(bool),
    Integer(i64),
    Number(u64),
    Text(String),
    Error(String),
    Other,
    Table(Vec<(LuaKey, LuaTree)>),
}

/// Whether `v` nests no deeper than `levels` levels; a value that holds no
/// other takes one level.
pub open spec fn json_nests_within(v: JsonTree, levels: nat) -> bool
    decreases v,
{
    levels >= 1 && match v {
        JsonTree::Array(items) => forall|i: int|
            0 <= i < items.len() ==> json_nests_within(#[trigger] items@[i], (levels - 1) as nat),
        JsonTree::Object(pairs) => forall|i: int|
            0 <= i < pairs.len() ==> json_nests_within(#[trigger] pairs@[i].1, (levels - 1) as nat),
        _ => true,
    }
}

/// Whether every non-negative integer in `v` fits in an `i64`.
pub open spec fn json_integers_fit(v: JsonTree) -> bool
    decreases v,
{
    match v {
        JsonTree::Number(JsonNumber::PosInt(u)) => u <= i64::MAX,
        JsonTree::Array(items) => forall|i: int|
            0 <= i < items.len() ==> json_integers_fit(#[trigger] items@[i]),
        JsonTree::Object(pairs) => forall|i: int|
            0 <= i < pairs.len() ==> json_integers_fit(#[trigger] pairs@[i].1),
        _ => true,
    }
}

/// Whether `l` is the Lua value that `json_decode` makes of `j`: `null` is
/// `nil`, numbers keep their kind, an array is a table indexed from 1 and an
/// object a table keyed by its member names.
pub open spec fn lua_tree_matches(j: JsonTree, l: LuaTree) -> bool
    decreases j,
{
    match j {
        JsonTree::Null => l is Nil,
        JsonTree::Bool(b) => l == LuaTree::Boolean(b),
        JsonTree::Number(JsonNumber::Float(bits)) => l == LuaTree::Number(bits),
        JsonTree::Number(JsonNumber::NegInt(i)) => l == LuaTree::Integer(i),
        JsonTree::Number(JsonNumber::PosInt(u)) => l == LuaTree::Integer(u as i64),
        JsonTree::Text(s) => l matches LuaTree::Text(t) && t@ == s@,
        JsonTree::Array(items) => l matches LuaTree::Table(entries) && entries.len() == items.len()
            && forall|i: int|
            0 <= i < items.len() ==> entries@[i].0 == LuaKey::Index((i + 1) as usize)
                && lua_tree_matches(#[trigger] items@[i], entries@[i].1),
        JsonTree::Object(pairs) => l matches LuaTree::Table(entries) && entries.len() == pairs.len()
            && forall|i: int|
            0 <= i < pairs.len() ==> (entries@[i].0 matches LuaKey::Name(k) && k@ == pairs@[i].0@)
                && lua_tree_matches(#[trigger] pairs@[i].1, entries@[i].1),
    }
}

/// The error of turning `v` into a Lua value with `levels` levels allowed,
/// if any: the first met, a value being entered before what it holds, and
/// array items and object members in order.
pub open spec fn json_failure(v: JsonTree, levels: nat) -> Option<Seq<char>>
    decreases v,
{
    if levels == 0 {
        Some(too_deep_text(Nesting::Json))
    } else {
        let inner = (levels - 1) as nat;
        match v {
            JsonTree::Number(JsonNumber::PosInt(u)) => if u > i64::MAX {
                Some("Failed to convert number into integer"@)
            } else {
                None
            },
            JsonTree::Array(items) => if exists|k: int|
                #![trigger items@[k]]
                0 <= k < items.len() && json_failure(items@[k], inner) is Some && forall|j: int|
                    #![trigger items@[j]]
                    0 <= j < k ==> json_failure(items@[j], inner) is None {
                let k = choose|k: int|
                    #![trigger items@[k]]
                    0 <= k < items.len() && json_failure(items@[k], inner) is Some && forall|j: int|
                        #![trigger items@[j]]
                        0 <= j < k ==> json_failure(items@[j], inner) is None;
                if 0 <= k < items.len() {
                    json_failure(items@[k], inner)
                } else {
                    None
                }
            } else {
                None
            },
            JsonTree::Object(pairs) => if exists|k: int|
                #![trigger pairs@[k]]
                0 <= k < pairs.len() && json_failure(pairs@[k].1, inner) is Some && forall|j: int|
                    #![trigger pairs@[j]]
                    0 <= j < k ==> json_failure(pairs@[j].1, inner) is None {
                let k = choose|k: int|
                    #![trigger pairs@[k]]
                    0 <= k < pairs.len() && json_failure(pairs@[k].1, inner) is Some && forall|j: int|
                        #![trigger pairs@[j]]
                        0 <= j < k ==> json_failure(pairs@[j].1, inner) is None;
                if 0 <= k < pairs.len() {
                    json_failure(pairs@[k].1, inner)
                } else {
                    None
                }
            } else {
                None
            },
            _ => None,
        }
    }
}

/// What turning `v` into a Lua value with `levels` levels allowed gives:
/// success exactly when it nests within them and its integers fit, then the
/// matching Lua value; else the error of a rule it breaks, the first met.
pub open spec fn lua_tree_outcome(v: JsonTree, levels: nat, r: Result<LuaTree, String>) -> bool {
    &&& (r is Ok <==> json_nests_within(v, levels) && json_integers_fit(v))
    &&& (r matches Ok(l) ==> lua_tree_matches(v, l))
    &&& (r matches Err(m) ==> (!json_nests_within(v, levels) && m@ == too_deep_text(Nesting::Json))
        || (!json_integers_fit(v) && m@ == "Failed to convert number into integer"@))
    &&& (r is Ok ==> json_failure(v, levels) is None)
    &&& (r matches Err(m) ==> json_failure(v, levels) == Some(m@))
}

/// The Lua value of a JSON value, with `levels_left` levels of nesting allowed.
pub fn lua_tree_of(v: &JsonTree, levels_left: usize) -> (r: Result<LuaTree, String>)
    ensures
        lua_tree_outcome(*v, levels_left as nat, r),
    decreases v,
{
    let levels = match enter_level(levels_left, Nesting::Json) {
        Err(e) => {
            return Err(e);
        },
        Ok(l) => l,
    };
    match v {
        JsonTree::Null => Ok(LuaTree::Nil),
        JsonTree::Bool(b) => Ok(LuaTree::Boolean(*b)),
        JsonTree::Number(n) => match lua_number(*n) {
            Ok(LuaNumber::Integer(i)) => Ok(LuaTree::Integer(i)),
            Ok(LuaNumber::Number(bits)) => Ok(LuaTree::Number(bits)),
            Err(e) => Err(e),
        },
        JsonTree::Text(s) => Ok(LuaTree::Text(s.clone())),
        JsonTree::Array(items) => {
            let mut entries: Vec<(LuaKey, LuaTree)> = Vec::new();
            let mut i: usize = 0;
            while i < items.len()
                invariant
                    *v == JsonTree::Array(*items),
                    levels == levels_left - 1,
                    levels_left >= 1,
                    i <= items.len(),
                    entries.len() == i,
                    forall|j: int|
                        #![trigger entries@[j]]
                        0 <= j < i ==> entries@[j].0 == LuaKey::Index((j + 1) as usize)
                            && lua_tree_matches(items@[j], entries@[j].1)
                            && json_nests_within(items@[j], levels as nat)
                            && json_integers_fit(items@[j]),
                    forall|j: int|
                        #![trigger items@[j]]
                        0 <= j < i ==> json_failure(items@[j], levels as nat) is None,
                decreases items.len() - i,
            {
                proof {
                    assert(decreases_to!(*v => *items));
                    assert(decreases_to!(*items => items@));
                    assert(decreases_to!(items@ => items@[i as int]));
                    assert(decreases_to!(*v => items@[i as int]));
                }
                let child = lua_tree_of(&items[i], levels);
                match child {
                    Err(e) => {
                        proof {
                            let c = items@[i as int];
                            let inner = levels as nat;
                            assert(((levels_left as nat) - 1) as nat == inner);
                            assert forall|k: int|
                                #![trigger items@[k]]
                                0 <= k < items.len() && json_failure(items@[k], inner) is Some && (
                                forall|j: int|
                                    #![trigger items@[j]]
                                    0 <= j < k ==> json_failure(items@[j], inner) is None) implies k
                                == i by {
                                if k < i {
                                    assert(json_failure(items@[k], inner) is None);
                                }
                                if k > i {
                                    assert(json_failure(items@[i as int], inner) is None);
                                }
                            }
                            assert(*v matches JsonTree::Array(its) && its@[i as int] == c);
                            assert(json_failure(*v, levels_left as nat) == json_failure(c, inner));
                            if !json_nests_within(c, levels as nat) {
                                assert(((levels_left as nat) - 1) as nat == levels as nat);
                                assert(*v matches JsonTree::Array(its) && its@[i as int] == c);
                                assert(!json_nests_within(*v, levels_left as nat));
                            } else {
                                assert(!json_integers_fit(*v));
                            }
                        }
                        return Err(e);
                    },
                    Ok(c) => {
                        let ghost prev = entries@;
                        entries.push((LuaKey::Index(i + 1), c));
                        proof {
                            assert forall|j: int| #![trigger entries@[j]] 0 <= j < i + 1 implies entries@[j].0 == LuaKey::Index(
                                (j + 1) as usize,
                            ) && lua_tree_matches(items@[j], entries@[j].1)
                                && json_nests_within(items@[j], levels as nat) && json_integers_fit(
                                items@[j],
                            ) by {
                                if j < i {
                                    assert(entries@[j] == prev[j]);
                                }
                            }
                        }
                    },
                }
                i = i + 1;
            }
            proof {
                assert(*v matches JsonTree::Array(its) && its == *items);
                assert forall|k: int| 0 <= k < items.len() implies entries@[k].0 == LuaKey::Index(
                    (k + 1) as usize,
                ) && lua_tree_matches(#[trigger] items@[k], entries@[k].1) by {}
                assert(json_nests_within(*v, levels_left as nat));
                assert(json_integers_fit(*v));
                assert(lua_tree_matches(*v, LuaTree::Table(entries)));
            }
            Ok(LuaTree::Table(entries))
        },
        JsonTree::Object(pairs) => {
            let mut entries: Vec<(LuaKey, LuaTree)> = Vec::new();
            let mut i: usize = 0;
            while i < pairs.len()
                invariant
                    *v == JsonTree::Object(*pairs),
                    levels == levels_left - 1,
                    levels_left >= 1,
                    i <= pairs.len(),
                    entries.len() == i,
                    forall|j: int|
                        #![trigger entries@[j]]
                        0 <= j < i ==> (entries@[j].0 matches LuaKey::Name(k) && k@ == pairs@[j].0@)
                            && lua_tree_matches(pairs@[j].1, entries@[j].1)
                            && json_nests_within(pairs@[j].1, levels as nat)
                            && json_integers_fit(pairs@[j].1),
                    forall|j: int|
                        #![trigger pairs@[j]]
                        0 <= j < i ==> json_failure(pairs@[j].1, levels as nat) is None,
                decreases pairs.len() - i,
            {
                proof {
                    assert(decreases_to!(*v => *pairs));
                    assert(decreases_to!(*pairs => pairs@));
                    assert(decreases_to!(pairs@ => pairs@[i as int]));
                    assert(decreases_to!(pairs@[i as int] => pairs@[i as int].1));
                    assert(decreases_to!(*v => pairs@[i as int].1));
                }
                let child = lua_tree_of(&pairs[i].1, levels);
                match child {
                    Err(e) => {
                        proof {
                            let c = pairs@[i as int].1;
                            let inner = levels as nat;
                            assert(((levels_left as nat) - 1) as nat == inner);
                            assert forall|k: int|
                                #![trigger pairs@[k]]
                                0 <= k < pairs.len() && json_failure(pairs@[k].1, inner) is Some && (
                                forall|j: int|
                                    #![trigger pairs@[j]]
                                    0 <= j < k ==> json_failure(pairs@[j].1, inner) is None) implies k
                                == i by {
                                if k < i {
                                    assert(json_failure(pairs@[k].1, inner) is None);
                                }
                                if k > i {
                                    assert(json_failure(pairs@[i as int].1, inner) is None);
                                }
                            }
                            assert(*v matches JsonTree::Object(ps) && ps@[i as int].1 == c);
                            assert(json_failure(*v, levels_left as nat) == json_failure(c, inner));
                            if !json_nests_within(c, levels as nat) {
                                assert(((levels_left as nat) - 1) as nat == levels as nat);
                                assert(*v matches JsonTree::Object(ps) && ps@[i as int].1 == c);
                                assert(!json_nests_within(*v, levels_left as nat));
                            } else {
                                assert(!json_integers_fit(*v));
                            }
                        }
                        return Err(e);
                    },
                    Ok(c) => {
                        let key = pairs[i].0.clone();
                        let ghost prev = entries@;
                        entries.push((LuaKey::Name(key), c));
                        proof {
                            assert forall|j: int| #![trigger entries@[j]] 0 <= j < i + 1 implies (entries@[j].0 matches LuaKey::Name(
                                k,
                            ) && k@ == pairs@[j].0@) && lua_tree_matches(pairs@[j].1, entries@[j].1)
                                && json_nests_within(pairs@[j].1, levels as nat) && json_integers_fit(
                                pairs@[j].1,
                            ) by {
                                if j < i {
                                    assert(entries@[j] == prev[j]);
                                }
                            }
                        }
                    },
                }
                i = i + 1;
            }
            proof {
                assert(*v matches JsonTree::Object(ps) && ps == *pairs);
                assert forall|k: int| 0 <= k < pairs.len() implies (entries@[k].0 matches LuaKey::Name(
                    n,
                ) && n@ == pairs@[k].0@) && lua_tree_matches(#[trigger] pairs@[k].1, entries@[k].1) by {}
                assert(json_nests_within(*v, levels_left as nat));
                assert(json_integers_fit(*v));
                assert(lua_tree_matches(*v, LuaTree::Table(entries)));
            }
            Ok(LuaTree::Table(entries))
        },
    }
}

/// `serde_json`'s `Value`, carried through opaque.
#[verifier::external_type_specification]
#[verifier::external_body]
pub struct ExJsonValue(Value);

/// What `serde_json::from_str` reads from `json` as a `serde_json::Value`,
/// written as a `JsonTree`; or the text of its error.
pub uninterp spec fn serde_json_tree(json: Seq<char>) -> Result<JsonTree, Seq<char>>;

/// Writes a `serde_json::Value` as a `JsonTree`, one for one: each number by
/// the kind `serde_json` keeps it as, object members in the order it keeps.
/// Called only by `parse_json`, whose contract covers it.
#[verifier::external_body]
fn json_tree_from(v: Value) -> JsonTree {
    match v {
        Value::Null => JsonTree::Null,
        Value::Bool(b) => JsonTree::Bool(b),
        Value::Number(n) => JsonTree::Number(match (n.as_u64(), n.as_i64()) {
            (Some(u), _) => JsonNumber::PosInt(u),
            (_, Some(i)) => JsonNumber::NegInt(i),
            _ => JsonNumber::Float(n.as_f64().map_or(0, |x| x.to_bits())),
        }),
        Value::String(s) => JsonTree::Text(s),
        Value::Array(a) => JsonTree::Array(a.into_iter().map(json_tree_from).collect()),
        Value::Object(o) => JsonTree::Object(o.into_iter().map(|(k, x)| (k, json_tree_from(x))).collect()),
    }
}

/// `serde_json::from_str` into a `serde_json::Value`, written as a
/// `JsonTree`. Claimed: the result depends on `json` alone.
#[verifier::external_body]
fn parse_json(json: &str) -> (r: Result<JsonTree, String>)
    ensures
        error_view(r) == serde_json_tree(json@),
{
    serde_json::from_str::<Value>(json).map(json_tree_from).map_err(|e| e.to_string())
}

/// The script helper `json_decode(json)`: the Lua value of the JSON text,
/// nested at most `MAX_NESTING` deep.
pub fn json_decode(json: &str) -> (r: Result<LuaTree, String>)
    ensures
        (match serde_json_tree(json@) {
            Err(t) => r matches Err(m) && m@ == t,
            Ok(tree) => lua_tree_outcome(tree, MAX_NESTING as nat, r),
        }),
{
    match parse_json(json) {
        Err(e) => Err(e),
        Ok(tree) => lua_tree_of(&tree, MAX_NESTING),
    }
}

/// Whether `v` nests no deeper than `levels` levels; a value that holds no
/// other takes one level.
pub open spec fn lua_nests_within(v: LuaTree, levels: nat) -> bool
    decreases v,
{
    levels >= 1 && match v {
        LuaTree::Table(entries) => forall|i: int|
            0 <= i < entries.len() ==> lua_nests_within(#[trigger] entries@[i].1, (levels - 1) as nat),
        _ => true,
    }
}

/// The text a table key becomes as a JSON member name.
pub open spec fn key_text(k: LuaKey) -> Seq<char> {
    match k {
        LuaKey::Index(n) => nat_text(n as nat),
        LuaKey::Name(s) => s@,
    }
}

/// Whether `j` is the JSON value that `json_encode` makes of `l`: `nil` and
/// values JSON cannot hold are `null`, an error value is its text, a double
/// that is not finite is `null`, a table is an object whose members follow its
/// entries in order (a later member of the same name replaces an earlier one
/// when the object is written).
pub open spec fn json_tree_matches(l: LuaTree, j: JsonTree) -> bool
    decreases l,
{
    match l {
        LuaTree::Nil => j is Null,
        LuaTree::Other => j is Null,
        LuaTree::Error(t) => j matches JsonTree::Text(s) && s@ == t@,
        LuaTree::Text(t) => j matches JsonTree::Text(s) && s@ == t@,
        LuaTree::Boolean(b) => j == JsonTree::Bool(b),
        LuaTree::Integer(i) => j == JsonTree::Number(
            if i >= 0 {
                JsonNumber::PosInt(i as u64)
            } else {
                JsonNumber::NegInt(i)
            },
        ),
        LuaTree::Number(bits) => if is_finite_bits(bits) {
            j == JsonTree::Number(JsonNumber::Float(bits))
        } else {
            j is Null
        },
        LuaTree::Table(entries) => j matches JsonTree::Object(pairs) && pairs.len() == entries.len()
            && forall|i: int|
            0 <= i < entries.len() ==> pairs@[i].0@ == key_text(entries@[i].0)
                && json_tree_matches(#[trigger] entries@[i].1, pairs@[i].1),
    }
}

/// What turning `v` into JSON with `levels` levels allowed gives: success
/// exactly when it nests within them, then the matching JSON value; else the
/// error for a table nested too deep.
pub open spec fn json_tree_outcome(v: LuaTree, levels: nat, r: Result<JsonTree, String>) -> bool {
    &&& (r is Ok <==> lua_nests_within(v, levels))
    &&& (r matches Ok(j) ==> json_tree_matches(v, j))
    &&& (r matches Err(m) ==> m@ == too_deep_text(Nesting::Table))
}

fn key_string(k: &LuaKey) -> (s: String)
    ensures
        s@ == key_text(*k),
{
    match k {
        LuaKey::Index(n) => {
            let digits = u64_text(*n as u64);
            string_from_chars(digits.as_slice())
        },
        LuaKey::Name(s) => s.clone(),
    }
}

/// The JSON value of a Lua value, with `levels_left` levels of nesting allowed.
pub fn json_tree_of(v: &LuaTree, levels_left: usize) -> (r: Result<JsonTree, String>)
    ensures
        json_tree_outcome(*v, levels_left as nat, r),
    decreases v,
{
    let levels = match enter_level(levels_left, Nesting::Table) {
        Err(e) => {
            return Err(e);
        },
        Ok(l) => l,
    };
    match v {
        LuaTree::Nil => Ok(JsonTree::Null),
        LuaTree::Other => Ok(JsonTree::Null),
        LuaTree::Error(t) => Ok(JsonTree::Text(t.clone())),
        LuaTree::Text(t) => Ok(JsonTree::Text(t.clone())),
        LuaTree::Boolean(b) => Ok(JsonTree::Bool(*b)),
        LuaTree::Integer(i) => if *i >= 0 {
            Ok(JsonTree::Number(JsonNumber::PosInt(*i as u64)))
        } else {
            Ok(JsonTree::Number(JsonNumber::NegInt(*i)))
        },
        LuaTree::Number(bits) => match json_double(*bits) {
            Some(b) => Ok(JsonTree::Number(JsonNumber::Float(b))),
            None => Ok(JsonTree::Null),
        },
        LuaTree::Table(entries) => {
            let mut pairs: Vec<(String, JsonTree)> = Vec::new();
            let mut i: usize = 0;
            while i < entries.len()
                invariant
                    *v == LuaTree::Table(*entries),
                    levels == levels_left - 1,
                    levels_left >= 1,
                    i <= entries.len(),
                    pairs.len() == i,
                    forall|j: int|
                        #![trigger pairs@[j]]
                        0 <= j < i ==> pairs@[j].0@ == key_text(entries@[j].0)
                            && json_tree_matches(entries@[j].1, pairs@[j].1)
                            && lua_nests_within(entries@[j].1, levels as nat),
                decreases entries.len() - i,
            {
                proof {
                    assert(decreases_to!(*v => *entries));
                    assert(decreases_to!(*entries => entries@));
                    assert(decreases_to!(entries@ => entries@[i as int]));
                    assert(decreases_to!(entries@[i as int] => entries@[i as int].1));
                    assert(decreases_to!(*v => entries@[i as int].1));
                }
                let child = json_tree_of(&entries[i].1, levels);
                match child {
                    Err(e) => {
                        proof {
                            let c = entries@[i as int].1;
                            assert(((levels_left as nat) - 1) as nat == levels as nat);
                            assert(*v matches LuaTree::Table(es) && es@[i as int].1 == c);
                            assert(!lua_nests_within(*v, levels_left as nat));
                        }
                        return Err(e);
                    },
                    Ok(c) => {
                        let name = key_string(&entries[i].0);
                        let ghost prev = pairs@;
                        pairs.push((name, c));
                        proof {
                            assert forall|j: int| #![trigger pairs@[j]] 0 <= j < i + 1 implies pairs@[j].0@
                                == key_text(entries@[j].0) && json_tree_matches(entries@[j].1, pairs@[j].1)
                                && lua_nests_within(entries@[j].1, levels as nat) by {
                                if j < i {
                                    assert(pairs@[j] == prev[j]);
                                }
                            }
                        }
                    },
                }
                i = i + 1;
            }
            proof {
                assert(*v matches LuaTree::Table(es) && es == *entries);
                assert forall|k: int| 0 <= k < entries.len() implies pairs@[k].0@ == key_text(
                    entries@[k].0,
                ) && json_tree_matches(#[trigger] entries@[k].1, pairs@[k].1) by {}
                assert(lua_nests_within(*v, levels_left as nat));
                assert(json_tree_matches(*v, JsonTree::Object(pairs)));
            }
            Ok(JsonTree::Object(pairs))
        },
    }
}

/// The script helper `json_encode(value)`: the JSON value of the Lua value,
/// nested at most `MAX_NESTING` deep.
pub fn json_encode(v: &LuaTree) -> (r: Result<JsonTree, String>)
    ensures
        json_tree_outcome(*v, MAX_NESTING as nat, r),
{
    json_tree_of(v, MAX_NESTING)
}


/// `json_encode` keeps text: a Lua string or error value becomes a JSON
/// string of the same text, and a value becomes `null` exactly when it is
/// `nil`, a value JSON cannot hold, or a double that is not finite.
pub proof fn law_json_encode_keeps_text(v: LuaTree, levels: nat, r: Result<JsonTree, String>)
    requires
        json_tree_outcome(v, levels, r),
    ensures
        r matches Ok(j) ==> {
            &&& (v matches LuaTree::Text(t) ==> j matches JsonTree::Text(s) && s@ == t@)
            &&& (v matches LuaTree::Error(t) ==> j matches JsonTree::Text(s) && s@ == t@)
            &&& (j is Null <==> (v is Nil || v is Other || (v matches LuaTree::Number(b)
                && !is_finite_bits(b))))
        },
{
}

/// `json_decode` keeps text: a JSON string becomes a Lua string of the same
/// text, and a value becomes `nil` exactly when it is `null`.
pub proof fn law_json_decode_keeps_text(v: JsonTree, levels: nat, r: Result<LuaTree, String>)
    requires
        lua_tree_outcome(v, levels, r),
    ensures
        r matches Ok(l) ==> {
            &&& (v matches JsonTree::Text(s) ==> l matches LuaTree::Text(t) && t@ == s@)
            &&& (l is Nil <==> v is Null)
        },
{
}

} // verus!
