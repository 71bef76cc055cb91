//! A JSON value tree owned by the library, so that decoding logic can be
//! stated and checked; text is parsed and printed by serde_json.

use vstd::prelude::*;
use crate::text::same_text;
use serde_json::Value;

verus! {

#[verifier::external_type_specification]
#[verifier::external_body]
pub struct ExSerdeValue(serde_json::Value);

/// A JSON number: an integer that fits `u64` or `i64`, or any other number kept as its text.
#[derive(Debug)]
pub enum JsonNumber {
    Unsigned(u64),
    Signed(i64),
    Other(String),
}

/// A JSON value. Object members keep the order in which they were parsed or built.
#[derive(Debug)]
pub enum JsonValue {
    Null,
    Bool(bool),
    Number(JsonNumber),
    Str(String),
    Array(Vec<JsonValue>),
    Object(Vec<(String, JsonValue)>),
}

/// What serde_json parses a text into, if it is valid JSON.
pub uninterp spec fn json_parse(s: Seq<char>) -> Option<JsonValue>;

/// The compact JSON text that serde_json prints for a value.
pub uninterp spec fn json_print(v: JsonValue) -> Seq<char>;

/// Rebuilds a parsed serde_json tree as a `JsonValue`, variant for variant.
#[verifier::external_body]
fn from_serde(v: Value) -> JsonValue {
    match v {
        Value::Null => JsonValue::Null,
        Value::Bool(b) => JsonValue::Bool(b),
        Value::Number(n) => JsonValue::Number(match (n.as_u64(), n.as_i64()) {
            (Some(u), _) => JsonNumber::Unsigned(u),
            (None, Some(i)) => JsonNumber::Signed(i),
            (None, None) => JsonNumber::Other(n.to_string()),
        }),
        Value::String(s) => JsonValue::Str(s),
        Value::Array(a) => JsonValue::Array(a.into_iter().map(from_serde).collect()),
        Value::Object(m) => JsonValue::Object(m.into_iter().map(|(k, x)| (k, from_serde(x))).collect()),
    }
}

/// Rebuilds a `JsonValue` as a serde_json tree, variant for variant.
#[verifier::external_body]
fn to_serde(v: &JsonValue) -> Value {
    match v {
        JsonValue::Null => Value::Null,
        JsonValue::Bool(b) => Value::Bool(*b),
        JsonValue::Number(JsonNumber::Unsigned(u)) => Value::from(*u),
        JsonValue::Number(JsonNumber::Signed(i)) => Value::from(*i),
        JsonValue::Number(JsonNumber::Other(t)) => t.parse().map(Value::Number).unwrap_or(Value::Null),
        JsonValue::Str(s) => Value::String(s.clone()),
        JsonValue::Array(a) => Value::Array(a.iter().map(to_serde).collect()),
        JsonValue::Object(m) => Value::Object(m.iter().map(|(k, x)| (k.clone(), to_serde(x))).collect()),
    }
}

/// Relies on `serde_json::from_str::<serde_json::Value>`: the parsed tree, or `None` for text that is not JSON.
#[verifier::external_body]
pub(crate) fn parse_json(text: &str) -> (r: Option<JsonValue>)
    ensures
        r == json_parse(text@),
{
    serde_json::from_str::<Value>(text).ok().map(from_serde)
}

/// Relies on `serde_json::Value`'s `Display`: the compact JSON text of `v`.
#[verifier::external_body]
pub(crate) fn print_json(v: &JsonValue) -> (r: String)
    ensures
        r@ == json_print(*v),
{
    to_serde(v).to_string()
}

/// The value of the first member named `key`, when `members` has one.
pub open spec fn member(members: Seq<(String, JsonValue)>, key: Seq<char>) -> Option<JsonValue>
    decreases members.len(),
{
    if members.len() == 0 {
        None
    } else if members[0].0@ == key {
        Some(members[0].1)
    } else {
        member(members.drop_first(), key)
    }
}

/// The member named `key` of an object; `None` for a missing key or a value that is not an object.
pub open spec fn field(v: JsonValue, key: Seq<char>) -> Option<JsonValue> {
    match v {
        JsonValue::Object(ms) => member(ms@, key),
        _ => None,
    }
}

pub open spec fn str_value(v: JsonValue) -> Option<Seq<char>> {
    match v {
        JsonValue::Str(s) => Some(s@),
        _ => None,
    }
}

/// The integer a number stands for, if it is one.
pub open spec fn int_value(v: JsonValue) -> Option<int> {
    match v {
        JsonValue::Number(JsonNumber::Unsigned(u)) => Some(u as int),
        JsonValue::Number(JsonNumber::Signed(i)) => Some(i as int),
        _ => None,
    }
}

/// An integer within `[lo, hi]`, as a typed decoder accepts it.
pub open spec fn int_in(v: JsonValue, lo: int, hi: int) -> Option<int> {
    match int_value(v) {
        Some(n) => if lo <= n && n <= hi { Some(n) } else { None },
        None => None,
    }
}

pub open spec fn bool_value(v: JsonValue) -> Option<bool> {
    match v {
        JsonValue::Bool(b) => Some(b),
        _ => None,
    }
}

/// A required string member.
pub open spec fn req_str(v: JsonValue, key: Seq<char>) -> Option<Seq<char>> {
    match field(v, key) {
        Some(x) => str_value(x),
        None => None,
    }
}

/// An optional string member: absent or null gives `Some(None)`; another type fails.
pub open spec fn opt_str(v: JsonValue, key: Seq<char>) -> Option<Option<Seq<char>>> {
    match field(v, key) {
        None => Some(None),
        Some(JsonValue::Null) => Some(None),
        Some(x) => match str_value(x) {
            Some(s) => Some(Some(s)),
            None => None,
        },
    }
}

/// A required integer member within `[lo, hi]`.
pub open spec fn req_int(v: JsonValue, key: Seq<char>, lo: int, hi: int) -> Option<int> {
    match field(v, key) {
        Some(x) => int_in(x, lo, hi),
        None => None,
    }
}

/// An optional integer member within `[lo, hi]`: absent or null gives `Some(None)`.
pub open spec fn opt_int(v: JsonValue, key: Seq<char>, lo: int, hi: int) -> Option<Option<int>> {
    match field(v, key) {
        None => Some(None),
        Some(JsonValue::Null) => Some(None),
        Some(x) => match int_in(x, lo, hi) {
            Some(n) => Some(Some(n)),
            None => None,
        },
    }
}

/// An integer member within `[lo, hi]` that takes `d` when absent.
pub open spec fn int_or(v: JsonValue, key: Seq<char>, lo: int, hi: int, d: int) -> Option<int> {
    match field(v, key) {
        None => Some(d),
        Some(x) => int_in(x, lo, hi),
    }
}

/// A boolean member that is false when absent.
pub open spec fn bool_or_false(v: JsonValue, key: Seq<char>) -> Option<bool> {
    match field(v, key) {
        None => Some(false),
        Some(x) => bool_value(x),
    }
}

/// A member of any type that may be absent; null counts as absent.
pub open spec fn opt_any(v: JsonValue, key: Seq<char>) -> Option<JsonValue> {
    match field(v, key) {
        Some(JsonValue::Null) => None,
        other => other,
    }
}

pub open spec fn opt_views(o: Option<String>) -> Option<Seq<char>> {
    match o {
        Some(s) => Some(s@),
        None => None,
    }
}

/// The member names of an object, in order.
pub open spec fn keys_of(v: JsonValue) -> Seq<Seq<char>> {
    match v {
        JsonValue::Object(ms) => ms@.map_values(|m: (String, JsonValue)| m.0@),
        _ => Seq::empty(),
    }
}

/// The member values of an object, in order.
pub open spec fn values_of(v: JsonValue) -> Seq<JsonValue> {
    match v {
        JsonValue::Object(ms) => ms@.map_values(|m: (String, JsonValue)| m.1),
        _ => Seq::empty(),
    }
}

/// The items of an array.
pub open spec fn items_of(v: JsonValue) -> Seq<JsonValue> {
    match v {
        JsonValue::Array(a) => a@,
        _ => Seq::empty(),
    }
}

proof fn lemma_member_skip(ms: Seq<(String, JsonValue)>, i: int, key: Seq<char>)
    requires
        0 <= i < ms.len(),
        ms[i].0@ != key,
    ensures
        member(ms.subrange(i, ms.len() as int), key) == member(ms.subrange(i + 1, ms.len() as int), key),
{
    assert(ms.subrange(i, ms.len() as int).drop_first() =~= ms.subrange(i + 1, ms.len() as int));
}

/// The index of the first member named `key`.
fn find_member(ms: &Vec<(String, JsonValue)>, key: &str) -> (r: Option<usize>)
    ensures
        match r {
            Some(i) => i < ms@.len() && member(ms@, key@) == Some(ms@[i as int].1),
            None => member(ms@, key@) is None,
        },
{
    let mut i: usize = 0;
    assert(ms@.subrange(0, ms.len() as int) =~= ms@);
    while i < ms.len()
        invariant
            0 <= i <= ms.len(),
            member(ms@, key@) == member(ms@.subrange(i as int, ms.len() as int), key@),
        decreases ms.len() - i,
    {
        if same_text(ms[i].0.as_str(), key) {
            assert(ms@.subrange(i as int, ms.len() as int)[0] == ms@[i as int]);
            return Some(i);
        }
        proof {
            lemma_member_skip(ms@, i as int, key@);
        }
        i = i + 1;
    }
    None
}

impl JsonValue {
    /// Parses JSON text; `None` for text that is not JSON.
    pub fn parse(text: &str) -> (r: Option<JsonValue>)
        ensures
            r == json_parse(text@),
    {
        parse_json(text)
    }

    /// The compact JSON text of the value.
    pub fn to_text(&self) -> (r: String)
        ensures
            r@ == json_print(*self),
    {
        print_json(self)
    }

    /// The member named `key`, when `self` is an object that has one.
    pub fn get(&self, key: &str) -> (r: Option<&JsonValue>)
        ensures
            match r {
                Some(x) => field(*self, key@) == Some(*x),
                None => field(*self, key@) is None,
            },
    {
        match self {
            JsonValue::Object(ms) => match find_member(ms, key) {
                Some(i) => Some(&ms[i].1),
                None => None,
            },
            _ => None,
        }
    }

    /// The text of a string value.
    pub fn as_text(&self) -> (r: Option<String>)
        ensures
            match r {
                Some(s) => str_value(*self) == Some(s@),
                None => str_value(*self) is None,
            },
    {
        match self {
            JsonValue::Str(s) => Some(s.clone()),
            _ => None,
        }
    }

    /// A number that is an integer within `[0, u64::MAX]`.
    pub fn as_u64(&self) -> (r: Option<u64>)
        ensures
            match r {
                Some(n) => int_in(*self, 0, u64::MAX as int) == Some(n as int),
                None => int_in(*self, 0, u64::MAX as int) is None,
            },
    {
        match self {
            JsonValue::Number(JsonNumber::Unsigned(u)) => Some(*u),
            JsonValue::Number(JsonNumber::Signed(i)) => if *i >= 0 { Some(*i as u64) } else { None },
            _ => None,
        }
    }

    /// A number that is an integer within `[0, u32::MAX]`.
    pub fn as_u32(&self) -> (r: Option<u32>)
        ensures
            match r {
                Some(n) => int_in(*self, 0, u32::MAX as int) == Some(n as int),
                None => int_in(*self, 0, u32::MAX as int) is None,
            },
    {
        match self.as_u64() {
            Some(u) => if u <= u32::MAX as u64 { Some(u as u32) } else { None },
            None => None,
        }
    }

    /// A number that is an integer within `[i32::MIN, i32::MAX]`.
    pub fn as_i32(&self) -> (r: Option<i32>)
        ensures
            match r {
                Some(n) => int_in(*self, i32::MIN as int, i32::MAX as int) == Some(n as int),
                None => int_in(*self, i32::MIN as int, i32::MAX as int) is None,
            },
    {
        match self {
            JsonValue::Number(JsonNumber::Unsigned(u)) => if *u <= i32::MAX as u64 { Some(*u as i32) } else { None },
            JsonValue::Number(JsonNumber::Signed(i)) => {
                if i32::MIN as i64 <= *i && *i <= i32::MAX as i64 { Some(*i as i32) } else { None }
            },
            _ => None,
        }
    }

    /// The truth value of a boolean.
    pub fn as_bool(&self) -> (r: Option<bool>)
        ensures
            r == bool_value(*self),
    {
        match self {
            JsonValue::Bool(b) => Some(*b),
            _ => None,
        }
    }

    pub fn is_object(&self) -> (r: bool)
        ensures
            r == (*self is Object),
    {
        match self {
            JsonValue::Object(_) => true,
            _ => false,
        }
    }

    /// A required string member.
    pub fn req_str(&self, key: &str) -> (r: Option<String>)
        ensures
            opt_views(r) == req_str(*self, key@),
    {
        match self.get(key) {
            Some(x) => x.as_text(),
            None => None,
        }
    }

    /// An optional string member; `None` when it has another type.
    pub fn opt_str(&self, key: &str) -> (r: Option<Option<String>>)
        ensures
            match r {
                Some(o) => opt_str(*self, key@) == Some(opt_views(o)),
                None => opt_str(*self, key@) is None,
            },
    {
        match self.get(key) {
            None => Some(None),
            Some(x) => if x.is_null() {
                Some(None)
            } else {
                match x.as_text() {
                    Some(s) => Some(Some(s)),
                    None => None,
                }
            },
        }
    }

    /// A required `u32` member.
    pub fn req_u32(&self, key: &str) -> (r: Option<u32>)
        ensures
            match r {
                Some(n) => req_int(*self, key@, 0, u32::MAX as int) == Some(n as int),
                None => req_int(*self, key@, 0, u32::MAX as int) is None,
            },
    {
        match self.get(key) {
            Some(x) => x.as_u32(),
            None => None,
        }
    }

    /// A required `i32` member.
    pub fn req_i32(&self, key: &str) -> (r: Option<i32>)
        ensures
            match r {
                Some(n) => req_int(*self, key@, i32::MIN as int, i32::MAX as int) == Some(n as int),
                None => req_int(*self, key@, i32::MIN as int, i32::MAX as int) is None,
            },
    {
        match self.get(key) {
            Some(x) => x.as_i32(),
            None => None,
        }
    }

    /// An optional `u64` member.
    pub fn opt_u64(&self, key: &str) -> (r: Option<Option<u64>>)
        ensures
            match r {
                Some(Some(n)) => opt_int(*self, key@, 0, u64::MAX as int) == Some(Some(n as int)),
                Some(None) => opt_int(*self, key@, 0, u64::MAX as int) == Some(None::<int>),
                None => opt_int(*self, key@, 0, u64::MAX as int) is None,
            },
    {
        match self.get(key) {
            None => Some(None),
            Some(x) => if x.is_null() {
                Some(None)
            } else {
                match x.as_u64() {
                    Some(n) => Some(Some(n)),
                    None => None,
                }
            },
        }
    }

    /// An optional `u32` member.
    pub fn opt_u32(&self, key: &str) -> (r: Option<Option<u32>>)
        ensures
            match r {
                Some(Some(n)) => opt_int(*self, key@, 0, u32::MAX as int) == Some(Some(n as int)),
                Some(None) => opt_int(*self, key@, 0, u32::MAX as int) == Some(None::<int>),
                None => opt_int(*self, key@, 0, u32::MAX as int) is None,
            },
    {
        match self.get(key) {
            None => Some(None),
            Some(x) => if x.is_null() {
                Some(None)
            } else {
                match x.as_u32() {
                    Some(n) => Some(Some(n)),
                    None => None,
                }
            },
        }
    }

    /// An optional `i32` member.
    pub fn opt_i32(&self, key: &str) -> (r: Option<Option<i32>>)
        ensures
            match r {
                Some(Some(n)) => opt_int(*self, key@, i32::MIN as int, i32::MAX as int) == Some(Some(n as int)),
                Some(None) => opt_int(*self, key@, i32::MIN as int, i32::MAX as int) == Some(None::<int>),
                None => opt_int(*self, key@, i32::MIN as int, i32::MAX as int) is None,
            },
    {
        match self.get(key) {
            None => Some(None),
            Some(x) => if x.is_null() {
                Some(None)
            } else {
                match x.as_i32() {
                    Some(n) => Some(Some(n)),
                    None => None,
                }
            },
        }
    }

    /// A `u32` member that takes `d` when absent.
    pub fn u32_or(&self, key: &str, d: u32) -> (r: Option<u32>)
        ensures
            match r {
                Some(n) => int_or(*self, key@, 0, u32::MAX as int, d as int) == Some(n as int),
                None => int_or(*self, key@, 0, u32::MAX as int, d as int) is None,
            },
    {
        match self.get(key) {
            None => Some(d),
            Some(x) => x.as_u32(),
        }
    }

    /// A boolean member that is false when absent.
    pub fn bool_or_false(&self, key: &str) -> (r: Option<bool>)
        ensures
            r == bool_or_false(*self, key@),
    {
        match self.get(key) {
            None => Some(false),
            Some(x) => x.as_bool(),
        }
    }

    /// Moves out the first member named `key`, null counting as absent.
    pub fn take_opt(&mut self, key: &str) -> (r: Option<JsonValue>)
        ensures
            r == opt_any(*old(self), key@),
    {
        match self.take(key) {
            Some(x) => if x.is_null() { None } else { Some(x) },
            None => None,
        }
    }

    /// Moves out the first member named `key`; the other members keep their order.
    pub fn take(&mut self, key: &str) -> (r: Option<JsonValue>)
        ensures
            r == field(*old(self), key@),
            (*old(self) is Object) ==> (*final(self) is Object),
    {
        let mut v = JsonValue::Null;
        core::mem::swap(self, &mut v);
        match v {
            JsonValue::Object(mut ms) => {
                let found = find_member(&ms, key);
                match found {
                    Some(i) => {
                        let (_, x) = ms.remove(i);
                        *self = JsonValue::Object(ms);
                        Some(x)
                    },
                    None => {
                        *self = JsonValue::Object(ms);
                        None
                    },
                }
            },
            other => {
                *self = other;
                None
            },
        }
    }

    pub fn is_null(&self) -> (r: bool)
        ensures
            r == (*self is Null),
    {
        match self {
            JsonValue::Null => true,
            _ => false,
        }
    }
}

} // verus!
