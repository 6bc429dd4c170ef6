//! Typed reading and writing of wire values: texts, booleans, integers of
//! each width, runs of texts, and members that may be absent.

use crate::json::{
    JsonNumber, JsonValue, models, value_array, value_as_array, value_as_bool, value_as_i64,
    value_as_str, value_as_u64, value_bool, value_get, value_i64, value_is_null, value_is_number,
    value_is_object, value_model, value_null, value_set, value_text, value_u64,
};
use vstd::prelude::*;

verus! {

/// The view of an optional text.
pub open spec fn text_view(o: Option<String>) -> Option<Seq<char>> {
    match o {
        Some(s) => Some(s@),
        None => None,
    }
}

/// The views of a run of texts.
pub open spec fn texts_view(ts: Seq<String>) -> Seq<Seq<char>> {
    Seq::new(ts.len(), |i: int| ts[i]@)
}

/// The view of an optional run of texts.
pub open spec fn opt_texts_view(o: Option<Vec<String>>) -> Option<Seq<Seq<char>>> {
    match o {
        Some(ts) => Some(texts_view(ts@)),
        None => None,
    }
}

/// The content of an optional wire value.
pub open spec fn optional_model(o: Option<serde_json::Value>) -> Option<JsonValue> {
    match o {
        Some(v) => Some(value_model(v)),
        None => None,
    }
}

/// A value where there is one, `null` where there is none.
pub open spec fn or_null(o: Option<JsonValue>) -> JsonValue {
    match o {
        Some(v) => v,
        None => JsonValue::Null,
    }
}

/// An integer as a JSON number: stored as a negative integer where it is
/// below zero, as a non-negative integer otherwise.
pub open spec fn int_json(n: int) -> JsonValue {
    JsonValue::Number(
        if n < 0 {
            JsonNumber::NegInt(n as i64)
        } else {
            JsonNumber::PosInt(n as u64)
        },
    )
}

/// An optional text as an optional JSON string.
pub open spec fn text_json(o: Option<Seq<char>>) -> Option<JsonValue> {
    match o {
        Some(s) => Some(JsonValue::Text(s)),
        None => None,
    }
}

/// An optional boolean as an optional JSON boolean.
pub open spec fn boolean_json(o: Option<bool>) -> Option<JsonValue> {
    match o {
        Some(b) => Some(JsonValue::Boolean(b)),
        None => None,
    }
}

/// The wire array of a run of texts.
pub open spec fn texts_to_json(ts: Seq<Seq<char>>) -> JsonValue {
    JsonValue::Array(Seq::new(ts.len(), |i: int| JsonValue::Text(ts[i])))
}

/// An optional run of texts as an optional JSON array.
pub open spec fn texts_json(o: Option<Seq<Seq<char>>>) -> Option<JsonValue> {
    match o {
        Some(ts) => Some(texts_to_json(ts)),
        None => None,
    }
}

/// An optional `u8` as an optional JSON number.
pub open spec fn u8_json(o: Option<u8>) -> Option<JsonValue> {
    match o {
        Some(n) => Some(int_json(n as int)),
        None => None,
    }
}

/// An optional `u16` as an optional JSON number.
pub open spec fn u16_json(o: Option<u16>) -> Option<JsonValue> {
    match o {
        Some(n) => Some(int_json(n as int)),
        None => None,
    }
}

/// An optional `u32` as an optional JSON number.
pub open spec fn u32_json(o: Option<u32>) -> Option<JsonValue> {
    match o {
        Some(n) => Some(int_json(n as int)),
        None => None,
    }
}

/// An optional `u64` as an optional JSON number.
pub open spec fn u64_json(o: Option<u64>) -> Option<JsonValue> {
    match o {
        Some(n) => Some(int_json(n as int)),
        None => None,
    }
}

/// An optional `usize` as an optional JSON number.
pub open spec fn usize_json(o: Option<usize>) -> Option<JsonValue> {
    match o {
        Some(n) => Some(int_json(n as int)),
        None => None,
    }
}

/// An optional `i32` as an optional JSON number.
pub open spec fn i32_json(o: Option<i32>) -> Option<JsonValue> {
    match o {
        Some(n) => Some(int_json(n as int)),
        None => None,
    }
}

/// An optional `i64` as an optional JSON number.
pub open spec fn i64_json(o: Option<i64>) -> Option<JsonValue> {
    match o {
        Some(n) => Some(int_json(n as int)),
        None => None,
    }
}

impl JsonValue {
    /// The member `key` where it is present and not `null`.
    pub open spec fn member(self, key: Seq<char>) -> Option<JsonValue> {
        match self.field(key) {
            Some(JsonValue::Null) => None,
            other => other,
        }
    }

    /// This value as an integer: a number that is stored as one.
    pub open spec fn as_int(self) -> Option<int> {
        match self {
            JsonValue::Number(JsonNumber::PosInt(n)) => Some(n as int),
            JsonValue::Number(JsonNumber::NegInt(n)) => Some(n as int),
            _ => None,
        }
    }

    /// This value as a text.
    pub open spec fn as_text(self) -> Option<Seq<char>> {
        match self {
            JsonValue::Text(s) => Some(s),
            _ => None,
        }
    }

    /// This value as a boolean, strictly.
    pub open spec fn as_boolean(self) -> Option<bool> {
        match self {
            JsonValue::Boolean(b) => Some(b),
            _ => None,
        }
    }

    /// This value as a run of texts: an array whose items are all texts.
    pub open spec fn as_texts(self) -> Option<Seq<Seq<char>>> {
        match self {
            JsonValue::Array(items) => if forall|i: int|
                0 <= i < items.len() ==> (#[trigger] items[i]) is Text {
                Some(Seq::new(items.len(), |i: int| items[i]->Text_0))
            } else {
                None
            },
            _ => None,
        }
    }

    /// This value as a number, kept as it came.
    pub open spec fn as_number(self) -> Option<JsonValue> {
        if self is Number {
            Some(self)
        } else {
            None
        }
    }

    /// This value as an object, kept as it came.
    pub open spec fn as_object(self) -> Option<JsonValue> {
        if self is Object {
            Some(self)
        } else {
            None
        }
    }

    /// This value as a `u8`: a number stored as a non-negative integer, that fits.
    pub open spec fn as_u8(self) -> Option<u8> {
        match self {
            JsonValue::Number(JsonNumber::PosInt(n)) => if n <= u8::MAX {
                Some(n as u8)
            } else {
                None
            },
            _ => None,
        }
    }

    /// This value as a `u16`: a number stored as a non-negative integer, that fits.
    pub open spec fn as_u16(self) -> Option<u16> {
        match self {
            JsonValue::Number(JsonNumber::PosInt(n)) => if n <= u16::MAX {
                Some(n as u16)
            } else {
                None
            },
            _ => None,
        }
    }

    /// This value as a `u32`: a number stored as a non-negative integer, that fits.
    pub open spec fn as_u32(self) -> Option<u32> {
        match self {
            JsonValue::Number(JsonNumber::PosInt(n)) => if n <= u32::MAX {
                Some(n as u32)
            } else {
                None
            },
            _ => None,
        }
    }

    /// This value as a `u64`: a number stored as a non-negative integer, that fits.
    pub open spec fn as_u64(self) -> Option<u64> {
        match self {
            JsonValue::Number(JsonNumber::PosInt(n)) => if n <= u64::MAX {
                Some(n as u64)
            } else {
                None
            },
            _ => None,
        }
    }

    /// This value as a `usize`: a number stored as a non-negative integer, that fits.
    pub open spec fn as_usize(self) -> Option<usize> {
        match self {
            JsonValue::Number(JsonNumber::PosInt(n)) => if n <= usize::MAX {
                Some(n as usize)
            } else {
                None
            },
            _ => None,
        }
    }

    /// This value as an `i32`: an integer that fits.
    pub open spec fn as_i32(self) -> Option<i32> {
        match self.as_int() {
            Some(n) => if i32::MIN <= n <= i32::MAX {
                Some(n as i32)
            } else {
                None
            },
            None => None,
        }
    }

    /// This value as an `i64`: an integer that fits.
    pub open spec fn as_i64(self) -> Option<i64> {
        match self.as_int() {
            Some(n) => if i64::MIN <= n <= i64::MAX {
                Some(n as i64)
            } else {
                None
            },
            None => None,
        }
    }

    /// A required member that is a text: `None` where it is missing or is not.
    pub open spec fn req_text(self, key: Seq<char>) -> Option<Seq<char>> {
        match self.field(key) {
            Some(c) => c.as_text(),
            None => None,
        }
    }

    /// An optional member that is a text where it is present. The outer `None`
    /// is a mismatch: the member is there, is not `null`, and is not a text.
    pub open spec fn opt_text(self, key: Seq<char>) -> Option<Option<Seq<char>>> {
        match self.member(key) {
            None => Some(None),
            Some(c) => match c.as_text() {
                Some(x) => Some(Some(x)),
                None => None,
            },
        }
    }

    /// A required member that is a boolean: `None` where it is missing or is not.
    pub open spec fn req_boolean(self, key: Seq<char>) -> Option<bool> {
        match self.field(key) {
            Some(c) => c.as_boolean(),
            None => None,
        }
    }

    /// An optional member that is a boolean where it is present. The outer `None`
    /// is a mismatch: the member is there, is not `null`, and is not a boolean.
    pub open spec fn opt_boolean(self, key: Seq<char>) -> Option<Option<bool>> {
        match self.member(key) {
            None => Some(None),
            Some(c) => match c.as_boolean() {
                Some(x) => Some(Some(x)),
                None => None,
            },
        }
    }

    /// A required member that is a run of texts: `None` where it is missing or is not.
    pub open spec fn req_texts(self, key: Seq<char>) -> Option<Seq<Seq<char>>> {
        match self.field(key) {
            Some(c) => c.as_texts(),
            None => None,
        }
    }

    /// An optional member that is a run of texts where it is present. The outer `None`
    /// is a mismatch: the member is there, is not `null`, and is not a run of texts.
    pub open spec fn opt_texts(self, key: Seq<char>) -> Option<Option<Seq<Seq<char>>>> {
        match self.member(key) {
            None => Some(None),
            Some(c) => match c.as_texts() {
                Some(x) => Some(Some(x)),
                None => None,
            },
        }
    }

    /// A required member that is a number: `None` where it is missing or is not.
    pub open spec fn req_number(self, key: Seq<char>) -> Option<JsonValue> {
        match self.field(key) {
            Some(c) => c.as_number(),
            None => None,
        }
    }

    /// An optional member that is a number where it is present. The outer `None`
    /// is a mismatch: the member is there, is not `null`, and is not a number.
    pub open spec fn opt_number(self, key: Seq<char>) -> Option<Option<JsonValue>> {
        match self.member(key) {
            None => Some(None),
            Some(c) => match c.as_number() {
                Some(x) => Some(Some(x)),
                None => None,
            },
        }
    }

    /// A required member that is an object: `None` where it is missing or is not.
    pub open spec fn req_object(self, key: Seq<char>) -> Option<JsonValue> {
        match self.field(key) {
            Some(c) => c.as_object(),
            None => None,
        }
    }

    /// An optional member that is an object where it is present. The outer `None`
    /// is a mismatch: the member is there, is not `null`, and is not an object.
    pub open spec fn opt_object(self, key: Seq<char>) -> Option<Option<JsonValue>> {
        match self.member(key) {
            None => Some(None),
            Some(c) => match c.as_object() {
                Some(x) => Some(Some(x)),
                None => None,
            },
        }
    }

    /// A required member that is a `u8`: `None` where it is missing or is not.
    pub open spec fn req_u8(self, key: Seq<char>) -> Option<u8> {
        match self.field(key) {
            Some(c) => c.as_u8(),
            None => None,
        }
    }

    /// An optional member that is a `u8` where it is present. The outer `None`
    /// is a mismatch: the member is there, is not `null`, and is not a `u8`.
    pub open spec fn opt_u8(self, key: Seq<char>) -> Option<Option<u8>> {
        match self.member(key) {
            None => Some(None),
            Some(c) => match c.as_u8() {
                Some(x) => Some(Some(x)),
                None => None,
            },
        }
    }

    /// A required member that is a `u16`: `None` where it is missing or is not.
    pub open spec fn req_u16(self, key: Seq<char>) -> Option<u16> {
        match self.field(key) {
            Some(c) => c.as_u16(),
            None => None,
        }
    }

    /// An optional member that is a `u16` where it is present. The outer `None`
    /// is a mismatch: the member is there, is not `null`, and is not a `u16`.
    pub open spec fn opt_u16(self, key: Seq<char>) -> Option<Option<u16>> {
        match self.member(key) {
            None => Some(None),
            Some(c) => match c.as_u16() {
                Some(x) => Some(Some(x)),
                None => None,
            },
        }
    }

    /// A required member that is a `u32`: `None` where it is missing or is not.
    pub open spec fn req_u32(self, key: Seq<char>) -> Option<u32> {
        match self.field(key) {
            Some(c) => c.as_u32(),
            None => None,
        }
    }

    /// An optional member that is a `u32` where it is present. The outer `None`
    /// is a mismatch: the member is there, is not `null`, and is not a `u32`.
    pub open spec fn opt_u32(self, key: Seq<char>) -> Option<Option<u32>> {
        match self.member(key) {
            None => Some(None),
            Some(c) => match c.as_u32() {
                Some(x) => Some(Some(x)),
                None => None,
            },
        }
    }

    /// A required member that is a `u64`: `None` where it is missing or is not.
    pub open spec fn req_u64(self, key: Seq<char>) -> Option<u64> {
        match self.field(key) {
            Some(c) => c.as_u64(),
            None => None,
        }
    }

    /// An optional member that is a `u64` where it is present. The outer `None`
    /// is a mismatch: the member is there, is not `null`, and is not a `u64`.
    pub open spec fn opt_u64(self, key: Seq<char>) -> Option<Option<u64>> {
        match self.member(key) {
            None => Some(None),
            Some(c) => match c.as_u64() {
                Some(x) => Some(Some(x)),
                None => None,
            },
        }
    }

    /// A required member that is a `usize`: `None` where it is missing or is not.
    pub open spec fn req_usize(self, key: Seq<char>) -> Option<usize> {
        match self.field(key) {
            Some(c) => c.as_usize(),
            None => None,
        }
    }

    /// An optional member that is a `usize` where it is present. The outer `None`
    /// is a mismatch: the member is there, is not `null`, and is not a `usize`.
    pub open spec fn opt_usize(self, key: Seq<char>) -> Option<Option<usize>> {
        match self.member(key) {
            None => Some(None),
            Some(c) => match c.as_usize() {
                Some(x) => Some(Some(x)),
                None => None,
            },
        }
    }

    /// A required member that is an `i32`: `None` where it is missing or is not.
    pub open spec fn req_i32(self, key: Seq<char>) -> Option<i32> {
        match self.field(key) {
            Some(c) => c.as_i32(),
            None => None,
        }
    }

    /// An optional member that is an `i32` where it is present. The outer `None`
    /// is a mismatch: the member is there, is not `null`, and is not an `i32`.
    pub open spec fn opt_i32(self, key: Seq<char>) -> Option<Option<i32>> {
        match self.member(key) {
            None => Some(None),
            Some(c) => match c.as_i32() {
                Some(x) => Some(Some(x)),
                None => None,
            },
        }
    }

    /// A required member that is an `i64`: `None` where it is missing or is not.
    pub open spec fn req_i64(self, key: Seq<char>) -> Option<i64> {
        match self.field(key) {
            Some(c) => c.as_i64(),
            None => None,
        }
    }

    /// An optional member that is an `i64` where it is present. The outer `None`
    /// is a mismatch: the member is there, is not `null`, and is not an `i64`.
    pub open spec fn opt_i64(self, key: Seq<char>) -> Option<Option<i64>> {
        match self.member(key) {
            None => Some(None),
            Some(c) => match c.as_i64() {
                Some(x) => Some(Some(x)),
                None => None,
            },
        }
    }

    /// A required member of any kind.
    pub open spec fn req_value(self, key: Seq<char>) -> Option<JsonValue> {
        self.field(key)
    }

    /// An optional member of any kind; `null` counts as absent.
    pub open spec fn opt_value(self, key: Seq<char>) -> Option<Option<JsonValue>> {
        Some(self.member(key))
    }
}

/// The member `key` of `v` where it is present and not `null`.
pub fn read_member<'a>(v: &'a serde_json::Value, key: &str) -> (r: Option<&'a serde_json::Value>)
    ensures
        match r {
            Some(c) => value_model(*v).member(key@) == Some(value_model(*c)),
            None => value_model(*v).member(key@) is None,
        },
{
    match value_get(v, key) {
        Some(c) => if value_is_null(c) {
            None
        } else {
            Some(c)
        },
        None => None,
    }
}

/// Reads a value as an owned text.
pub fn read_text(v: &serde_json::Value) -> (r: Option<String>)
    ensures
        text_view(r) == value_model(*v).as_text(),
{
    match value_as_str(v) {
        Some(s) => Some(s.to_owned()),
        None => None,
    }
}

/// Reads a value as a boolean, strictly.
pub fn read_boolean(v: &serde_json::Value) -> (r: Option<bool>)
    ensures
        r == value_model(*v).as_boolean(),
{
    value_as_bool(v)
}

/// Reads a value as a number, kept as it came.
pub fn read_number(v: &serde_json::Value) -> (r: Option<serde_json::Value>)
    ensures
        optional_model(r) == value_model(*v).as_number(),
{
    if value_is_number(v) {
        Some(v.clone())
    } else {
        None
    }
}

/// Reads a value as an object, kept as it came.
pub fn read_object(v: &serde_json::Value) -> (r: Option<serde_json::Value>)
    ensures
        optional_model(r) == value_model(*v).as_object(),
{
    if value_is_object(v) {
        Some(v.clone())
    } else {
        None
    }
}

/// Reads a value as a run of texts.
pub fn read_texts(v: &serde_json::Value) -> (r: Option<Vec<String>>)
    ensures
        opt_texts_view(r) == value_model(*v).as_texts(),
{
    let items = match value_as_array(v) {
        Some(a) => a,
        None => return None,
    };
    let ghost docs = models(items@);
    let mut out: Vec<String> = Vec::new();
    let mut i: usize = 0;
    while i < items.len()
        invariant
            i <= items.len(),
            out@.len() == i,
            docs == models(items@),
            value_model(*v) == JsonValue::Array(docs),
            forall|k: int| 0 <= k < i ==> docs[k] == JsonValue::Text(#[trigger] out@[k]@),
        decreases items.len() - i,
    {
        match value_as_str(&items[i]) {
            Some(s) => {
                out.push(s.to_owned());
            },
            None => {
                proof {
                    assert(!(docs[i as int] is Text));
                }
                return None;
            },
        }
        i += 1;
    }
    proof {
        assert forall|k: int| 0 <= k < docs.len() implies (#[trigger] docs[k]) is Text by {
            let _ = out@[k]@;
        }
        assert forall|k: int| 0 <= k < docs.len() implies docs[k]->Text_0 == texts_view(
            out@,
        )[k] by {
            let _ = out@[k]@;
        }
        assert(value_model(*v).as_texts()->0 =~= texts_view(out@));
    }
    Some(out)
}

/// Reads a value as a `u8`.
pub fn read_u8(v: &serde_json::Value) -> (r: Option<u8>)
    ensures
        r == value_model(*v).as_u8(),
{
    match value_as_u64(v) {
        Some(n) => if n <= u8::MAX as u64 {
            Some(n as u8)
        } else {
            None
        },
        None => None,
    }
}

/// Reads a value as a `u16`.
pub fn read_u16(v: &serde_json::Value) -> (r: Option<u16>)
    ensures
        r == value_model(*v).as_u16(),
{
    match value_as_u64(v) {
        Some(n) => if n <= u16::MAX as u64 {
            Some(n as u16)
        } else {
            None
        },
        None => None,
    }
}

/// Reads a value as a `u32`.
pub fn read_u32(v: &serde_json::Value) -> (r: Option<u32>)
    ensures
        r == value_model(*v).as_u32(),
{
    match value_as_u64(v) {
        Some(n) => if n <= u32::MAX as u64 {
            Some(n as u32)
        } else {
            None
        },
        None => None,
    }
}

/// Reads a value as a `u64`.
pub fn read_u64(v: &serde_json::Value) -> (r: Option<u64>)
    ensures
        r == value_model(*v).as_u64(),
{
    match value_as_u64(v) {
        Some(n) => if n <= u64::MAX as u64 {
            Some(n as u64)
        } else {
            None
        },
        None => None,
    }
}

/// Reads a value as a `usize`.
pub fn read_usize(v: &serde_json::Value) -> (r: Option<usize>)
    ensures
        r == value_model(*v).as_usize(),
{
    match value_as_u64(v) {
        Some(n) => if n <= usize::MAX as u64 {
            Some(n as usize)
        } else {
            None
        },
        None => None,
    }
}

/// Reads a value as an `i32`.
pub fn read_i32(v: &serde_json::Value) -> (r: Option<i32>)
    ensures
        r == value_model(*v).as_i32(),
{
    match value_as_i64(v) {
        Some(n) => if i32::MIN as i64 <= n && n <= i32::MAX as i64 {
            Some(n as i32)
        } else {
            None
        },
        None => None,
    }
}

/// Reads a value as an `i64`.
pub fn read_i64(v: &serde_json::Value) -> (r: Option<i64>)
    ensures
        r == value_model(*v).as_i64(),
{
    match value_as_i64(v) {
        Some(n) => if i64::MIN as i64 <= n && n <= i64::MAX as i64 {
            Some(n as i64)
        } else {
            None
        },
        None => None,
    }
}

/// Reads the required member `key` as its kind says.
pub fn read_req_text(v: &serde_json::Value, key: &str) -> (r: Option<String>)
    ensures
        text_view(r) == value_model(*v).req_text(key@),
{
    match value_get(v, key) {
        Some(c) => read_text(c),
        None => None,
    }
}

/// Reads the optional member `key` as its kind says; `Err` is a mismatch.
pub fn read_opt_text(v: &serde_json::Value, key: &str) -> (r: Result<Option<String>, ()>)
    ensures
        match r {
            Ok(o) => value_model(*v).opt_text(key@) == Some(text_view(o)),
            Err(_) => value_model(*v).opt_text(key@) is None,
        },
{
    match read_member(v, key) {
        None => Ok(None),
        Some(c) => match read_text(c) {
            Some(x) => Ok(Some(x)),
            None => Err(()),
        },
    }
}

/// Reads the optional member `key` as its kind says; `Err` is a mismatch.
pub fn read_opt_boolean(v: &serde_json::Value, key: &str) -> (r: Result<Option<bool>, ()>)
    ensures
        match r {
            Ok(o) => value_model(*v).opt_boolean(key@) == Some(o),
            Err(_) => value_model(*v).opt_boolean(key@) is None,
        },
{
    match read_member(v, key) {
        None => Ok(None),
        Some(c) => match read_boolean(c) {
            Some(x) => Ok(Some(x)),
            None => Err(()),
        },
    }
}

/// Reads the optional member `key` as its kind says; `Err` is a mismatch.
pub fn read_opt_texts(v: &serde_json::Value, key: &str) -> (r: Result<Option<Vec<String>>, ()>)
    ensures
        match r {
            Ok(o) => value_model(*v).opt_texts(key@) == Some(opt_texts_view(o)),
            Err(_) => value_model(*v).opt_texts(key@) is None,
        },
{
    match read_member(v, key) {
        None => Ok(None),
        Some(c) => match read_texts(c) {
            Some(x) => Ok(Some(x)),
            None => Err(()),
        },
    }
}

/// Reads the optional member `key` as its kind says; `Err` is a mismatch.
pub fn read_opt_number(v: &serde_json::Value, key: &str) -> (r: Result<Option<serde_json::Value>, ()>)
    ensures
        match r {
            Ok(o) => value_model(*v).opt_number(key@) == Some(optional_model(o)),
            Err(_) => value_model(*v).opt_number(key@) is None,
        },
{
    match read_member(v, key) {
        None => Ok(None),
        Some(c) => match read_number(c) {
            Some(x) => Ok(Some(x)),
            None => Err(()),
        },
    }
}

/// Reads the required member `key` as its kind says.
pub fn read_req_object(v: &serde_json::Value, key: &str) -> (r: Option<serde_json::Value>)
    ensures
        optional_model(r) == value_model(*v).req_object(key@),
{
    match value_get(v, key) {
        Some(c) => read_object(c),
        None => None,
    }
}

/// Reads the optional member `key` as its kind says; `Err` is a mismatch.
pub fn read_opt_u8(v: &serde_json::Value, key: &str) -> (r: Result<Option<u8>, ()>)
    ensures
        match r {
            Ok(o) => value_model(*v).opt_u8(key@) == Some(o),
            Err(_) => value_model(*v).opt_u8(key@) is None,
        },
{
    match read_member(v, key) {
        None => Ok(None),
        Some(c) => match read_u8(c) {
            Some(x) => Ok(Some(x)),
            None => Err(()),
        },
    }
}

/// Reads the required member `key` as its kind says.
pub fn read_req_u32(v: &serde_json::Value, key: &str) -> (r: Option<u32>)
    ensures
        r == value_model(*v).req_u32(key@),
{
    match value_get(v, key) {
        Some(c) => read_u32(c),
        None => None,
    }
}

/// Reads the optional member `key` as its kind says; `Err` is a mismatch.
pub fn read_opt_u32(v: &serde_json::Value, key: &str) -> (r: Result<Option<u32>, ()>)
    ensures
        match r {
            Ok(o) => value_model(*v).opt_u32(key@) == Some(o),
            Err(_) => value_model(*v).opt_u32(key@) is None,
        },
{
    match read_member(v, key) {
        None => Ok(None),
        Some(c) => match read_u32(c) {
            Some(x) => Ok(Some(x)),
            None => Err(()),
        },
    }
}

/// Reads the required member `key` as its kind says.
pub fn read_req_u64(v: &serde_json::Value, key: &str) -> (r: Option<u64>)
    ensures
        r == value_model(*v).req_u64(key@),
{
    match value_get(v, key) {
        Some(c) => read_u64(c),
        None => None,
    }
}

/// Reads the optional member `key` as its kind says; `Err` is a mismatch.
pub fn read_opt_u64(v: &serde_json::Value, key: &str) -> (r: Result<Option<u64>, ()>)
    ensures
        match r {
            Ok(o) => value_model(*v).opt_u64(key@) == Some(o),
            Err(_) => value_model(*v).opt_u64(key@) is None,
        },
{
    match read_member(v, key) {
        None => Ok(None),
        Some(c) => match read_u64(c) {
            Some(x) => Ok(Some(x)),
            None => Err(()),
        },
    }
}

/// Reads the required member `key` as its kind says.
pub fn read_req_i32(v: &serde_json::Value, key: &str) -> (r: Option<i32>)
    ensures
        r == value_model(*v).req_i32(key@),
{
    match value_get(v, key) {
        Some(c) => read_i32(c),
        None => None,
    }
}

/// Reads the optional member `key` as its kind says; `Err` is a mismatch.
pub fn read_opt_i32(v: &serde_json::Value, key: &str) -> (r: Result<Option<i32>, ()>)
    ensures
        match r {
            Ok(o) => value_model(*v).opt_i32(key@) == Some(o),
            Err(_) => value_model(*v).opt_i32(key@) is None,
        },
{
    match read_member(v, key) {
        None => Ok(None),
        Some(c) => match read_i32(c) {
            Some(x) => Ok(Some(x)),
            None => Err(()),
        },
    }
}

/// Reads the required member `key` as its kind says.
pub fn read_req_i64(v: &serde_json::Value, key: &str) -> (r: Option<i64>)
    ensures
        r == value_model(*v).req_i64(key@),
{
    match value_get(v, key) {
        Some(c) => read_i64(c),
        None => None,
    }
}

/// Reads the optional member `key`, whatever it is.
pub fn read_opt_value(v: &serde_json::Value, key: &str) -> (r: Result<
    Option<serde_json::Value>,
    (),
>)
    ensures
        r is Ok,
        value_model(*v).opt_value(key@) == Some(optional_model(r->Ok_0)),
{
    match read_member(v, key) {
        None => Ok(None),
        Some(c) => Ok(Some(c.clone())),
    }
}

/// Writes a run of texts as a wire array.
pub fn write_texts(ts: &Vec<String>) -> (r: serde_json::Value)
    ensures
        value_model(r) == texts_to_json(texts_view(ts@)),
{
    let mut items: Vec<serde_json::Value> = Vec::new();
    let mut i: usize = 0;
    while i < ts.len()
        invariant
            i <= ts.len(),
            items@.len() == i,
            forall|k: int|
                0 <= k < i ==> value_model(#[trigger] items@[k]) == JsonValue::Text(ts@[k]@),
        decreases ts.len() - i,
    {
        items.push(value_text(ts[i].as_str()));
        i += 1;
    }
    proof {
        assert(models(items@) =~= Seq::new(
            ts@.len(),
            |i: int| JsonValue::Text(texts_view(ts@)[i]),
        ));
    }
    value_array(items)
}

/// An optional text as an optional wire value.
pub fn text_value(s: &Option<String>) -> (r: Option<serde_json::Value>)
    ensures
        optional_model(r) == text_json(text_view(*s)),
{
    match s {
        Some(t) => Some(value_text(t.as_str())),
        None => None,
    }
}

/// An optional boolean as an optional wire value.
pub fn boolean_value(b: Option<bool>) -> (r: Option<serde_json::Value>)
    ensures
        optional_model(r) == boolean_json(b),
{
    match b {
        Some(x) => Some(value_bool(x)),
        None => None,
    }
}

/// An optional run of texts as an optional wire value.
pub fn texts_value(ts: &Option<Vec<String>>) -> (r: Option<serde_json::Value>)
    ensures
        optional_model(r) == texts_json(opt_texts_view(*ts)),
{
    match ts {
        Some(x) => Some(write_texts(x)),
        None => None,
    }
}

/// A copy of an optional wire value.
pub fn copy_value(v: &Option<serde_json::Value>) -> (r: Option<serde_json::Value>)
    ensures
        optional_model(r) == optional_model(*v),
{
    match v {
        Some(x) => Some(x.clone()),
        None => None,
    }
}

/// An optional `u8` as an optional wire value.
pub fn u8_value(n: Option<u8>) -> (r: Option<serde_json::Value>)
    ensures
        optional_model(r) == u8_json(n),
{
    match n {
        Some(x) => Some(value_u64(x as u64)),
        None => None,
    }
}

/// An optional `u16` as an optional wire value.
pub fn u16_value(n: Option<u16>) -> (r: Option<serde_json::Value>)
    ensures
        optional_model(r) == u16_json(n),
{
    match n {
        Some(x) => Some(value_u64(x as u64)),
        None => None,
    }
}

/// An optional `u32` as an optional wire value.
pub fn u32_value(n: Option<u32>) -> (r: Option<serde_json::Value>)
    ensures
        optional_model(r) == u32_json(n),
{
    match n {
        Some(x) => Some(value_u64(x as u64)),
        None => None,
    }
}

/// An optional `usize` as an optional wire value.
pub fn usize_value(n: Option<usize>) -> (r: Option<serde_json::Value>)
    ensures
        optional_model(r) == usize_json(n),
{
    match n {
        Some(x) => Some(value_u64(x as u64)),
        None => None,
    }
}

/// An optional `i32` as an optional wire value.
pub fn i32_value(n: Option<i32>) -> (r: Option<serde_json::Value>)
    ensures
        optional_model(r) == i32_json(n),
{
    match n {
        Some(x) => Some(value_i64(x as i64)),
        None => None,
    }
}

/// Sets member `key` of an object to a text.
pub fn put_text(obj: &mut serde_json::Value, key: &str, s: &str)
    requires
        value_model(*old(obj)) is Object,
    ensures
        value_model(*final(obj)) == value_model(*old(obj)).with(key@, JsonValue::Text(s@)),
        value_model(*final(obj)) is Object,
{
    value_set(obj, key, value_text(s));
}

/// Sets member `key` of an object to a boolean.
pub fn put_boolean(obj: &mut serde_json::Value, key: &str, b: bool)
    requires
        value_model(*old(obj)) is Object,
    ensures
        value_model(*final(obj)) == value_model(*old(obj)).with(key@, JsonValue::Boolean(b)),
        value_model(*final(obj)) is Object,
{
    value_set(obj, key, value_bool(b));
}

/// Sets member `key` of an object to an integer.
pub fn put_int(obj: &mut serde_json::Value, key: &str, n: i64)
    requires
        value_model(*old(obj)) is Object,
    ensures
        value_model(*final(obj)) == value_model(*old(obj)).with(key@, int_json(n as int)),
        value_model(*final(obj)) is Object,
{
    value_set(obj, key, value_i64(n));
}

/// Sets member `key` of an object to an integer that is not negative.
pub fn put_uint(obj: &mut serde_json::Value, key: &str, n: u64)
    requires
        value_model(*old(obj)) is Object,
    ensures
        value_model(*final(obj)) == value_model(*old(obj)).with(key@, int_json(n as int)),
        value_model(*final(obj)) is Object,
{
    value_set(obj, key, value_u64(n));
}

/// Sets member `key` of an object.
pub fn put(obj: &mut serde_json::Value, key: &str, child: serde_json::Value)
    requires
        value_model(*old(obj)) is Object,
    ensures
        value_model(*final(obj)) == value_model(*old(obj)).with(key@, value_model(child)),
        value_model(*final(obj)) is Object,
{
    value_set(obj, key, child);
}

/// Sets member `key` of an object where a value is given.
pub fn put_opt(obj: &mut serde_json::Value, key: &str, child: Option<serde_json::Value>)
    requires
        value_model(*old(obj)) is Object,
    ensures
        value_model(*final(obj)) == value_model(*old(obj)).with_opt(key@, optional_model(child)),
        value_model(*final(obj)) is Object,
{
    proof {
        reveal(JsonValue::with_opt);
    }
    match child {
        Some(c) => value_set(obj, key, c),
        None => {},
    }
}

/// Sets member `key` of an object to the value given, or to `null`.
pub fn put_or_null(obj: &mut serde_json::Value, key: &str, child: Option<serde_json::Value>)
    requires
        value_model(*old(obj)) is Object,
    ensures
        value_model(*final(obj)) == value_model(*old(obj)).with(
            key@,
            or_null(optional_model(child)),
        ),
        value_model(*final(obj)) is Object,
{
    match child {
        Some(c) => value_set(obj, key, c),
        None => value_set(obj, key, value_null()),
    }
}

} // verus!
