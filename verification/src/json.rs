//! JSON values as the protocol sees them.
//!
//! Frames are parsed and rendered by `serde_json`. Its `Value` is opaque to the
//! verifier, so this module gives it a mathematical model, [`JsonValue`], and a
//! small set of trusted accessors and constructors whose contracts are stated
//! over that model. Everything built on top of them is verified.

use vstd::prelude::*;

verus! {

/// A JSON number, kept as `serde_json` keeps it: a non-negative integer, a
/// negative integer, or a finite double given by its IEEE-754 bit pattern.
#[derive(Clone, Copy, Debug, PartialEq, Eq, Structural)]
pub enum JsonNumber {
    PosInt(u64),
    NegInt(i64),
    Float(u64),
}

/// The mathematical content of a JSON document.
pub enum JsonValue {
    Null,
    Boolean(bool),
    Number(JsonNumber),
    Text(Seq<char>),
    Array(Seq<JsonValue>),
    Object(Map<Seq<char>, JsonValue>),
}

impl JsonValue {
    /// The member `key` of an object; `None` for a missing member and for
    /// anything that is not an object.
    #[verifier::opaque]
    pub open spec fn field(self, key: Seq<char>) -> Option<JsonValue> {
        match self {
            JsonValue::Object(m) => if m.contains_key(key) {
                Some(m[key])
            } else {
                None
            },
            _ => None,
        }
    }

    /// The object with no members.
    pub open spec fn empty_object() -> JsonValue {
        JsonValue::Object(Map::empty())
    }

    /// This object with member `key` set to `child`.
    pub open spec fn with(self, key: Seq<char>, child: JsonValue) -> JsonValue
        recommends
            self is Object,
    {
        JsonValue::Object(self->Object_0.insert(key, child))
    }

    /// This object with member `key` set when `child` is present.
    #[verifier::opaque]
    pub open spec fn with_opt(self, key: Seq<char>, child: Option<JsonValue>) -> JsonValue
        recommends
            self is Object,
    {
        match child {
            Some(c) => self.with(key, c),
            None => self,
        }
    }
}

/// Setting a member of an object leaves every other member as it was.
pub broadcast proof fn lemma_field_with_other(
    j: JsonValue,
    k: Seq<char>,
    c: JsonValue,
    key: Seq<char>,
)
    requires
        j is Object,
    ensures
        key != k ==> #[trigger] j.with(k, c).field(key) == j.field(key),
{
    reveal(JsonValue::field);
}

/// A member that was set is read back.
pub broadcast proof fn lemma_field_with_same(j: JsonValue, k: Seq<char>, c: JsonValue)
    requires
        j is Object,
    ensures
        #[trigger] j.with(k, c).field(k) == Some(c),
{
    reveal(JsonValue::field);
}

/// Setting a member where a value is given leaves every other member as it
/// was.
pub broadcast proof fn lemma_field_with_opt_other(
    j: JsonValue,
    k: Seq<char>,
    c: Option<JsonValue>,
    key: Seq<char>,
)
    requires
        j is Object,
    ensures
        key != k ==> #[trigger] j.with_opt(k, c).field(key) == j.field(key),
{
    reveal(JsonValue::field);
    reveal(JsonValue::with_opt);
}

/// A member that was set where a value was given is read back; without a
/// value the member is as it was.
pub broadcast proof fn lemma_field_with_opt_same(j: JsonValue, k: Seq<char>, c: Option<JsonValue>)
    requires
        j is Object,
    ensures
        #[trigger] j.with_opt(k, c).field(k) == (match c {
            Some(x) => Some(x),
            None => j.field(k),
        }),
{
    reveal(JsonValue::field);
    reveal(JsonValue::with_opt);
}

/// Setting a member where a value is given leaves an object an object.
pub broadcast proof fn lemma_with_opt_object(j: JsonValue, k: Seq<char>, c: Option<JsonValue>)
    requires
        j is Object,
    ensures
        (#[trigger] j.with_opt(k, c)) is Object,
{
    reveal(JsonValue::with_opt);
}

/// The object without members has no member.
pub broadcast proof fn lemma_field_empty(key: Seq<char>)
    ensures
        #[trigger] JsonValue::empty_object().field(key) is None,
        JsonValue::empty_object() is Object,
{
    reveal(JsonValue::field);
}

#[verifier::external_type_specification]
#[verifier::external_body]
pub struct ExValue(serde_json::Value);

#[verifier::external_type_specification]
#[verifier::external_body]
pub struct ExError(serde_json::Error);

/// What a `serde_json::Value` holds.
pub uninterp spec fn value_model(v: serde_json::Value) -> JsonValue;

/// What `serde_json::from_str` makes of a text: the document, or the
/// message of the error where the text is not one JSON document.
pub uninterp spec fn parsed(text: Seq<char>) -> Result<JsonValue, Seq<char>>;

/// The message that a `serde_json::Error` holds.
pub uninterp spec fn error_message(e: serde_json::Error) -> Seq<char>;

/// The text that `serde_json::to_string` writes for a document.
pub uninterp spec fn rendered(doc: JsonValue) -> Seq<char>;

/// The models of a sequence of values, one for one.
pub open spec fn models(items: Seq<serde_json::Value>) -> Seq<JsonValue> {
    Seq::new(items.len(), |i: int| value_model(items[i]))
}

/// `serde_json::from_str` at type `Value`. The outcome, document or error,
/// depends on the text alone; nothing is claimed about which texts parse.
#[verifier::external_body]
pub(crate) fn parse_value(text: &str) -> (r: Result<serde_json::Value, serde_json::Error>)
    ensures
        match r {
            Ok(v) => parsed(text@) == Ok::<JsonValue, Seq<char>>(value_model(v)),
            Err(e) => parsed(text@) == Err::<JsonValue, Seq<char>>(error_message(e)),
        },
{
    serde_json::from_str::<serde_json::Value>(text)
}

/// `serde_json::to_string` on a `Value`. Writing a `Value` cannot fail: the
/// writer is a vector in memory, every key of an object is a string, and a
/// number is finite. The text is the one named by [`rendered`].
#[verifier::external_body]
pub(crate) fn render_value(v: &serde_json::Value) -> (r: Result<String, serde_json::Error>)
    ensures
        r is Ok,
        r matches Ok(s) ==> s@ == rendered(value_model(*v)),
{
    serde_json::to_string(v)
}

/// The message of a `serde_json::Error`, as its `Display` writes it.
#[verifier::external_body]
pub(crate) fn error_text(e: &serde_json::Error) -> (r: String)
    ensures
        r@ == error_message(*e),
{
    e.to_string()
}

/// `Value::get` with a string key: the member of that name, if the value is
/// an object that has it.
#[verifier::external_body]
pub(crate) fn value_get<'a>(v: &'a serde_json::Value, key: &str) -> (r: Option<&'a serde_json::Value>)
    ensures
        match r {
            Some(c) => value_model(*v).field(key@) == Some(value_model(*c)),
            None => value_model(*v).field(key@) is None,
        },
{
    v.get(key)
}

/// `Value::is_null`.
#[verifier::external_body]
pub(crate) fn value_is_null(v: &serde_json::Value) -> (r: bool)
    ensures
        r == (value_model(*v) is Null),
{
    v.is_null()
}

/// `Value::is_object`.
#[verifier::external_body]
pub(crate) fn value_is_object(v: &serde_json::Value) -> (r: bool)
    ensures
        r == (value_model(*v) is Object),
{
    v.is_object()
}

/// `Value::is_number`.
#[verifier::external_body]
pub(crate) fn value_is_number(v: &serde_json::Value) -> (r: bool)
    ensures
        r == (value_model(*v) is Number),
{
    v.is_number()
}

/// `Value::as_bool`: the boolean, if the value is one.
#[verifier::external_body]
pub(crate) fn value_as_bool(v: &serde_json::Value) -> (r: Option<bool>)
    ensures
        match r {
            Some(b) => value_model(*v) == JsonValue::Boolean(b),
            None => !(value_model(*v) is Boolean),
        },
{
    v.as_bool()
}

/// `Value::as_str`: the text, if the value is a string.
#[verifier::external_body]
pub(crate) fn value_as_str<'a>(v: &'a serde_json::Value) -> (r: Option<&'a str>)
    ensures
        match r {
            Some(s) => value_model(*v) == JsonValue::Text(s@),
            None => !(value_model(*v) is Text),
        },
{
    v.as_str()
}

/// `Value::as_u64`: the number, if it is stored as a non-negative integer.
#[verifier::external_body]
pub(crate) fn value_as_u64(v: &serde_json::Value) -> (r: Option<u64>)
    ensures
        match r {
            Some(n) => value_model(*v) == JsonValue::Number(JsonNumber::PosInt(n)),
            None => !(value_model(*v) matches JsonValue::Number(JsonNumber::PosInt(_))),
        },
{
    v.as_u64()
}

/// `Value::as_i64`: the number, if it is stored as an integer and fits.
#[verifier::external_body]
pub(crate) fn value_as_i64(v: &serde_json::Value) -> (r: Option<i64>)
    ensures
        r == match value_model(*v) {
            JsonValue::Number(JsonNumber::PosInt(n)) => if n <= i64::MAX {
                Some(n as i64)
            } else {
                None
            },
            JsonValue::Number(JsonNumber::NegInt(n)) => Some(n),
            _ => None,
        },
{
    v.as_i64()
}

/// `Value::as_f64` on a number stored as a double, by its bits. Of integers
/// nothing is claimed.
#[verifier::external_body]
pub(crate) fn value_float_bits(v: &serde_json::Value) -> (r: Option<u64>)
    ensures
        value_model(*v) matches JsonValue::Number(JsonNumber::Float(b)) ==> r == Some(b),
        !(value_model(*v) is Number) ==> r is None,
{
    v.as_f64().map(|x| x.to_bits())
}

/// `Value::as_array`: the items, if the value is an array.
#[verifier::external_body]
pub(crate) fn value_as_array<'a>(v: &'a serde_json::Value) -> (r: Option<&'a Vec<serde_json::Value>>)
    ensures
        match r {
            Some(items) => value_model(*v) == JsonValue::Array(models(items@)),
            None => !(value_model(*v) is Array),
        },
{
    v.as_array()
}

/// `Value::clone`: a value with the same content.
pub assume_specification[ <serde_json::Value as Clone>::clone ](v: &serde_json::Value) -> (r:
    serde_json::Value)
    ensures
        value_model(r) == value_model(*v),
;

/// The variant `Value::Null`.
#[verifier::external_body]
pub(crate) fn value_null() -> (r: serde_json::Value)
    ensures
        value_model(r) == JsonValue::Null,
{
    serde_json::Value::Null
}

/// `Value::from` on a `bool`.
#[verifier::external_body]
pub(crate) fn value_bool(b: bool) -> (r: serde_json::Value)
    ensures
        value_model(r) == JsonValue::Boolean(b),
{
    serde_json::Value::from(b)
}

/// `Value::from` on a `u64`: a number stored as a non-negative integer.
#[verifier::external_body]
pub(crate) fn value_u64(n: u64) -> (r: serde_json::Value)
    ensures
        value_model(r) == JsonValue::Number(JsonNumber::PosInt(n)),
{
    serde_json::Value::from(n)
}

/// `Value::from` on an `i64`: a number stored as a negative integer where
/// it is below zero, as a non-negative integer otherwise.
#[verifier::external_body]
pub(crate) fn value_i64(n: i64) -> (r: serde_json::Value)
    ensures
        value_model(r) == JsonValue::Number(
            if n < 0 {
                JsonNumber::NegInt(n)
            } else {
                JsonNumber::PosInt(n as u64)
            },
        ),
{
    serde_json::Value::from(n)
}

/// `Value::from` on a string slice.
#[verifier::external_body]
pub(crate) fn value_text(s: &str) -> (r: serde_json::Value)
    ensures
        value_model(r) == JsonValue::Text(s@),
{
    serde_json::Value::from(s)
}

/// The variant `Value::Array` around the given items.
#[verifier::external_body]
pub(crate) fn value_array(items: Vec<serde_json::Value>) -> (r: serde_json::Value)
    ensures
        value_model(r) == JsonValue::Array(models(items@)),
{
    serde_json::Value::Array(items)
}

/// The variant `Value::Object` around `Map::new()`: an object without members.
#[verifier::external_body]
pub(crate) fn value_object() -> (r: serde_json::Value)
    ensures
        value_model(r) == JsonValue::empty_object(),
{
    serde_json::Value::Object(serde_json::Map::new())
}

/// Assignment through `Value`'s `IndexMut` with a string key: the member is
/// inserted or replaced. The index panics on anything but an object or
/// null, so an object is required.
#[verifier::external_body]
pub(crate) fn value_set(obj: &mut serde_json::Value, key: &str, child: serde_json::Value)
    requires
        value_model(*old(obj)) is Object,
    ensures
        value_model(*final(obj)) == value_model(*old(obj)).with(key@, value_model(child)),
{
    obj[key] = child;
}

/// Whether two texts are equal.
pub fn str_eq(a: &str, b: &str) -> (r: bool)
    ensures
        r == (a@ == b@),
{
    let left = a.to_owned();
    let right = b.to_owned();
    left == right
}

/// `str::parse` at type `i64`: an optional sign, then decimal digits only,
/// and a value within range; anything else is no number.
#[verifier::external_body]
pub(crate) fn parse_i64(s: &str) -> (r: Option<i64>)
    ensures
        r == decimal_i64(s@),
{
    s.parse::<i64>().ok()
}

/// Whether every character is a decimal digit.
pub open spec fn all_digits(s: Seq<char>) -> bool {
    forall|i: int| 0 <= i < s.len() ==> '0' <= #[trigger] s[i] <= '9'
}

/// The number that a run of decimal digits writes.
pub open spec fn digits_value(s: Seq<char>) -> int
    decreases s.len(),
{
    if s.len() == 0 {
        0
    } else {
        digits_value(s.drop_last()) * 10 + (s.last() as int - '0' as int)
    }
}

/// The `i64` that a text writes in decimal, if it writes one.
pub open spec fn decimal_i64(s: Seq<char>) -> Option<i64> {
    let negative = s.len() > 0 && s[0] == '-';
    let signed = s.len() > 0 && (s[0] == '-' || s[0] == '+');
    let body = if signed {
        s.drop_first()
    } else {
        s
    };
    let value = if negative {
        -digits_value(body)
    } else {
        digits_value(body)
    };
    if body.len() == 0 || !all_digits(body) || value < i64::MIN || value > i64::MAX {
        None
    } else {
        Some(value as i64)
    }
}

} // verus!
