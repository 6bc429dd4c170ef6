//! Inbound events: their shapes, and the decoder that turns a text frame into
//! one of them.

use crate::body::not_written;
use crate::error::{DashScopeError, DashScopeErrorView};
use crate::json::{
    JsonNumber, JsonValue, all_digits, decimal_i64, error_text, models, parse_i64, parse_value,
    parsed, render_value, rendered, str_eq, value_array, value_as_array, value_as_bool,
    value_as_i64, value_as_str, value_as_u64, value_float_bits, value_get, value_is_object,
    value_model, value_object, value_set,
};
use crate::wire::{
    boolean_json, boolean_value, copy_value, int_json, optional_model, put_opt, put_text, put_uint,
    read_member, read_opt_boolean, read_opt_number, read_opt_text, read_opt_u32, read_req_text,
    read_req_u32, text_json, text_value, text_view, u32_json, u32_value,
};
use vstd::prelude::*;
use vstd::string::*;

verus! {

/// The four kinds of event that the service sends.
#[derive(Debug, Clone, Copy, PartialEq, Eq, Structural)]
pub enum EventType {
    TaskStarted,
    ResultGenerated,
    TaskFinished,
    TaskFailed,
}

impl EventType {
    /// The name of this kind on the wire.
    pub open spec fn text(self) -> Seq<char> {
        match self {
            EventType::TaskStarted => "task-started"@,
            EventType::ResultGenerated => "result-generated"@,
            EventType::TaskFinished => "task-finished"@,
            EventType::TaskFailed => "task-failed"@,
        }
    }

    /// The kind that a wire name stands for, if it is one of the four.
    pub open spec fn named(name: Seq<char>) -> Option<EventType> {
        if name == "task-started"@ {
            Some(EventType::TaskStarted)
        } else if name == "result-generated"@ {
            Some(EventType::ResultGenerated)
        } else if name == "task-finished"@ {
            Some(EventType::TaskFinished)
        } else if name == "task-failed"@ {
            Some(EventType::TaskFailed)
        } else {
            None
        }
    }

    /// The name of this kind on the wire.
    pub fn as_str(&self) -> (r: &'static str)
        ensures
            r@ == self.text(),
    {
        match self {
            EventType::TaskStarted => "task-started",
            EventType::ResultGenerated => "result-generated",
            EventType::TaskFinished => "task-finished",
            EventType::TaskFailed => "task-failed",
        }
    }

    /// Reads a wire name. `Err` for every name but the four.
    pub fn from_str(event: &str) -> (r: Result<EventType, ()>)
        ensures
            match r {
                Ok(k) => EventType::named(event@) == Some(k),
                Err(_) => EventType::named(event@) is None,
            },
    {
        if str_eq(event, "task-started") {
            Ok(EventType::TaskStarted)
        } else if str_eq(event, "result-generated") {
            Ok(EventType::ResultGenerated)
        } else if str_eq(event, "task-finished") {
            Ok(EventType::TaskFinished)
        } else if str_eq(event, "task-failed") {
            Ok(EventType::TaskFailed)
        } else {
            Err(())
        }
    }
}

/// The four wire names are pairwise different, so a name stands for at most
/// one kind and every kind is read back from its own name.
pub proof fn lemma_event_type_names(k: EventType)
    ensures
        EventType::named(k.text()) == Some(k),
{
    reveal_strlit("task-started");
    reveal_strlit("result-generated");
    reveal_strlit("task-finished");
    reveal_strlit("task-failed");
    assert("task-started"@.len() == 12);
    assert("result-generated"@.len() == 16);
    assert("task-finished"@.len() == 13);
    assert("task-failed"@.len() == 11);
}

/// The bit pattern of the double `-0.0`.
pub const NEGATIVE_ZERO_BITS: u64 = 0x8000_0000_0000_0000;

/// The boolean that a wire value stands for, leniently: a boolean is itself,
/// a number is `true` unless it is zero, a text is read from the table
/// `true`/`1`/`yes` and `false`/`0`/`no` and else as a decimal integer.
/// Everything else, `null` included, stands for no boolean.
pub open spec fn coerce_bool(j: JsonValue) -> Option<bool> {
    match j {
        JsonValue::Boolean(b) => Some(b),
        JsonValue::Number(JsonNumber::PosInt(n)) => Some(n != 0),
        JsonValue::Number(JsonNumber::NegInt(n)) => Some(n != 0),
        JsonValue::Number(JsonNumber::Float(bits)) => Some(bits != 0 && bits != NEGATIVE_ZERO_BITS),
        JsonValue::Text(s) => if s == "true"@ || s == "1"@ || s == "yes"@ {
            Some(true)
        } else if s == "false"@ || s == "0"@ || s == "no"@ {
            Some(false)
        } else {
            match decimal_i64(s) {
                Some(n) => Some(n != 0),
                None => None,
            }
        },
        _ => None,
    }
}

/// The message for a value that stands for no boolean.
pub open spec fn coerce_bool_error(j: JsonValue) -> Seq<char> {
    match j {
        JsonValue::Text(s) => "unable to parse '"@ + s + "' as bool"@,
        _ => "unexpected value type for bool"@,
    }
}

/// Reads a boolean from any wire value that stands for one.
pub fn deserialize_bool_from_any(v: &serde_json::Value) -> (r: Result<Option<bool>, String>)
    ensures
        match r {
            Ok(o) => o is Some && o == coerce_bool(value_model(*v)),
            Err(msg) => coerce_bool(value_model(*v)) is None && msg@ == coerce_bool_error(
                value_model(*v),
            ),
        },
{
    if let Some(b) = value_as_bool(v) {
        return Ok(Some(b));
    }
    if let Some(n) = value_as_u64(v) {
        return Ok(Some(n != 0));
    }
    if let Some(n) = value_as_i64(v) {
        return Ok(Some(n != 0));
    }
    if let Some(bits) = value_float_bits(v) {
        return Ok(Some(bits != 0 && bits != NEGATIVE_ZERO_BITS));
    }
    match value_as_str(v) {
        Some(s) => {
            if str_eq(s, "true") || str_eq(s, "1") || str_eq(s, "yes") {
                Ok(Some(true))
            } else if str_eq(s, "false") || str_eq(s, "0") || str_eq(s, "no") {
                Ok(Some(false))
            } else {
                match parse_i64(s) {
                    Some(n) => Ok(Some(n != 0)),
                    None => {
                        let mut msg = String::new();
                        msg.append("unable to parse '");
                        msg.append(s);
                        msg.append("' as bool");
                        proof {
                            assert(msg@ =~= coerce_bool_error(value_model(*v)));
                        }
                        Err(msg)
                    },
                }
            }
        },
        None => Err("unexpected value type for bool".to_owned()),
    }
}

/// The table of the lenient reading: each listed input gives its boolean,
/// every number is `true` exactly when it is not zero, and a text that is
/// neither in the table nor a decimal integer, such as `maybe`, is refused,
/// as are `null`, arrays and objects.
pub proof fn lemma_coerce_bool_table()
    ensures
        forall|b: bool| coerce_bool(JsonValue::Boolean(b)) == Some(b),
        forall|n: u64| #[trigger]
            coerce_bool(JsonValue::Number(JsonNumber::PosInt(n))) == Some(n != 0),
        forall|n: i64| #[trigger]
            coerce_bool(JsonValue::Number(JsonNumber::NegInt(n))) == Some(n != 0),
        coerce_bool(JsonValue::Number(JsonNumber::Float(0))) == Some(false),
        coerce_bool(JsonValue::Number(JsonNumber::Float(NEGATIVE_ZERO_BITS))) == Some(false),
        forall|bits: u64|
            bits != 0 && bits != NEGATIVE_ZERO_BITS ==> #[trigger] coerce_bool(
                JsonValue::Number(JsonNumber::Float(bits)),
            ) == Some(true),
        coerce_bool(JsonValue::Text("true"@)) == Some(true),
        coerce_bool(JsonValue::Text("1"@)) == Some(true),
        coerce_bool(JsonValue::Text("yes"@)) == Some(true),
        coerce_bool(JsonValue::Text("false"@)) == Some(false),
        coerce_bool(JsonValue::Text("0"@)) == Some(false),
        coerce_bool(JsonValue::Text("no"@)) == Some(false),
        coerce_bool(JsonValue::Text("maybe"@)) is None,
        forall|s: Seq<char>|
            s.len() > 0 && !(s[0] == '-' || s[0] == '+' || ('0' <= s[0] <= '9'))
                && s != "true"@ && s != "yes"@ && s != "false"@ && s != "no"@
                ==> #[trigger] coerce_bool(JsonValue::Text(s)) is None,
        coerce_bool(JsonValue::Text(Seq::empty())) is None,
        coerce_bool(JsonValue::Null) is None,
        forall|items: Seq<JsonValue>| #[trigger] coerce_bool(JsonValue::Array(items)) is None,
        forall|m: Map<Seq<char>, JsonValue>| #[trigger] coerce_bool(JsonValue::Object(m)) is None,
{
    reveal_strlit("true");
    reveal_strlit("1");
    reveal_strlit("yes");
    reveal_strlit("false");
    reveal_strlit("0");
    reveal_strlit("no");
    reveal_strlit("maybe");
    assert("true"@[0] == 't');
    assert("false"@[0] == 'f');
    assert("maybe"@[0] == 'm');
    assert forall|s: Seq<char>|
        s.len() > 0 && !(s[0] == '-' || s[0] == '+' || ('0' <= s[0] <= '9')) implies decimal_i64(
        s,
    ) is None by {
        assert(!all_digits(s));
    }
    assert(decimal_i64("maybe"@) is None);
    assert(decimal_i64(Seq::empty()) is None);
}

/// An optional member read leniently as a boolean. A member that is
/// missing or `null` is absent; any other must stand for a boolean, else the
/// outer `None`.
pub open spec fn lenient_boolean(j: JsonValue, key: Seq<char>) -> Option<Option<bool>> {
    match j.member(key) {
        None => Some(None),
        Some(c) => match coerce_bool(c) {
            Some(b) => Some(Some(b)),
            None => None,
        },
    }
}

/// Reads an optional member leniently as a boolean; `Err` is a mismatch.
pub fn read_lenient_boolean(v: &serde_json::Value, key: &str) -> (r: Result<Option<bool>, ()>)
    ensures
        match r {
            Ok(o) => lenient_boolean(value_model(*v), key@) == Some(o),
            Err(_) => lenient_boolean(value_model(*v), key@) is None,
        },
{
    match read_member(v, key) {
        None => Ok(None),
        Some(c) => match deserialize_bool_from_any(c) {
            Ok(o) => Ok(o),
            Err(_) => Err(()),
        },
    }
}

/// One recognised word with its time span in milliseconds.
#[derive(Debug, Clone, PartialEq, Eq)]
pub struct AsrWord {
    pub begin_time: u32,
    pub end_time: u32,
    pub text: Option<String>,
    pub punctuation: String,
}

/// The content of an [`AsrWord`].
pub struct AsrWordView {
    pub begin_time: u32,
    pub end_time: u32,
    pub text: Option<Seq<char>>,
    pub punctuation: Seq<char>,
}

impl View for AsrWord {
    type V = AsrWordView;

    open spec fn view(&self) -> AsrWordView {
        AsrWordView {
            begin_time: self.begin_time,
            end_time: self.end_time,
            text: text_view(self.text),
            punctuation: self.punctuation@,
        }
    }
}

impl AsrWordView {
    /// The word that a wire value holds, if it has the shape of one.
    pub open spec fn from_json(j: JsonValue) -> Option<AsrWordView> {
        match (
            j.req_u32("begin_time"@),
            j.req_u32("end_time"@),
            j.opt_text("text"@),
            j.req_text("punctuation"@),
        ) {
            (Some(begin_time), Some(end_time), Some(text), Some(punctuation)) => Some(
                AsrWordView { begin_time, end_time, text, punctuation },
            ),
            _ => None,
        }
    }

    /// The wire value of this word; an absent text is left out.
    pub open spec fn to_json(self) -> JsonValue {
        JsonValue::empty_object().with("begin_time"@, int_json(self.begin_time as int)).with(
            "end_time"@,
            int_json(self.end_time as int),
        ).with_opt("text"@, text_json(self.text)).with("punctuation"@, JsonValue::Text(self.punctuation))
    }
}

impl AsrWord {
    /// Reads a word from a wire value.
    pub fn from_value(v: &serde_json::Value) -> (r: Option<AsrWord>)
        ensures
            match r {
                Some(w) => AsrWordView::from_json(value_model(*v)) == Some(w@),
                None => AsrWordView::from_json(value_model(*v)) is None,
            },
    {
        let begin_time = match read_req_u32(v, "begin_time") {
            Some(x) => x,
            None => return None,
        };
        let end_time = match read_req_u32(v, "end_time") {
            Some(x) => x,
            None => return None,
        };
        let text = match read_opt_text(v, "text") {
            Ok(x) => x,
            Err(_) => return None,
        };
        let punctuation = match read_req_text(v, "punctuation") {
            Some(x) => x,
            None => return None,
        };
        Some(AsrWord { begin_time, end_time, text, punctuation })
    }

    /// Writes this word as a wire value.
    pub fn to_value(&self) -> (r: serde_json::Value)
        ensures
            value_model(r) == self@.to_json(),
    {
        let mut obj = value_object();
        put_uint(&mut obj, "begin_time", self.begin_time as u64);
        put_uint(&mut obj, "end_time", self.end_time as u64);
        put_opt(&mut obj, "text", text_value(&self.text));
        put_text(&mut obj, "punctuation", self.punctuation.as_str());
        obj
    }
}

/// The views of a run of words.
pub open spec fn words_view(ws: Seq<AsrWord>) -> Seq<AsrWordView> {
    Seq::new(ws.len(), |i: int| ws[i]@)
}

/// The words that a wire array holds, if every item is a word.
pub open spec fn words_from_json(j: JsonValue) -> Option<Seq<AsrWordView>> {
    match j {
        JsonValue::Array(items) => if forall|i: int|
            0 <= i < items.len() ==> (#[trigger] AsrWordView::from_json(items[i])) is Some {
            Some(Seq::new(items.len(), |i: int| AsrWordView::from_json(items[i])->0))
        } else {
            None
        },
        _ => None,
    }
}

/// The wire array of a run of words.
pub open spec fn words_to_json(ws: Seq<AsrWordView>) -> JsonValue {
    JsonValue::Array(Seq::new(ws.len(), |i: int| ws[i].to_json()))
}

/// Reads a run of words from a wire array.
pub fn words_from_value(v: &serde_json::Value) -> (r: Option<Vec<AsrWord>>)
    ensures
        match r {
            Some(ws) => words_from_json(value_model(*v)) == Some(words_view(ws@)),
            None => words_from_json(value_model(*v)) is None,
        },
{
    let items = match value_as_array(v) {
        Some(a) => a,
        None => return None,
    };
    let ghost docs = models(items@);
    let mut out: Vec<AsrWord> = Vec::new();
    let mut i: usize = 0;
    while i < items.len()
        invariant
            i <= items.len(),
            out@.len() == i,
            docs == models(items@),
            value_model(*v) == JsonValue::Array(docs),
            forall|k: int| 0 <= k < i ==> AsrWordView::from_json(docs[k]) == Some(#[trigger] out@[k]@),
        decreases items.len() - i,
    {
        match AsrWord::from_value(&items[i]) {
            Some(w) => {
                out.push(w);
            },
            None => {
                proof {
                    assert(AsrWordView::from_json(docs[i as int]) is None);
                }
                return None;
            },
        }
        i += 1;
    }
    proof {
        assert forall|k: int| 0 <= k < docs.len() implies (#[trigger] AsrWordView::from_json(
            docs[k],
        )) == Some(out@[k]@) by {
            let _ = out@[k]@;
        }
        assert(words_from_json(value_model(*v))->0 =~= words_view(out@));
    }
    Some(out)
}

/// Writes a run of words as a wire array.
pub fn words_to_value(ws: &Vec<AsrWord>) -> (r: serde_json::Value)
    ensures
        value_model(r) == words_to_json(words_view(ws@)),
{
    let mut items: Vec<serde_json::Value> = Vec::new();
    let mut i: usize = 0;
    while i < ws.len()
        invariant
            i <= ws.len(),
            items@.len() == i,
            forall|k: int| 0 <= k < i ==> value_model(#[trigger] items@[k]) == ws@[k]@.to_json(),
        decreases ws.len() - i,
    {
        items.push(ws[i].to_value());
        i += 1;
    }
    proof {
        assert(models(items@) =~= Seq::new(ws@.len(), |i: int| words_view(ws@)[i].to_json()));
    }
    value_array(items)
}

/// How much of the service a task has used.
#[derive(Debug, Clone, PartialEq, Eq)]
pub struct AsrUsage {
    /// Billed duration in seconds.
    pub duration: Option<u32>,
}

/// The content of an [`AsrUsage`].
pub struct AsrUsageView {
    pub duration: Option<u32>,
}

impl View for AsrUsage {
    type V = AsrUsageView;

    open spec fn view(&self) -> AsrUsageView {
        AsrUsageView { duration: self.duration }
    }
}

impl AsrUsageView {
    /// The usage that a wire value holds, if it has the shape of one.
    pub open spec fn from_json(j: JsonValue) -> Option<AsrUsageView> {
        if !(j is Object) {
            None
        } else {
            match j.opt_u32("duration"@) {
                Some(duration) => Some(AsrUsageView { duration }),
                None => None,
            }
        }
    }

    /// The wire value of this usage.
    pub open spec fn to_json(self) -> JsonValue {
        JsonValue::empty_object().with_opt("duration"@, u32_json(self.duration))
    }
}

impl AsrUsage {
    /// Reads a usage from a wire value.
    pub fn from_value(v: &serde_json::Value) -> (r: Option<AsrUsage>)
        ensures
            match r {
                Some(u) => AsrUsageView::from_json(value_model(*v)) == Some(u@),
                None => AsrUsageView::from_json(value_model(*v)) is None,
            },
    {
        if !value_is_object(v) {
            return None;
        }
        match read_opt_u32(v, "duration") {
            Ok(duration) => Some(AsrUsage { duration }),
            Err(_) => None,
        }
    }

    /// Writes this usage as a wire value.
    pub fn to_value(&self) -> (r: serde_json::Value)
        ensures
            value_model(r) == self@.to_json(),
    {
        let mut obj = value_object();
        put_opt(&mut obj, "duration", u32_value(self.duration));
        obj
    }
}

/// One translation of the recognised speech.
#[derive(Debug, Clone, PartialEq, Eq)]
pub struct AsrTranslation {
    pub text: Option<String>,
}

/// The content of an [`AsrTranslation`].
pub struct AsrTranslationView {
    pub text: Option<Seq<char>>,
}

impl View for AsrTranslation {
    type V = AsrTranslationView;

    open spec fn view(&self) -> AsrTranslationView {
        AsrTranslationView { text: text_view(self.text) }
    }
}

impl AsrTranslationView {
    /// The translation that a wire value holds, if it has the shape of one.
    pub open spec fn from_json(j: JsonValue) -> Option<AsrTranslationView> {
        if !(j is Object) {
            None
        } else {
            match j.opt_text("text"@) {
                Some(text) => Some(AsrTranslationView { text }),
                None => None,
            }
        }
    }

    /// The wire value of this translation.
    pub open spec fn to_json(self) -> JsonValue {
        JsonValue::empty_object().with_opt("text"@, text_json(self.text))
    }
}

impl AsrTranslation {
    /// Reads one rendering of the speech in another language.
    pub fn from_value(v: &serde_json::Value) -> (r: Option<AsrTranslation>)
        ensures
            match r {
                Some(t) => AsrTranslationView::from_json(value_model(*v)) == Some(t@),
                None => AsrTranslationView::from_json(value_model(*v)) is None,
            },
    {
        if !value_is_object(v) {
            return None;
        }
        match read_opt_text(v, "text") {
            Ok(text) => Some(AsrTranslation { text }),
            Err(_) => None,
        }
    }

    /// Writes this translation as a wire value.
    pub fn to_value(&self) -> (r: serde_json::Value)
        ensures
            value_model(r) == self@.to_json(),
    {
        let mut obj = value_object();
        put_opt(&mut obj, "text", text_value(&self.text));
        obj
    }
}

/// The views of a run of translations.
pub open spec fn translations_view(ts: Seq<AsrTranslation>) -> Seq<AsrTranslationView> {
    Seq::new(ts.len(), |i: int| ts[i]@)
}

/// The translations that a wire array holds, if every item is one.
pub open spec fn translations_from_json(j: JsonValue) -> Option<Seq<AsrTranslationView>> {
    match j {
        JsonValue::Array(items) => if forall|i: int|
            0 <= i < items.len() ==> (#[trigger] AsrTranslationView::from_json(items[i])) is Some {
            Some(Seq::new(items.len(), |i: int| AsrTranslationView::from_json(items[i])->0))
        } else {
            None
        },
        _ => None,
    }
}

/// The wire array of a run of translations.
pub open spec fn translations_to_json(ts: Seq<AsrTranslationView>) -> JsonValue {
    JsonValue::Array(Seq::new(ts.len(), |i: int| ts[i].to_json()))
}

/// Reads the member `translations`: a wire array of renderings.
pub fn translations_from_value(v: &serde_json::Value) -> (r: Option<Vec<AsrTranslation>>)
    ensures
        match r {
            Some(ts) => translations_from_json(value_model(*v)) == Some(translations_view(ts@)),
            None => translations_from_json(value_model(*v)) is None,
        },
{
    let items = match value_as_array(v) {
        Some(a) => a,
        None => return None,
    };
    let ghost docs = models(items@);
    let mut out: Vec<AsrTranslation> = Vec::new();
    let mut i: usize = 0;
    while i < items.len()
        invariant
            i <= items.len(),
            out@.len() == i,
            docs == models(items@),
            value_model(*v) == JsonValue::Array(docs),
            forall|k: int|
                0 <= k < i ==> AsrTranslationView::from_json(docs[k]) == Some(#[trigger] out@[k]@),
        decreases items.len() - i,
    {
        match AsrTranslation::from_value(&items[i]) {
            Some(t) => {
                out.push(t);
            },
            None => {
                proof {
                    assert(AsrTranslationView::from_json(docs[i as int]) is None);
                }
                return None;
            },
        }
        i += 1;
    }
    proof {
        assert forall|k: int| 0 <= k < docs.len() implies (
        #[trigger] AsrTranslationView::from_json(docs[k])) == Some(out@[k]@) by {
            let _ = out@[k]@;
        }
        assert(translations_from_json(value_model(*v))->0 =~= translations_view(out@));
    }
    Some(out)
}

/// Writes a run of translations as a wire array.
pub fn translations_to_value(ts: &Vec<AsrTranslation>) -> (r: serde_json::Value)
    ensures
        value_model(r) == translations_to_json(translations_view(ts@)),
{
    let mut items: Vec<serde_json::Value> = Vec::new();
    let mut i: usize = 0;
    while i < ts.len()
        invariant
            i <= ts.len(),
            items@.len() == i,
            forall|k: int| 0 <= k < i ==> value_model(#[trigger] items@[k]) == ts@[k]@.to_json(),
        decreases ts.len() - i,
    {
        items.push(ts[i].to_value());
        i += 1;
    }
    proof {
        assert(models(items@) =~= Seq::new(
            ts@.len(),
            |i: int| translations_view(ts@)[i].to_json(),
        ));
    }
    value_array(items)
}

/// A finished piece of transcription.
#[derive(Debug, Clone, PartialEq, Eq)]
pub struct Asrtranscription {
    pub sentence_id: u32,
    pub begin_time: Option<u32>,
    pub end_time: Option<u32>,
    pub text: Option<String>,
    pub lang: Option<String>,
    pub words: Vec<AsrWord>,
    pub sentence_end: Option<bool>,
}

/// The content of an [`Asrtranscription`].
pub struct AsrtranscriptionView {
    pub sentence_id: u32,
    pub begin_time: Option<u32>,
    pub end_time: Option<u32>,
    pub text: Option<Seq<char>>,
    pub lang: Option<Seq<char>>,
    pub words: Seq<AsrWordView>,
    pub sentence_end: Option<bool>,
}

impl View for Asrtranscription {
    type V = AsrtranscriptionView;

    open spec fn view(&self) -> AsrtranscriptionView {
        AsrtranscriptionView {
            sentence_id: self.sentence_id,
            begin_time: self.begin_time,
            end_time: self.end_time,
            text: text_view(self.text),
            lang: text_view(self.lang),
            words: words_view(self.words@),
            sentence_end: self.sentence_end,
        }
    }
}

/// The required member `words`, read as a run of words.
pub open spec fn words_member(j: JsonValue) -> Option<Seq<AsrWordView>> {
    match j.field("words"@) {
        Some(c) => words_from_json(c),
        None => None,
    }
}

impl AsrtranscriptionView {
    /// The transcription that a wire value holds, if it has the shape of one.
    pub open spec fn from_json(j: JsonValue) -> Option<AsrtranscriptionView> {
        let sentence_id = j.req_u32("sentence_id"@);
        let begin_time = j.opt_u32("begin_time"@);
        let end_time = j.opt_u32("end_time"@);
        let text = j.opt_text("text"@);
        let lang = j.opt_text("lang"@);
        let words = words_member(j);
        let sentence_end = lenient_boolean(j, "sentence_end"@);
        if sentence_id is Some && begin_time is Some && end_time is Some && text is Some
            && lang is Some && words is Some && sentence_end is Some {
            Some(
                AsrtranscriptionView {
                    sentence_id: sentence_id->0,
                    begin_time: begin_time->0,
                    end_time: end_time->0,
                    text: text->0,
                    lang: lang->0,
                    words: words->0,
                    sentence_end: sentence_end->0,
                },
            )
        } else {
            None
        }
    }

    /// The wire value of this transcription; absent members are left out.
    pub open spec fn to_json(self) -> JsonValue {
        JsonValue::empty_object().with("sentence_id"@, int_json(self.sentence_id as int)).with_opt(
            "begin_time"@,
            u32_json(self.begin_time),
        ).with_opt("end_time"@, u32_json(self.end_time)).with_opt(
            "text"@,
            text_json(self.text),
        ).with_opt("lang"@, text_json(self.lang)).with("words"@, words_to_json(self.words)).with_opt(
            "sentence_end"@,
            boolean_json(self.sentence_end),
        )
    }
}

impl Asrtranscription {
    /// Reads a transcription from a wire value.
    pub fn from_value(v: &serde_json::Value) -> (r: Option<Asrtranscription>)
        ensures
            match r {
                Some(t) => AsrtranscriptionView::from_json(value_model(*v)) == Some(t@),
                None => AsrtranscriptionView::from_json(value_model(*v)) is None,
            },
    {
        let sentence_id = match read_req_u32(v, "sentence_id") {
            Some(x) => x,
            None => return None,
        };
        let begin_time = match read_opt_u32(v, "begin_time") {
            Ok(x) => x,
            Err(_) => return None,
        };
        let end_time = match read_opt_u32(v, "end_time") {
            Ok(x) => x,
            Err(_) => return None,
        };
        let text = match read_opt_text(v, "text") {
            Ok(x) => x,
            Err(_) => return None,
        };
        let lang = match read_opt_text(v, "lang") {
            Ok(x) => x,
            Err(_) => return None,
        };
        let words = match value_get(v, "words") {
            Some(c) => match words_from_value(c) {
                Some(ws) => ws,
                None => return None,
            },
            None => return None,
        };
        let sentence_end = match read_lenient_boolean(v, "sentence_end") {
            Ok(x) => x,
            Err(_) => return None,
        };
        Some(Asrtranscription { sentence_id, begin_time, end_time, text, lang, words, sentence_end })
    }

    /// Writes this transcription as a wire value.
    pub fn to_value(&self) -> (r: serde_json::Value)
        ensures
            value_model(r) == self@.to_json(),
    {
        let mut obj = value_object();
        put_uint(&mut obj, "sentence_id", self.sentence_id as u64);
        put_opt(&mut obj, "begin_time", u32_value(self.begin_time));
        put_opt(&mut obj, "end_time", u32_value(self.end_time));
        put_opt(&mut obj, "text", text_value(&self.text));
        put_opt(&mut obj, "lang", text_value(&self.lang));
        value_set(&mut obj, "words", words_to_value(&self.words));
        put_opt(&mut obj, "sentence_end", boolean_value(self.sentence_end));
        obj
    }
}

/// A sentence as recognised so far.
#[derive(Debug, Clone, PartialEq)]
pub struct AsrSentence {
    pub index: Option<u32>,
    pub begin_time: Option<u32>,
    /// Absent while the sentence is still being recognised.
    pub end_time: Option<u32>,
    pub text: Option<String>,
    pub words: Vec<AsrWord>,
    /// Set on keep-alive results, which carry no speech.
    pub heartbeat: Option<bool>,
    pub sentence_end: Option<bool>,
    pub emo_tag: Option<String>,
    /// The confidence of the emotion tag: the number as it came on the wire.
    pub emo_confidence: Option<serde_json::Value>,
}

/// The content of an [`AsrSentence`].
pub struct AsrSentenceView {
    pub index: Option<u32>,
    pub begin_time: Option<u32>,
    pub end_time: Option<u32>,
    pub text: Option<Seq<char>>,
    pub words: Seq<AsrWordView>,
    pub heartbeat: Option<bool>,
    pub sentence_end: Option<bool>,
    pub emo_tag: Option<Seq<char>>,
    pub emo_confidence: Option<JsonValue>,
}

impl View for AsrSentence {
    type V = AsrSentenceView;

    open spec fn view(&self) -> AsrSentenceView {
        AsrSentenceView {
            index: self.index,
            begin_time: self.begin_time,
            end_time: self.end_time,
            text: text_view(self.text),
            words: words_view(self.words@),
            heartbeat: self.heartbeat,
            sentence_end: self.sentence_end,
            emo_tag: text_view(self.emo_tag),
            emo_confidence: optional_model(self.emo_confidence),
        }
    }
}

impl AsrSentenceView {
    /// A confidence, where there is one, is a number.
    pub open spec fn wf(self) -> bool {
        self.emo_confidence matches Some(c) ==> c is Number
    }

    /// The sentence that a wire value holds, if it has the shape of one.
    pub open spec fn from_json(j: JsonValue) -> Option<AsrSentenceView> {
        let index = j.opt_u32("index"@);
        let begin_time = j.opt_u32("begin_time"@);
        let end_time = j.opt_u32("end_time"@);
        let text = j.opt_text("text"@);
        let words = words_member(j);
        let heartbeat = j.opt_boolean("heartbeat"@);
        let sentence_end = lenient_boolean(j, "sentence_end"@);
        let emo_tag = j.opt_text("emo_tag"@);
        let emo_confidence = j.opt_number("emo_confidence"@);
        if index is Some && begin_time is Some && end_time is Some && text is Some && words is Some
            && heartbeat is Some && sentence_end is Some && emo_tag is Some
            && emo_confidence is Some {
            Some(
                AsrSentenceView {
                    index: index->0,
                    begin_time: begin_time->0,
                    end_time: end_time->0,
                    text: text->0,
                    words: words->0,
                    heartbeat: heartbeat->0,
                    sentence_end: sentence_end->0,
                    emo_tag: emo_tag->0,
                    emo_confidence: emo_confidence->0,
                },
            )
        } else {
            None
        }
    }

    /// The wire value of this sentence; absent members are left out.
    pub open spec fn to_json(self) -> JsonValue {
        JsonValue::empty_object().with_opt("index"@, u32_json(self.index)).with_opt(
            "begin_time"@,
            u32_json(self.begin_time),
        ).with_opt("end_time"@, u32_json(self.end_time)).with_opt(
            "text"@,
            text_json(self.text),
        ).with("words"@, words_to_json(self.words)).with_opt(
            "heartbeat"@,
            boolean_json(self.heartbeat),
        ).with_opt("sentence_end"@, boolean_json(self.sentence_end)).with_opt(
            "emo_tag"@,
            text_json(self.emo_tag),
        ).with_opt("emo_confidence"@, self.emo_confidence)
    }
}

impl AsrSentence {
    /// Whether this is an intermediate result: the sentence has no end time yet.
    pub fn is_intermediate(&self) -> (r: bool)
        ensures
            r == (self.end_time is None),
    {
        self.end_time.is_none()
    }

    /// Whether this is a final result: the sentence has its end time.
    pub fn is_final(&self) -> (r: bool)
        ensures
            r == (self.end_time is Some),
    {
        self.end_time.is_some()
    }

    /// Reads a sentence from a wire value.
    pub fn from_value(v: &serde_json::Value) -> (r: Option<AsrSentence>)
        ensures
            match r {
                Some(t) => AsrSentenceView::from_json(value_model(*v)) == Some(t@) && t@.wf(),
                None => AsrSentenceView::from_json(value_model(*v)) is None,
            },
    {
        let index = match read_opt_u32(v, "index") {
            Ok(x) => x,
            Err(_) => return None,
        };
        let begin_time = match read_opt_u32(v, "begin_time") {
            Ok(x) => x,
            Err(_) => return None,
        };
        let end_time = match read_opt_u32(v, "end_time") {
            Ok(x) => x,
            Err(_) => return None,
        };
        let text = match read_opt_text(v, "text") {
            Ok(x) => x,
            Err(_) => return None,
        };
        let words = match value_get(v, "words") {
            Some(c) => match words_from_value(c) {
                Some(ws) => ws,
                None => return None,
            },
            None => return None,
        };
        let heartbeat = match read_opt_boolean(v, "heartbeat") {
            Ok(x) => x,
            Err(_) => return None,
        };
        let sentence_end = match read_lenient_boolean(v, "sentence_end") {
            Ok(x) => x,
            Err(_) => return None,
        };
        let emo_tag = match read_opt_text(v, "emo_tag") {
            Ok(x) => x,
            Err(_) => return None,
        };
        let emo_confidence = match read_opt_number(v, "emo_confidence") {
            Ok(x) => x,
            Err(_) => return None,
        };
        Some(
            AsrSentence {
                index,
                begin_time,
                end_time,
                text,
                words,
                heartbeat,
                sentence_end,
                emo_tag,
                emo_confidence,
            },
        )
    }

    /// Writes this sentence as a wire value.
    pub fn to_value(&self) -> (r: serde_json::Value)
        ensures
            value_model(r) == self@.to_json(),
    {
        let mut obj = value_object();
        put_opt(&mut obj, "index", u32_value(self.index));
        put_opt(&mut obj, "begin_time", u32_value(self.begin_time));
        put_opt(&mut obj, "end_time", u32_value(self.end_time));
        put_opt(&mut obj, "text", text_value(&self.text));
        value_set(&mut obj, "words", words_to_value(&self.words));
        put_opt(&mut obj, "heartbeat", boolean_value(self.heartbeat));
        put_opt(&mut obj, "sentence_end", boolean_value(self.sentence_end));
        put_opt(&mut obj, "emo_tag", text_value(&self.emo_tag));
        put_opt(&mut obj, "emo_confidence", copy_value(&self.emo_confidence));
        obj
    }
}

/// What a result carries: a sentence, translations, a transcription, each
/// where the task produces it.
#[derive(Debug, Clone, PartialEq)]
pub struct AsrOutput {
    pub sentence: Option<AsrSentence>,
    pub translations: Option<Vec<AsrTranslation>>,
    pub transcription: Option<Asrtranscription>,
}

/// The content of an [`AsrOutput`].
pub struct AsrOutputView {
    pub sentence: Option<AsrSentenceView>,
    pub translations: Option<Seq<AsrTranslationView>>,
    pub transcription: Option<AsrtranscriptionView>,
}

impl View for AsrOutput {
    type V = AsrOutputView;

    open spec fn view(&self) -> AsrOutputView {
        AsrOutputView {
            sentence: match self.sentence {
                Some(x) => Some(x@),
                None => None,
            },
            translations: match self.translations {
                Some(x) => Some(translations_view(x@)),
                None => None,
            },
            transcription: match self.transcription {
                Some(x) => Some(x@),
                None => None,
            },
        }
    }
}

impl AsrOutputView {
    /// The sentence, where there is one, is well formed.
    pub open spec fn wf(self) -> bool {
        self.sentence matches Some(x) ==> x.wf()
    }

    /// The optional member `sentence`; the outer `None` is a mismatch.
    pub open spec fn sentence_member(j: JsonValue) -> Option<Option<AsrSentenceView>> {
        match j.member("sentence"@) {
            None => Some(None),
            Some(c) => match AsrSentenceView::from_json(c) {
                Some(x) => Some(Some(x)),
                None => None,
            },
        }
    }

    /// The optional member `translations`; the outer `None` is a mismatch.
    pub open spec fn translations_member(j: JsonValue) -> Option<Option<Seq<AsrTranslationView>>> {
        match j.member("translations"@) {
            None => Some(None),
            Some(c) => match translations_from_json(c) {
                Some(x) => Some(Some(x)),
                None => None,
            },
        }
    }

    /// The optional member `transcription`; the outer `None` is a mismatch.
    pub open spec fn transcription_member(j: JsonValue) -> Option<Option<AsrtranscriptionView>> {
        match j.member("transcription"@) {
            None => Some(None),
            Some(c) => match AsrtranscriptionView::from_json(c) {
                Some(x) => Some(Some(x)),
                None => None,
            },
        }
    }

    /// The output that a wire value holds, if it has the shape of one.
    pub open spec fn from_json(j: JsonValue) -> Option<AsrOutputView> {
        let sentence = Self::sentence_member(j);
        let translations = Self::translations_member(j);
        let transcription = Self::transcription_member(j);
        if j is Object && sentence is Some && translations is Some && transcription is Some {
            Some(
                AsrOutputView {
                    sentence: sentence->0,
                    translations: translations->0,
                    transcription: transcription->0,
                },
            )
        } else {
            None
        }
    }

    /// The wire value of this output; absent members are left out.
    pub open spec fn to_json(self) -> JsonValue {
        JsonValue::empty_object().with_opt(
            "sentence"@,
            match self.sentence {
                Some(x) => Some(x.to_json()),
                None => None,
            },
        ).with_opt(
            "translations"@,
            match self.translations {
                Some(x) => Some(translations_to_json(x)),
                None => None,
            },
        ).with_opt(
            "transcription"@,
            match self.transcription {
                Some(x) => Some(x.to_json()),
                None => None,
            },
        )
    }
}

impl AsrOutput {
    /// Reads an output from a wire value.
    pub fn from_value(v: &serde_json::Value) -> (r: Option<AsrOutput>)
        ensures
            match r {
                Some(t) => AsrOutputView::from_json(value_model(*v)) == Some(t@) && t@.wf(),
                None => AsrOutputView::from_json(value_model(*v)) is None,
            },
    {
        if !value_is_object(v) {
            return None;
        }
        let sentence = match read_member(v, "sentence") {
            None => None,
            Some(c) => match AsrSentence::from_value(c) {
                Some(x) => Some(x),
                None => return None,
            },
        };
        let translations = match read_member(v, "translations") {
            None => None,
            Some(c) => match translations_from_value(c) {
                Some(x) => Some(x),
                None => return None,
            },
        };
        let transcription = match read_member(v, "transcription") {
            None => None,
            Some(c) => match Asrtranscription::from_value(c) {
                Some(x) => Some(x),
                None => return None,
            },
        };
        Some(AsrOutput { sentence, translations, transcription })
    }

    /// Writes this output as a wire value.
    pub fn to_value(&self) -> (r: serde_json::Value)
        ensures
            value_model(r) == self@.to_json(),
    {
        let mut obj = value_object();
        proof {
            reveal(JsonValue::with_opt);
        }
        match &self.sentence {
            Some(x) => value_set(&mut obj, "sentence", x.to_value()),
            None => {},
        }
        match &self.translations {
            Some(x) => value_set(&mut obj, "translations", translations_to_value(x)),
            None => {},
        }
        match &self.transcription {
            Some(x) => value_set(&mut obj, "transcription", x.to_value()),
            None => {},
        }
        obj
    }
}

/// The result of a recognition request made in one piece.
#[derive(Debug, Clone, PartialEq)]
pub struct AutomaticSpeechRecognitionOutput {
    pub request_id: String,
    pub output: AsrOutput,
    pub usage: AsrUsage,
}

/// What every event carries.
#[derive(Debug, Clone, PartialEq)]
pub struct WebSocketEventHeader {
    pub task_id: String,
    /// The event kind, by its wire name.
    pub event: String,
    /// Passed through as it came.
    pub attributes: serde_json::Value,
    /// Present on `task-failed` only.
    pub error_code: Option<String>,
    /// Present on `task-failed` only.
    pub error_message: Option<String>,
}

/// The content of a [`WebSocketEventHeader`].
pub struct WebSocketEventHeaderView {
    pub task_id: Seq<char>,
    pub event: Seq<char>,
    pub attributes: JsonValue,
    pub error_code: Option<Seq<char>>,
    pub error_message: Option<Seq<char>>,
}

impl View for WebSocketEventHeader {
    type V = WebSocketEventHeaderView;

    open spec fn view(&self) -> WebSocketEventHeaderView {
        WebSocketEventHeaderView {
            task_id: self.task_id@,
            event: self.event@,
            attributes: value_model(self.attributes),
            error_code: text_view(self.error_code),
            error_message: text_view(self.error_message),
        }
    }
}

impl WebSocketEventHeaderView {
    /// The header that a wire value holds, if it has the shape of one.
    pub open spec fn from_json(j: JsonValue) -> Option<WebSocketEventHeaderView> {
        let task_id = j.req_text("task_id"@);
        let event = j.req_text("event"@);
        let attributes = j.field("attributes"@);
        let error_code = j.opt_text("error_code"@);
        let error_message = j.opt_text("error_message"@);
        if task_id is Some && event is Some && attributes is Some && error_code is Some
            && error_message is Some {
            Some(
                WebSocketEventHeaderView {
                    task_id: task_id->0,
                    event: event->0,
                    attributes: attributes->0,
                    error_code: error_code->0,
                    error_message: error_message->0,
                },
            )
        } else {
            None
        }
    }

    /// The wire value of this header; an absent error code or message is
    /// left out.
    pub open spec fn to_json(self) -> JsonValue {
        JsonValue::empty_object().with("task_id"@, JsonValue::Text(self.task_id)).with(
            "event"@,
            JsonValue::Text(self.event),
        ).with("attributes"@, self.attributes).with_opt(
            "error_code"@,
            text_json(self.error_code),
        ).with_opt("error_message"@, text_json(self.error_message))
    }
}

impl WebSocketEventHeader {
    /// Reads a header from a wire value.
    pub fn from_value(v: &serde_json::Value) -> (r: Option<WebSocketEventHeader>)
        ensures
            match r {
                Some(t) => WebSocketEventHeaderView::from_json(value_model(*v)) == Some(t@),
                None => WebSocketEventHeaderView::from_json(value_model(*v)) is None,
            },
    {
        let task_id = match read_req_text(v, "task_id") {
            Some(x) => x,
            None => return None,
        };
        let event = match read_req_text(v, "event") {
            Some(x) => x,
            None => return None,
        };
        let attributes = match value_get(v, "attributes") {
            Some(c) => c.clone(),
            None => return None,
        };
        let error_code = match read_opt_text(v, "error_code") {
            Ok(x) => x,
            Err(_) => return None,
        };
        let error_message = match read_opt_text(v, "error_message") {
            Ok(x) => x,
            Err(_) => return None,
        };
        Some(WebSocketEventHeader { task_id, event, attributes, error_code, error_message })
    }

    /// Writes this header as a wire value.
    pub fn to_value(&self) -> (r: serde_json::Value)
        ensures
            value_model(r) == self@.to_json(),
    {
        let mut obj = value_object();
        put_text(&mut obj, "task_id", self.task_id.as_str());
        put_text(&mut obj, "event", self.event.as_str());
        value_set(&mut obj, "attributes", self.attributes.clone());
        put_opt(&mut obj, "error_code", text_value(&self.error_code));
        put_opt(&mut obj, "error_message", text_value(&self.error_message));
        obj
    }
}

/// What `result-generated` and `task-finished` carry besides the header.
#[derive(Debug, Clone, PartialEq)]
pub struct WebSocketEventPayload {
    pub output: Option<AsrOutput>,
    pub usage: Option<AsrUsage>,
}

/// The content of a [`WebSocketEventPayload`].
pub struct WebSocketEventPayloadView {
    pub output: Option<AsrOutputView>,
    pub usage: Option<AsrUsageView>,
}

impl View for WebSocketEventPayload {
    type V = WebSocketEventPayloadView;

    open spec fn view(&self) -> WebSocketEventPayloadView {
        WebSocketEventPayloadView {
            output: match self.output {
                Some(x) => Some(x@),
                None => None,
            },
            usage: match self.usage {
                Some(x) => Some(x@),
                None => None,
            },
        }
    }
}

impl WebSocketEventPayloadView {
    /// The output, where there is one, is well formed.
    pub open spec fn wf(self) -> bool {
        self.output matches Some(x) ==> x.wf()
    }

    /// The optional member `output`; the outer `None` is a mismatch.
    pub open spec fn output_member(j: JsonValue) -> Option<Option<AsrOutputView>> {
        match j.member("output"@) {
            None => Some(None),
            Some(c) => match AsrOutputView::from_json(c) {
                Some(x) => Some(Some(x)),
                None => None,
            },
        }
    }

    /// The optional member `usage`; the outer `None` is a mismatch.
    pub open spec fn usage_member(j: JsonValue) -> Option<Option<AsrUsageView>> {
        match j.member("usage"@) {
            None => Some(None),
            Some(c) => match AsrUsageView::from_json(c) {
                Some(x) => Some(Some(x)),
                None => None,
            },
        }
    }

    /// The payload that a wire value holds, if it has the shape of one.
    pub open spec fn from_json(j: JsonValue) -> Option<WebSocketEventPayloadView> {
        let output = Self::output_member(j);
        let usage = Self::usage_member(j);
        if j is Object && output is Some && usage is Some {
            Some(WebSocketEventPayloadView { output: output->0, usage: usage->0 })
        } else {
            None
        }
    }

    /// The wire value of this payload; absent members are left out.
    pub open spec fn to_json(self) -> JsonValue {
        JsonValue::empty_object().with_opt(
            "output"@,
            match self.output {
                Some(x) => Some(x.to_json()),
                None => None,
            },
        ).with_opt(
            "usage"@,
            match self.usage {
                Some(x) => Some(x.to_json()),
                None => None,
            },
        )
    }
}

impl WebSocketEventPayload {
    /// Reads a payload from a wire value.
    pub fn from_value(v: &serde_json::Value) -> (r: Option<WebSocketEventPayload>)
        ensures
            match r {
                Some(t) => WebSocketEventPayloadView::from_json(value_model(*v)) == Some(t@)
                    && t@.wf(),
                None => WebSocketEventPayloadView::from_json(value_model(*v)) is None,
            },
    {
        if !value_is_object(v) {
            return None;
        }
        let output = match read_member(v, "output") {
            None => None,
            Some(c) => match AsrOutput::from_value(c) {
                Some(x) => Some(x),
                None => return None,
            },
        };
        let usage = match read_member(v, "usage") {
            None => None,
            Some(c) => match AsrUsage::from_value(c) {
                Some(x) => Some(x),
                None => return None,
            },
        };
        Some(WebSocketEventPayload { output, usage })
    }

    /// Writes this payload as a wire value.
    pub fn to_value(&self) -> (r: serde_json::Value)
        ensures
            value_model(r) == self@.to_json(),
    {
        let mut obj = value_object();
        proof {
            reveal(JsonValue::with_opt);
        }
        match &self.output {
            Some(x) => value_set(&mut obj, "output", x.to_value()),
            None => {},
        }
        match &self.usage {
            Some(x) => value_set(&mut obj, "usage", x.to_value()),
            None => {},
        }
        obj
    }
}

/// An event sent by the service.
#[derive(Debug, Clone, PartialEq)]
pub enum WebSocketEvent {
    /// The task has started.
    TaskStarted { header: WebSocketEventHeader },
    /// A piece of the result.
    ResultGenerated { header: WebSocketEventHeader, payload: WebSocketEventPayload },
    /// The task has completed; no event follows.
    TaskFinished { header: WebSocketEventHeader, payload: WebSocketEventPayload },
    /// The task has failed; no event follows.
    TaskFailed { header: WebSocketEventHeader },
}

/// The content of a [`WebSocketEvent`].
pub enum WebSocketEventView {
    TaskStarted { header: WebSocketEventHeaderView },
    ResultGenerated { header: WebSocketEventHeaderView, payload: WebSocketEventPayloadView },
    TaskFinished { header: WebSocketEventHeaderView, payload: WebSocketEventPayloadView },
    TaskFailed { header: WebSocketEventHeaderView },
}

impl View for WebSocketEvent {
    type V = WebSocketEventView;

    open spec fn view(&self) -> WebSocketEventView {
        match self {
            WebSocketEvent::TaskStarted { header } => WebSocketEventView::TaskStarted {
                header: header@,
            },
            WebSocketEvent::ResultGenerated { header, payload } => {
                WebSocketEventView::ResultGenerated { header: header@, payload: payload@ }
            },
            WebSocketEvent::TaskFinished { header, payload } => WebSocketEventView::TaskFinished {
                header: header@,
                payload: payload@,
            },
            WebSocketEvent::TaskFailed { header } => WebSocketEventView::TaskFailed {
                header: header@,
            },
        }
    }
}

/// The message of the error for a frame that does not have the shape of its kind.
pub open spec fn mismatch_text() -> Seq<char> {
    "frame does not match the shape of its event kind"@
}

/// The error for a frame whose `header.event` is missing, is no text, or is
/// not one of the four names. A missing name is reported as `unknown`.
pub open spec fn unknown_kind(name: Seq<char>) -> DashScopeErrorView {
    DashScopeErrorView::UnknownEventType { event_type: name }
}

/// The error for a frame that is not the JSON expected: why, and the text
/// that was received.
pub open spec fn undecodable(source: Seq<char>, raw: Seq<char>) -> DashScopeErrorView {
    DashScopeErrorView::JSONDeserialize { source, raw_response: raw }
}

impl WebSocketEventView {
    /// The kind of this event.
    pub open spec fn kind(self) -> EventType {
        match self {
            WebSocketEventView::TaskStarted { .. } => EventType::TaskStarted,
            WebSocketEventView::ResultGenerated { .. } => EventType::ResultGenerated,
            WebSocketEventView::TaskFinished { .. } => EventType::TaskFinished,
            WebSocketEventView::TaskFailed { .. } => EventType::TaskFailed,
        }
    }

    /// The header of this event.
    pub open spec fn header(self) -> WebSocketEventHeaderView {
        match self {
            WebSocketEventView::TaskStarted { header } => header,
            WebSocketEventView::ResultGenerated { header, .. } => header,
            WebSocketEventView::TaskFinished { header, .. } => header,
            WebSocketEventView::TaskFailed { header } => header,
        }
    }

    /// The payload of this event, for the two kinds that have one.
    pub open spec fn payload(self) -> Option<WebSocketEventPayloadView> {
        match self {
            WebSocketEventView::ResultGenerated { payload, .. } => Some(payload),
            WebSocketEventView::TaskFinished { payload, .. } => Some(payload),
            _ => None,
        }
    }

    /// The header names the kind of the event, and the payload is well formed.
    pub open spec fn wf(self) -> bool {
        &&& self.header().event == self.kind().text()
        &&& self.payload() matches Some(p) ==> p.wf()
    }

    /// The event of the given kind with this header and payload.
    pub open spec fn assemble(
        kind: EventType,
        header: WebSocketEventHeaderView,
        payload: Option<WebSocketEventPayloadView>,
    ) -> WebSocketEventView
        recommends
            (kind == EventType::ResultGenerated || kind == EventType::TaskFinished)
                ==> payload is Some,
    {
        match kind {
            EventType::TaskStarted => WebSocketEventView::TaskStarted { header },
            EventType::ResultGenerated => WebSocketEventView::ResultGenerated {
                header,
                payload: payload->0,
            },
            EventType::TaskFinished => WebSocketEventView::TaskFinished {
                header,
                payload: payload->0,
            },
            EventType::TaskFailed => WebSocketEventView::TaskFailed { header },
        }
    }

    /// The wire value of this event: the header and, for the two kinds that
    /// have one, the payload.
    pub open spec fn to_json(self) -> JsonValue {
        JsonValue::empty_object().with("header"@, self.header().to_json()).with_opt(
            "payload"@,
            match self.payload() {
                Some(p) => Some(p.to_json()),
                None => None,
            },
        )
    }
}

/// The discriminant of a frame: the text at `header.event`, if there is one.
pub open spec fn event_kind(j: JsonValue) -> Option<Seq<char>> {
    match j.field("header"@) {
        Some(h) => h.req_text("event"@),
        None => None,
    }
}

/// The required member `header`, read as a header.
pub open spec fn header_member(j: JsonValue) -> Option<WebSocketEventHeaderView> {
    match j.field("header"@) {
        Some(h) => WebSocketEventHeaderView::from_json(h),
        None => None,
    }
}

/// The required member `payload`, read as a payload.
pub open spec fn payload_member(j: JsonValue) -> Option<WebSocketEventPayloadView> {
    match j.field("payload"@) {
        Some(p) => WebSocketEventPayloadView::from_json(p),
        None => None,
    }
}

/// The event that a JSON document holds; `raw` is the text it was parsed
/// from. The discriminant decides the kind; the document must then have the
/// shape of that kind: a header for all, and a payload for `result-generated`
/// and `task-finished`.
pub open spec fn decode_json(j: JsonValue, raw: Seq<char>) -> Result<
    WebSocketEventView,
    DashScopeErrorView,
> {
    match event_kind(j) {
        None => Err(unknown_kind("unknown"@)),
        Some(name) => match EventType::named(name) {
            None => Err(unknown_kind(name)),
            Some(kind) => {
                let header = header_member(j);
                let payload = payload_member(j);
                let with_payload = kind == EventType::ResultGenerated || kind
                    == EventType::TaskFinished;
                if header is None || (with_payload && payload is None) {
                    Err(undecodable(mismatch_text(), raw))
                } else {
                    Ok(WebSocketEventView::assemble(kind, header->0, payload))
                }
            },
        },
    }
}

/// The event that a text frame holds: the text is parsed, and the document
/// decoded. A text that is no JSON document is reported with the parser's
/// message.
pub open spec fn decode_text(text: Seq<char>) -> Result<WebSocketEventView, DashScopeErrorView> {
    match parsed(text) {
        Err(message) => Err(undecodable(message, text)),
        Ok(j) => decode_json(j, text),
    }
}

/// Decoding follows the discriminant. An event that is decoded has the kind
/// that `header.event` names, and carries that name in its header; a frame
/// with a known name and the shape of that kind is decoded; and where
/// `header.event` is missing, is no text, or is not one of the four names,
/// the outcome is the error for an unknown kind and never an event.
pub proof fn lemma_decode_follows_discriminant(j: JsonValue, raw: Seq<char>)
    ensures
        decode_json(j, raw) matches Ok(e) ==> event_kind(j) == Some(e.kind().text())
            && e.header().event == e.kind().text(),
        forall|kind: EventType|
            event_kind(j) == Some(kind.text()) && header_member(j) is Some && (payload_member(j)
                is Some || kind == EventType::TaskStarted || kind == EventType::TaskFailed)
                ==> decode_json(j, raw) is Ok && (#[trigger] decode_json(j, raw)->Ok_0.kind())
                == kind,
        event_kind(j) is None ==> decode_json(j, raw) == Err::<
            WebSocketEventView,
            DashScopeErrorView,
        >(unknown_kind("unknown"@)),
        event_kind(j) is Some && EventType::named(event_kind(j)->0) is None ==> decode_json(j, raw)
            == Err::<WebSocketEventView, DashScopeErrorView>(unknown_kind(event_kind(j)->0)),
{
    assert forall|kind: EventType| EventType::named(#[trigger] kind.text()) == Some(kind) by {
        lemma_event_type_names(kind);
    }
    if event_kind(j) is Some && EventType::named(event_kind(j)->0) is Some {
        let kind = EventType::named(event_kind(j)->0)->0;
        assert(kind.text() == event_kind(j)->0);
        assert(header_member(j) is Some ==> header_member(j)->0.event == event_kind(j)->0);
    }
}

/// Whether `r` is the outcome `expected`: the same event, well formed, or
/// the same error.
pub open spec fn decoded_as(
    r: Result<WebSocketEvent, DashScopeError>,
    expected: Result<WebSocketEventView, DashScopeErrorView>,
) -> bool {
    match r {
        Ok(e) => expected == Ok::<WebSocketEventView, DashScopeErrorView>(e@) && e@.wf(),
        Err(err) => expected == Err::<WebSocketEventView, DashScopeErrorView>(err@),
    }
}

/// The error for a frame that does not have the shape of its kind.
fn mismatch(raw: &str) -> (r: DashScopeError)
    ensures
        r@ == undecodable(mismatch_text(), raw@),
{
    DashScopeError::JSONDeserialize {
        source: "frame does not match the shape of its event kind".to_owned(),
        raw_response: raw.to_owned(),
    }
}

impl WebSocketEvent {
    /// The kind of this event.
    pub fn event_type(&self) -> (r: EventType)
        ensures
            r == self@.kind(),
    {
        match self {
            WebSocketEvent::TaskStarted { .. } => EventType::TaskStarted,
            WebSocketEvent::ResultGenerated { .. } => EventType::ResultGenerated,
            WebSocketEvent::TaskFinished { .. } => EventType::TaskFinished,
            WebSocketEvent::TaskFailed { .. } => EventType::TaskFailed,
        }
    }

    /// Whether this is a `task-started` event.
    pub fn is_task_started(&self) -> (r: bool)
        ensures
            r == (self@.kind() == EventType::TaskStarted),
    {
        matches!(self, WebSocketEvent::TaskStarted { .. })
    }

    /// Whether this is a `result-generated` event.
    pub fn is_result_generated(&self) -> (r: bool)
        ensures
            r == (self@.kind() == EventType::ResultGenerated),
    {
        matches!(self, WebSocketEvent::ResultGenerated { .. })
    }

    /// Whether this is a `task-finished` event.
    pub fn is_task_finished(&self) -> (r: bool)
        ensures
            r == (self@.kind() == EventType::TaskFinished),
    {
        matches!(self, WebSocketEvent::TaskFinished { .. })
    }

    /// Whether this is a `task-failed` event.
    pub fn is_task_failed(&self) -> (r: bool)
        ensures
            r == (self@.kind() == EventType::TaskFailed),
    {
        matches!(self, WebSocketEvent::TaskFailed { .. })
    }

    /// The header of this event.
    pub fn header(&self) -> (r: &WebSocketEventHeader)
        ensures
            r@ == self@.header(),
    {
        match self {
            WebSocketEvent::TaskStarted { header } => header,
            WebSocketEvent::ResultGenerated { header, .. } => header,
            WebSocketEvent::TaskFinished { header, .. } => header,
            WebSocketEvent::TaskFailed { header } => header,
        }
    }

    /// The id of the task that this event belongs to.
    pub fn task_id(&self) -> (r: &str)
        ensures
            r@ == self@.header().task_id,
    {
        self.header().task_id.as_str()
    }

    /// The usage that this event reports: that of its payload, for the two
    /// kinds that have one.
    pub fn get_usage(&self) -> (r: Option<&AsrUsage>)
        ensures
            match r {
                Some(u) => self@.payload() is Some && self@.payload()->0.usage == Some(u@),
                None => self@.payload() is None || self@.payload()->0.usage is None,
            },
    {
        match self {
            WebSocketEvent::ResultGenerated { payload, .. } => payload.usage.as_ref(),
            WebSocketEvent::TaskFinished { payload, .. } => payload.usage.as_ref(),
            _ => None,
        }
    }

    /// The error code and message of a `task-failed` event that has both.
    pub fn get_error_info(&self) -> (r: Option<(&str, &str)>)
        ensures
            match r {
                Some((code, message)) => self@.kind() == EventType::TaskFailed
                    && self@.header().error_code == Some(code@) && self@.header().error_message
                    == Some(message@),
                None => self@.kind() != EventType::TaskFailed || self@.header().error_code is None
                    || self@.header().error_message is None,
            },
    {
        match self {
            WebSocketEvent::TaskFailed { header } => match (
                &header.error_code,
                &header.error_message,
            ) {
                (Some(code), Some(message)) => Some((code.as_str(), message.as_str())),
                _ => None,
            },
            _ => None,
        }
    }

    /// Reads an event from a parsed frame; `raw` is the text of the frame,
    /// kept in the error where the frame has the wrong shape.
    pub fn from_value(v: &serde_json::Value, raw: &str) -> (r: Result<
        WebSocketEvent,
        DashScopeError,
    >)
        ensures
            decoded_as(r, decode_json(value_model(*v), raw@)),
    {
        let header_value = match value_get(v, "header") {
            Some(h) => h,
            None => return Err(
                DashScopeError::UnknownEventType { event_type: "unknown".to_owned() },
            ),
        };
        let name = match value_get(header_value, "event") {
            Some(e) => match value_as_str(e) {
                Some(s) => s,
                None => return Err(
                    DashScopeError::UnknownEventType { event_type: "unknown".to_owned() },
                ),
            },
            None => return Err(
                DashScopeError::UnknownEventType { event_type: "unknown".to_owned() },
            ),
        };
        let kind = match EventType::from_str(name) {
            Ok(k) => k,
            Err(_) => return Err(DashScopeError::UnknownEventType { event_type: name.to_owned() }),
        };
        let header = match WebSocketEventHeader::from_value(header_value) {
            Some(h) => h,
            None => return Err(mismatch(raw)),
        };
        proof {
            lemma_event_type_names(kind);
            assert(header@.event == name@);
        }
        match kind {
            EventType::TaskStarted => Ok(WebSocketEvent::TaskStarted { header }),
            EventType::TaskFailed => Ok(WebSocketEvent::TaskFailed { header }),
            _ => {
                let payload = match value_get(v, "payload") {
                    Some(p) => match WebSocketEventPayload::from_value(p) {
                        Some(x) => x,
                        None => return Err(mismatch(raw)),
                    },
                    None => return Err(mismatch(raw)),
                };
                match kind {
                    EventType::ResultGenerated => Ok(
                        WebSocketEvent::ResultGenerated { header, payload },
                    ),
                    _ => Ok(WebSocketEvent::TaskFinished { header, payload }),
                }
            },
        }
    }

    /// Decodes one text frame: parses it, reads the discriminant at
    /// `header.event`, and reads the frame in the shape of that kind.
    pub fn decode(text: &str) -> (r: Result<WebSocketEvent, DashScopeError>)
        ensures
            decoded_as(r, decode_text(text@)),
    {
        match parse_value(text) {
            Ok(v) => WebSocketEvent::from_value(&v, text),
            Err(e) => Err(
                DashScopeError::JSONDeserialize {
                    source: error_text(&e),
                    raw_response: text.to_owned(),
                },
            ),
        }
    }

    /// Decodes one text frame, taking the text by value.
    pub fn try_from(value: String) -> (r: Result<WebSocketEvent, DashScopeError>)
        ensures
            decoded_as(r, decode_text(value@)),
    {
        WebSocketEvent::decode(value.as_str())
    }

    /// Writes this event as a wire value.
    pub fn to_value(&self) -> (r: serde_json::Value)
        ensures
            value_model(r) == self@.to_json(),
    {
        let mut obj = value_object();
        proof {
            reveal(JsonValue::with_opt);
        }
        value_set(&mut obj, "header", self.header().to_value());
        match self {
            WebSocketEvent::ResultGenerated { payload, .. } => {
                value_set(&mut obj, "payload", payload.to_value());
            },
            WebSocketEvent::TaskFinished { payload, .. } => {
                value_set(&mut obj, "payload", payload.to_value());
            },
            _ => {},
        }
        obj
    }

    /// Writes this event as the text of a frame: the rendering of its wire
    /// value. Writing never fails.
    pub fn encode(&self) -> (r: Result<String, DashScopeError>)
        ensures
            r is Ok,
            r matches Ok(s) ==> s@ == rendered(self@.to_json()),
    {
        match render_value(&self.to_value()) {
            Ok(s) => Ok(s),
            Err(e) => Err(not_written(&e)),
        }
    }
}

} // verus!
