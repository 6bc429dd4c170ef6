//! Vocabularies of hot words for speech recognition: the requests that
//! manage them and the answers of the service.

use crate::body::{not_json, not_written, unreadable, wrong_shape};
use crate::error::DashScopeError;
use crate::json::{
    JsonValue, models, parse_value, parsed, render_value, rendered, value_array, value_as_array,
    value_get, value_is_object, value_model, value_object,
};
use crate::wire::{
    int_json, optional_model, put, put_int, put_opt, put_text, put_uint, read_member, read_opt_text,
    read_req_i32, read_req_text, text_json, text_value, text_view,
};
use vstd::prelude::*;

verus! {

/// One hot word of a vocabulary.
#[derive(Debug, Clone, PartialEq, Eq)]
pub struct VocabularyDetail {
    /// The word.
    pub text: String,
    /// How much the word counts.
    pub weight: i32,
    /// The language of the word.
    pub lang: Option<String>,
    pub target_lang: Option<String>,
    pub translation: Option<String>,
}

/// The content of a [`VocabularyDetail`].
pub struct VocabularyDetailView {
    pub text: Seq<char>,
    pub weight: i32,
    pub lang: Option<Seq<char>>,
    pub target_lang: Option<Seq<char>>,
    pub translation: Option<Seq<char>>,
}

impl View for VocabularyDetail {
    type V = VocabularyDetailView;

    open spec fn view(&self) -> VocabularyDetailView {
        VocabularyDetailView {
            text: self.text@,
            weight: self.weight,
            lang: text_view(self.lang),
            target_lang: text_view(self.target_lang),
            translation: text_view(self.translation),
        }
    }
}

impl VocabularyDetailView {
    /// The hot word that a wire value holds, if it has the shape of one.
    pub open spec fn from_json(j: JsonValue) -> Option<VocabularyDetailView> {
        let text = j.req_text("text"@);
        let weight = j.req_i32("weight"@);
        let lang = j.opt_text("lang"@);
        let target_lang = j.opt_text("target_lang"@);
        let translation = j.opt_text("translation"@);
        if j is Object
            && text is Some
            && weight is Some
            && lang is Some
            && target_lang is Some
            && translation is Some {
            Some(
                VocabularyDetailView {
                    text: text->0,
                    weight: weight->0,
                    lang: lang->0,
                    target_lang: target_lang->0,
                    translation: translation->0,
                },
            )
        } else {
            None
        }
    }

    /// The wire value of this hot word.
    pub open spec fn to_json(self) -> JsonValue {
        JsonValue::empty_object().with("text"@, JsonValue::Text(self.text)).with("weight"@, int_json(self.weight as int)).with_opt("lang"@, text_json(self.lang)).with_opt("target_lang"@, text_json(self.target_lang)).with_opt("translation"@, text_json(self.translation))
    }

    /// The run that a wire array holds, if every item has the shape of a hot word.
    pub open spec fn seq_from_json(j: JsonValue) -> Option<Seq<VocabularyDetailView>> {
        match j {
            JsonValue::Array(items) => if forall|i: int|
                0 <= i < items.len() ==> (#[trigger] VocabularyDetailView::from_json(items[i])) is Some {
                Some(Seq::new(items.len(), |i: int| VocabularyDetailView::from_json(items[i])->0))
            } else {
                None
            },
            _ => None,
        }
    }

    /// The required member `key`, read as a run.
    pub open spec fn required_seq(j: JsonValue, key: Seq<char>) -> Option<Seq<VocabularyDetailView>> {
        match j.field(key) {
            Some(c) => VocabularyDetailView::seq_from_json(c),
            None => None,
        }
    }

    /// The optional member `key`, read as a run; the outer `None` is a mismatch.
    pub open spec fn optional_seq(j: JsonValue, key: Seq<char>) -> Option<Option<Seq<VocabularyDetailView>>> {
        match j.member(key) {
            None => Some(None),
            Some(c) => match VocabularyDetailView::seq_from_json(c) {
                Some(x) => Some(Some(x)),
                None => None,
            },
        }
    }

    /// The wire array of a run.
    pub open spec fn seq_to_json(ts: Seq<VocabularyDetailView>) -> JsonValue {
        JsonValue::Array(Seq::new(ts.len(), |i: int| ts[i].to_json()))
    }

    /// The wire value of an optional run.
    pub open spec fn optional_seq_json(o: Option<Seq<VocabularyDetailView>>) -> Option<JsonValue> {
        match o {
            Some(ts) => Some(VocabularyDetailView::seq_to_json(ts)),
            None => None,
        }
    }
}

impl VocabularyDetail {
    /// The contents of a run of these.
    pub open spec fn seq_view(ts: Seq<VocabularyDetail>) -> Seq<VocabularyDetailView> {
        Seq::new(ts.len(), |i: int| ts[i]@)
    }

    /// Reads a hot word out of a wire value.
    pub fn from_value(v: &serde_json::Value) -> (r: Option<VocabularyDetail>)
        ensures
            match r {
                Some(t) => VocabularyDetailView::from_json(value_model(*v)) == Some(t@),
                None => VocabularyDetailView::from_json(value_model(*v)) is None,
            },
    {
        if !value_is_object(v) {
            return None;
        }
        let text = match read_req_text(v, "text") {
            Some(x) => x,
            None => return None,
        };
        let weight = match read_req_i32(v, "weight") {
            Some(x) => x,
            None => return None,
        };
        let lang = match read_opt_text(v, "lang") {
            Ok(x) => x,
            Err(_) => return None,
        };
        let target_lang = match read_opt_text(v, "target_lang") {
            Ok(x) => x,
            Err(_) => return None,
        };
        let translation = match read_opt_text(v, "translation") {
            Ok(x) => x,
            Err(_) => return None,
        };
        Some(VocabularyDetail { text, weight, lang, target_lang, translation })
    }

    /// Writes this hot word as a wire value.
    pub fn to_value(&self) -> (r: serde_json::Value)
        ensures
            value_model(r) == self@.to_json(),
    {
        let mut obj = value_object();
        put_text(&mut obj, "text", self.text.as_str());
        put_int(&mut obj, "weight", self.weight as i64);
        put_opt(&mut obj, "lang", text_value(&self.lang));
        put_opt(&mut obj, "target_lang", text_value(&self.target_lang));
        put_opt(&mut obj, "translation", text_value(&self.translation));
        obj
    }

    /// Reads a run out of a wire array.
    pub fn read_seq(v: &serde_json::Value) -> (r: Option<Vec<VocabularyDetail>>)
        ensures
            match r {
                Some(ts) => VocabularyDetailView::seq_from_json(value_model(*v)) == Some(VocabularyDetail::seq_view(ts@)),
                None => VocabularyDetailView::seq_from_json(value_model(*v)) is None,
            },
    {
        let items = match value_as_array(v) {
            Some(a) => a,
            None => return None,
        };
        let ghost docs = models(items@);
        let mut out: Vec<VocabularyDetail> = Vec::new();
        let mut i: usize = 0;
        while i < items.len()
            invariant
                i <= items.len(),
                out@.len() == i,
                docs == models(items@),
                value_model(*v) == JsonValue::Array(docs),
                forall|k: int|
                    0 <= k < i ==> VocabularyDetailView::from_json(docs[k]) == Some(#[trigger] out@[k]@),
            decreases items.len() - i,
        {
            match VocabularyDetail::from_value(&items[i]) {
                Some(t) => {
                    out.push(t);
                },
                None => {
                    proof {
                        assert(VocabularyDetailView::from_json(docs[i as int]) is None);
                    }
                    return None;
                },
            }
            i += 1;
        }
        proof {
            assert forall|k: int| 0 <= k < docs.len() implies (#[trigger] VocabularyDetailView::from_json(
                docs[k],
            )) == Some(out@[k]@) by {
                let _ = out@[k]@;
            }
            assert(VocabularyDetailView::seq_from_json(value_model(*v))->0 =~= VocabularyDetail::seq_view(out@));
        }
        Some(out)
    }

    /// Reads the required member `key` as a run.
    pub fn read_required_seq(v: &serde_json::Value, key: &str) -> (r: Option<Vec<VocabularyDetail>>)
        ensures
            match r {
                Some(ts) => VocabularyDetailView::required_seq(value_model(*v), key@) == Some(
                    VocabularyDetail::seq_view(ts@),
                ),
                None => VocabularyDetailView::required_seq(value_model(*v), key@) is None,
            },
    {
        match value_get(v, key) {
            Some(c) => VocabularyDetail::read_seq(c),
            None => None,
        }
    }

    /// Reads the optional member `key` as a run; `Err` is a mismatch.
    pub fn read_optional_seq(v: &serde_json::Value, key: &str) -> (r: Result<
        Option<Vec<VocabularyDetail>>,
        (),
    >)
        ensures
            match r {
                Ok(o) => VocabularyDetailView::optional_seq(value_model(*v), key@) == Some(
                    match o {
                        Some(ts) => Some(VocabularyDetail::seq_view(ts@)),
                        None => None,
                    },
                ),
                Err(_) => VocabularyDetailView::optional_seq(value_model(*v), key@) is None,
            },
    {
        match read_member(v, key) {
            None => Ok(None),
            Some(c) => match VocabularyDetail::read_seq(c) {
                Some(ts) => Ok(Some(ts)),
                None => Err(()),
            },
        }
    }

    /// Writes a run as a wire array.
    pub fn write_seq(ts: &Vec<VocabularyDetail>) -> (r: serde_json::Value)
        ensures
            value_model(r) == VocabularyDetailView::seq_to_json(VocabularyDetail::seq_view(ts@)),
    {
        let mut items: Vec<serde_json::Value> = Vec::new();
        let mut i: usize = 0;
        while i < ts.len()
            invariant
                i <= ts.len(),
                items@.len() == i,
                forall|k: int|
                    0 <= k < i ==> value_model(#[trigger] items@[k]) == ts@[k]@.to_json(),
            decreases ts.len() - i,
        {
            items.push(ts[i].to_value());
            i += 1;
        }
        proof {
            assert(models(items@) =~= Seq::new(
                ts@.len(),
                |i: int| VocabularyDetail::seq_view(ts@)[i].to_json(),
            ));
        }
        value_array(items)
    }

    /// An optional run as an optional wire value.
    pub fn optional_seq_value(o: &Option<Vec<VocabularyDetail>>) -> (r: Option<serde_json::Value>)
        ensures
            optional_model(r) == VocabularyDetailView::optional_seq_json(
                match o {
                    Some(ts) => Some(VocabularyDetail::seq_view(ts@)),
                    None => None,
                },
            ),
    {
        match o {
            Some(ts) => Some(VocabularyDetail::write_seq(ts)),
            None => None,
        }
    }
}

/// What a request to create a vocabulary asks for.
#[derive(Debug, Clone, PartialEq, Eq)]
pub struct VocabularyInput {
    pub action: String,
    pub target_model: String,
    pub prefix: String,
    pub vocabulary: Vec<VocabularyDetail>,
}

/// The content of a [`VocabularyInput`].
pub struct VocabularyInputView {
    pub action: Seq<char>,
    pub target_model: Seq<char>,
    pub prefix: Seq<char>,
    pub vocabulary: Seq<VocabularyDetailView>,
}

impl View for VocabularyInput {
    type V = VocabularyInputView;

    open spec fn view(&self) -> VocabularyInputView {
        VocabularyInputView {
            action: self.action@,
            target_model: self.target_model@,
            prefix: self.prefix@,
            vocabulary: VocabularyDetail::seq_view(self.vocabulary@),
        }
    }
}

impl VocabularyInputView {
    /// The wire value of this input.
    pub open spec fn to_json(self) -> JsonValue {
        JsonValue::empty_object().with("action"@, JsonValue::Text(self.action)).with("target_model"@, JsonValue::Text(self.target_model)).with("prefix"@, JsonValue::Text(self.prefix)).with("vocabulary"@, VocabularyDetailView::seq_to_json(self.vocabulary))
    }

    /// The wire value of an optional input.
    pub open spec fn optional_json(o: Option<VocabularyInputView>) -> Option<JsonValue> {
        match o {
            Some(x) => Some(x.to_json()),
            None => None,
        }
    }
}

impl VocabularyInput {
    /// Writes this input as a wire value.
    pub fn to_value(&self) -> (r: serde_json::Value)
        ensures
            value_model(r) == self@.to_json(),
    {
        let mut obj = value_object();
        put_text(&mut obj, "action", self.action.as_str());
        put_text(&mut obj, "target_model", self.target_model.as_str());
        put_text(&mut obj, "prefix", self.prefix.as_str());
        put(&mut obj, "vocabulary", VocabularyDetail::write_seq(&self.vocabulary));
        obj
    }

    /// An optional input as an optional wire value.
    pub fn optional_value(o: &Option<VocabularyInput>) -> (r: Option<serde_json::Value>)
        ensures
            optional_model(r) == VocabularyInputView::optional_json(
                match o {
                    Some(t) => Some(t@),
                    None => None,
                },
            ),
    {
        match o {
            Some(t) => Some(t.to_value()),
            None => None,
        }
    }
}

/// A request to create a vocabulary.
#[derive(Debug, Clone, PartialEq, Eq)]
pub struct VocabularyParam {
    pub model: String,
    pub input: VocabularyInput,
}

/// The content of a [`VocabularyParam`].
pub struct VocabularyParamView {
    pub model: Seq<char>,
    pub input: VocabularyInputView,
}

impl View for VocabularyParam {
    type V = VocabularyParamView;

    open spec fn view(&self) -> VocabularyParamView {
        VocabularyParamView {
            model: self.model@,
            input: self.input@,
        }
    }
}

impl VocabularyParamView {
    /// The wire value of this request.
    pub open spec fn to_json(self) -> JsonValue {
        JsonValue::empty_object().with("model"@, JsonValue::Text(self.model)).with("input"@, self.input.to_json())
    }
}

impl VocabularyParam {
    /// Writes this request as a wire value.
    pub fn to_value(&self) -> (r: serde_json::Value)
        ensures
            value_model(r) == self@.to_json(),
    {
        let mut obj = value_object();
        put_text(&mut obj, "model", self.model.as_str());
        put(&mut obj, "input", self.input.to_value());
        obj
    }

    /// Writes this request as the text of a body: the rendering of its wire
    /// value. Writing never fails.
    pub fn encode(&self) -> (r: Result<String, DashScopeError>)
        ensures
            r is Ok,
            r matches Ok(s) ==> s@ == rendered(self@.to_json()),
    {
        match render_value(&self.to_value()) {
            Ok(s) => Ok(s),
            Err(e) => Err(not_written(&e)),
        }
    }
}

/// A vocabulary as the service lists it.
#[derive(Debug, Clone, PartialEq, Eq)]
pub struct VocabularyItem {
    pub gmt_create: String,
    pub gmt_modified: String,
    pub status: String,
    pub vocabulary_id: String,
}

/// The content of a [`VocabularyItem`].
pub struct VocabularyItemView {
    pub gmt_create: Seq<char>,
    pub gmt_modified: Seq<char>,
    pub status: Seq<char>,
    pub vocabulary_id: Seq<char>,
}

impl View for VocabularyItem {
    type V = VocabularyItemView;

    open spec fn view(&self) -> VocabularyItemView {
        VocabularyItemView {
            gmt_create: self.gmt_create@,
            gmt_modified: self.gmt_modified@,
            status: self.status@,
            vocabulary_id: self.vocabulary_id@,
        }
    }
}

impl VocabularyItemView {
    /// The vocabulary that a wire value holds, if it has the shape of one.
    pub open spec fn from_json(j: JsonValue) -> Option<VocabularyItemView> {
        let gmt_create = j.req_text("gmt_create"@);
        let gmt_modified = j.req_text("gmt_modified"@);
        let status = j.req_text("status"@);
        let vocabulary_id = j.req_text("vocabulary_id"@);
        if j is Object
            && gmt_create is Some
            && gmt_modified is Some
            && status is Some
            && vocabulary_id is Some {
            Some(
                VocabularyItemView {
                    gmt_create: gmt_create->0,
                    gmt_modified: gmt_modified->0,
                    status: status->0,
                    vocabulary_id: vocabulary_id->0,
                },
            )
        } else {
            None
        }
    }

    /// The run that a wire array holds, if every item has the shape of a vocabulary.
    pub open spec fn seq_from_json(j: JsonValue) -> Option<Seq<VocabularyItemView>> {
        match j {
            JsonValue::Array(items) => if forall|i: int|
                0 <= i < items.len() ==> (#[trigger] VocabularyItemView::from_json(items[i])) is Some {
                Some(Seq::new(items.len(), |i: int| VocabularyItemView::from_json(items[i])->0))
            } else {
                None
            },
            _ => None,
        }
    }

    /// The required member `key`, read as a run.
    pub open spec fn required_seq(j: JsonValue, key: Seq<char>) -> Option<Seq<VocabularyItemView>> {
        match j.field(key) {
            Some(c) => VocabularyItemView::seq_from_json(c),
            None => None,
        }
    }

    /// The optional member `key`, read as a run; the outer `None` is a mismatch.
    pub open spec fn optional_seq(j: JsonValue, key: Seq<char>) -> Option<Option<Seq<VocabularyItemView>>> {
        match j.member(key) {
            None => Some(None),
            Some(c) => match VocabularyItemView::seq_from_json(c) {
                Some(x) => Some(Some(x)),
                None => None,
            },
        }
    }
}

impl VocabularyItem {
    /// The contents of a run of these.
    pub open spec fn seq_view(ts: Seq<VocabularyItem>) -> Seq<VocabularyItemView> {
        Seq::new(ts.len(), |i: int| ts[i]@)
    }

    /// Reads a vocabulary out of a wire value.
    pub fn from_value(v: &serde_json::Value) -> (r: Option<VocabularyItem>)
        ensures
            match r {
                Some(t) => VocabularyItemView::from_json(value_model(*v)) == Some(t@),
                None => VocabularyItemView::from_json(value_model(*v)) is None,
            },
    {
        if !value_is_object(v) {
            return None;
        }
        let gmt_create = match read_req_text(v, "gmt_create") {
            Some(x) => x,
            None => return None,
        };
        let gmt_modified = match read_req_text(v, "gmt_modified") {
            Some(x) => x,
            None => return None,
        };
        let status = match read_req_text(v, "status") {
            Some(x) => x,
            None => return None,
        };
        let vocabulary_id = match read_req_text(v, "vocabulary_id") {
            Some(x) => x,
            None => return None,
        };
        Some(VocabularyItem { gmt_create, gmt_modified, status, vocabulary_id })
    }

    /// Reads a run out of a wire array.
    pub fn read_seq(v: &serde_json::Value) -> (r: Option<Vec<VocabularyItem>>)
        ensures
            match r {
                Some(ts) => VocabularyItemView::seq_from_json(value_model(*v)) == Some(VocabularyItem::seq_view(ts@)),
                None => VocabularyItemView::seq_from_json(value_model(*v)) is None,
            },
    {
        let items = match value_as_array(v) {
            Some(a) => a,
            None => return None,
        };
        let ghost docs = models(items@);
        let mut out: Vec<VocabularyItem> = Vec::new();
        let mut i: usize = 0;
        while i < items.len()
            invariant
                i <= items.len(),
                out@.len() == i,
                docs == models(items@),
                value_model(*v) == JsonValue::Array(docs),
                forall|k: int|
                    0 <= k < i ==> VocabularyItemView::from_json(docs[k]) == Some(#[trigger] out@[k]@),
            decreases items.len() - i,
        {
            match VocabularyItem::from_value(&items[i]) {
                Some(t) => {
                    out.push(t);
                },
                None => {
                    proof {
                        assert(VocabularyItemView::from_json(docs[i as int]) is None);
                    }
                    return None;
                },
            }
            i += 1;
        }
        proof {
            assert forall|k: int| 0 <= k < docs.len() implies (#[trigger] VocabularyItemView::from_json(
                docs[k],
            )) == Some(out@[k]@) by {
                let _ = out@[k]@;
            }
            assert(VocabularyItemView::seq_from_json(value_model(*v))->0 =~= VocabularyItem::seq_view(out@));
        }
        Some(out)
    }

    /// Reads the required member `key` as a run.
    pub fn read_required_seq(v: &serde_json::Value, key: &str) -> (r: Option<Vec<VocabularyItem>>)
        ensures
            match r {
                Some(ts) => VocabularyItemView::required_seq(value_model(*v), key@) == Some(
                    VocabularyItem::seq_view(ts@),
                ),
                None => VocabularyItemView::required_seq(value_model(*v), key@) is None,
            },
    {
        match value_get(v, key) {
            Some(c) => VocabularyItem::read_seq(c),
            None => None,
        }
    }

    /// Reads the optional member `key` as a run; `Err` is a mismatch.
    pub fn read_optional_seq(v: &serde_json::Value, key: &str) -> (r: Result<
        Option<Vec<VocabularyItem>>,
        (),
    >)
        ensures
            match r {
                Ok(o) => VocabularyItemView::optional_seq(value_model(*v), key@) == Some(
                    match o {
                        Some(ts) => Some(VocabularyItem::seq_view(ts@)),
                        None => None,
                    },
                ),
                Err(_) => VocabularyItemView::optional_seq(value_model(*v), key@) is None,
            },
    {
        match read_member(v, key) {
            None => Ok(None),
            Some(c) => match VocabularyItem::read_seq(c) {
                Some(ts) => Ok(Some(ts)),
                None => Err(()),
            },
        }
    }
}

/// A list of vocabularies.
#[derive(Debug, Clone, PartialEq, Eq)]
pub struct Output {
    pub vocabulary_list: Vec<VocabularyItem>,
}

/// The content of an [`Output`].
pub struct OutputView {
    pub vocabulary_list: Seq<VocabularyItemView>,
}

impl View for Output {
    type V = OutputView;

    open spec fn view(&self) -> OutputView {
        OutputView {
            vocabulary_list: VocabularyItem::seq_view(self.vocabulary_list@),
        }
    }
}

impl OutputView {
    /// The list that a wire value holds, if it has the shape of one.
    pub open spec fn from_json(j: JsonValue) -> Option<OutputView> {
        let vocabulary_list = VocabularyItemView::required_seq(j, "vocabulary_list"@);
        if j is Object
            && vocabulary_list is Some {
            Some(
                OutputView {
                    vocabulary_list: vocabulary_list->0,
                },
            )
        } else {
            None
        }
    }
}

impl Output {
    /// Reads a list out of a wire value.
    pub fn from_value(v: &serde_json::Value) -> (r: Option<Output>)
        ensures
            match r {
                Some(t) => OutputView::from_json(value_model(*v)) == Some(t@),
                None => OutputView::from_json(value_model(*v)) is None,
            },
    {
        if !value_is_object(v) {
            return None;
        }
        let vocabulary_list = match VocabularyItem::read_required_seq(v, "vocabulary_list") {
            Some(x) => x,
            None => return None,
        };
        Some(Output { vocabulary_list })
    }
}

/// What a vocabulary request has used.
#[derive(Debug, Clone, PartialEq, Eq)]
pub struct Usage {
    pub count: i32,
}

/// The content of a [`Usage`].
pub struct UsageView {
    pub count: i32,
}

impl View for Usage {
    type V = UsageView;

    open spec fn view(&self) -> UsageView {
        UsageView {
            count: self.count,
        }
    }
}

impl UsageView {
    /// The usage that a wire value holds, if it has the shape of one.
    pub open spec fn from_json(j: JsonValue) -> Option<UsageView> {
        let count = j.req_i32("count"@);
        if j is Object
            && count is Some {
            Some(
                UsageView {
                    count: count->0,
                },
            )
        } else {
            None
        }
    }

    /// The required member `key`, read as a usage.
    pub open spec fn required(j: JsonValue, key: Seq<char>) -> Option<UsageView> {
        match j.field(key) {
            Some(c) => UsageView::from_json(c),
            None => None,
        }
    }

    /// The optional member `key`, read as a usage; the outer `None` is a mismatch.
    pub open spec fn optional(j: JsonValue, key: Seq<char>) -> Option<Option<UsageView>> {
        match j.member(key) {
            None => Some(None),
            Some(c) => match UsageView::from_json(c) {
                Some(x) => Some(Some(x)),
                None => None,
            },
        }
    }
}

impl Usage {
    /// Reads a usage out of a wire value.
    pub fn from_value(v: &serde_json::Value) -> (r: Option<Usage>)
        ensures
            match r {
                Some(t) => UsageView::from_json(value_model(*v)) == Some(t@),
                None => UsageView::from_json(value_model(*v)) is None,
            },
    {
        if !value_is_object(v) {
            return None;
        }
        let count = match read_req_i32(v, "count") {
            Some(x) => x,
            None => return None,
        };
        Some(Usage { count })
    }

    /// Reads the required member `key` as a usage.
    pub fn read_required(v: &serde_json::Value, key: &str) -> (r: Option<Usage>)
        ensures
            match r {
                Some(t) => UsageView::required(value_model(*v), key@) == Some(t@),
                None => UsageView::required(value_model(*v), key@) is None,
            },
    {
        match value_get(v, key) {
            Some(c) => Usage::from_value(c),
            None => None,
        }
    }

    /// Reads the optional member `key` as a usage; `Err` is a mismatch.
    pub fn read_optional(v: &serde_json::Value, key: &str) -> (r: Result<Option<Usage>, ()>)
        ensures
            match r {
                Ok(o) => UsageView::optional(value_model(*v), key@) == Some(
                    match o {
                        Some(t) => Some(t@),
                        None => None,
                    },
                ),
                Err(_) => UsageView::optional(value_model(*v), key@) is None,
            },
    {
        match read_member(v, key) {
            None => Ok(None),
            Some(c) => match Usage::from_value(c) {
                Some(t) => Ok(Some(t)),
                None => Err(()),
            },
        }
    }
}

/// The id of the vocabulary that was created.
#[derive(Debug, Clone, PartialEq, Eq)]
pub struct CreateVocabularyOutput {
    pub vocabulary_id: String,
}

/// The content of a [`CreateVocabularyOutput`].
pub struct CreateVocabularyOutputView {
    pub vocabulary_id: Seq<char>,
}

impl View for CreateVocabularyOutput {
    type V = CreateVocabularyOutputView;

    open spec fn view(&self) -> CreateVocabularyOutputView {
        CreateVocabularyOutputView {
            vocabulary_id: self.vocabulary_id@,
        }
    }
}

impl CreateVocabularyOutputView {
    /// The output that a wire value holds, if it has the shape of one.
    pub open spec fn from_json(j: JsonValue) -> Option<CreateVocabularyOutputView> {
        let vocabulary_id = j.req_text("vocabulary_id"@);
        if j is Object
            && vocabulary_id is Some {
            Some(
                CreateVocabularyOutputView {
                    vocabulary_id: vocabulary_id->0,
                },
            )
        } else {
            None
        }
    }

    /// The required member `key`, read as an output.
    pub open spec fn required(j: JsonValue, key: Seq<char>) -> Option<CreateVocabularyOutputView> {
        match j.field(key) {
            Some(c) => CreateVocabularyOutputView::from_json(c),
            None => None,
        }
    }

    /// The optional member `key`, read as an output; the outer `None` is a mismatch.
    pub open spec fn optional(j: JsonValue, key: Seq<char>) -> Option<Option<CreateVocabularyOutputView>> {
        match j.member(key) {
            None => Some(None),
            Some(c) => match CreateVocabularyOutputView::from_json(c) {
                Some(x) => Some(Some(x)),
                None => None,
            },
        }
    }
}

impl CreateVocabularyOutput {
    /// Reads an output out of a wire value.
    pub fn from_value(v: &serde_json::Value) -> (r: Option<CreateVocabularyOutput>)
        ensures
            match r {
                Some(t) => CreateVocabularyOutputView::from_json(value_model(*v)) == Some(t@),
                None => CreateVocabularyOutputView::from_json(value_model(*v)) is None,
            },
    {
        if !value_is_object(v) {
            return None;
        }
        let vocabulary_id = match read_req_text(v, "vocabulary_id") {
            Some(x) => x,
            None => return None,
        };
        Some(CreateVocabularyOutput { vocabulary_id })
    }

    /// Reads the required member `key` as an output.
    pub fn read_required(v: &serde_json::Value, key: &str) -> (r: Option<CreateVocabularyOutput>)
        ensures
            match r {
                Some(t) => CreateVocabularyOutputView::required(value_model(*v), key@) == Some(t@),
                None => CreateVocabularyOutputView::required(value_model(*v), key@) is None,
            },
    {
        match value_get(v, key) {
            Some(c) => CreateVocabularyOutput::from_value(c),
            None => None,
        }
    }

    /// Reads the optional member `key` as an output; `Err` is a mismatch.
    pub fn read_optional(v: &serde_json::Value, key: &str) -> (r: Result<Option<CreateVocabularyOutput>, ()>)
        ensures
            match r {
                Ok(o) => CreateVocabularyOutputView::optional(value_model(*v), key@) == Some(
                    match o {
                        Some(t) => Some(t@),
                        None => None,
                    },
                ),
                Err(_) => CreateVocabularyOutputView::optional(value_model(*v), key@) is None,
            },
    {
        match read_member(v, key) {
            None => Ok(None),
            Some(c) => match CreateVocabularyOutput::from_value(c) {
                Some(t) => Ok(Some(t)),
                None => Err(()),
            },
        }
    }
}

/// The answer to a request to create a vocabulary.
#[derive(Debug, Clone, PartialEq, Eq)]
pub struct CreateVocabularyResponse {
    pub output: CreateVocabularyOutput,
    pub usage: Usage,
    pub request_id: String,
}

/// The content of a [`CreateVocabularyResponse`].
pub struct CreateVocabularyResponseView {
    pub output: CreateVocabularyOutputView,
    pub usage: UsageView,
    pub request_id: Seq<char>,
}

impl View for CreateVocabularyResponse {
    type V = CreateVocabularyResponseView;

    open spec fn view(&self) -> CreateVocabularyResponseView {
        CreateVocabularyResponseView {
            output: self.output@,
            usage: self.usage@,
            request_id: self.request_id@,
        }
    }
}

impl CreateVocabularyResponseView {
    /// The answer that a wire value holds, if it has the shape of one.
    pub open spec fn from_json(j: JsonValue) -> Option<CreateVocabularyResponseView> {
        let output = CreateVocabularyOutputView::required(j, "output"@);
        let usage = UsageView::required(j, "usage"@);
        let request_id = j.req_text("request_id"@);
        if j is Object
            && output is Some
            && usage is Some
            && request_id is Some {
            Some(
                CreateVocabularyResponseView {
                    output: output->0,
                    usage: usage->0,
                    request_id: request_id->0,
                },
            )
        } else {
            None
        }
    }
}

impl CreateVocabularyResponse {
    /// Reads an answer out of a wire value.
    pub fn from_value(v: &serde_json::Value) -> (r: Option<CreateVocabularyResponse>)
        ensures
            match r {
                Some(t) => CreateVocabularyResponseView::from_json(value_model(*v)) == Some(t@),
                None => CreateVocabularyResponseView::from_json(value_model(*v)) is None,
            },
    {
        if !value_is_object(v) {
            return None;
        }
        let output = match CreateVocabularyOutput::read_required(v, "output") {
            Some(x) => x,
            None => return None,
        };
        let usage = match Usage::read_required(v, "usage") {
            Some(x) => x,
            None => return None,
        };
        let request_id = match read_req_text(v, "request_id") {
            Some(x) => x,
            None => return None,
        };
        Some(CreateVocabularyResponse { output, usage, request_id })
    }

    /// Reads an answer from the text of a body. A text that is no JSON
    /// document, or a document in another shape, is a deserialization error
    /// that keeps the text.
    pub fn decode(text: &str) -> (r: Result<CreateVocabularyResponse, DashScopeError>)
        ensures
            match r {
                Ok(t) => parsed(text@) is Ok && CreateVocabularyResponseView::from_json(parsed(text@)->Ok_0) == Some(
                    t@,
                ),
                Err(e) => (parsed(text@) is Err || CreateVocabularyResponseView::from_json(parsed(text@)->Ok_0) is None)
                    && e@ == unreadable(text@),
            },
    {
        match parse_value(text) {
            Ok(v) => match CreateVocabularyResponse::from_value(&v) {
                Some(t) => Ok(t),
                None => Err(wrong_shape(text)),
            },
            Err(e) => Err(not_json(&e, text)),
        }
    }
}

/// A vocabulary with its words.
#[derive(Debug, Clone, PartialEq, Eq)]
pub struct QueryVocabularyOutput {
    pub gmt_create: String,
    pub gmt_modified: String,
    pub status: String,
    pub target_model: String,
    pub vocabulary: Vec<VocabularyDetail>,
}

/// The content of a [`QueryVocabularyOutput`].
pub struct QueryVocabularyOutputView {
    pub gmt_create: Seq<char>,
    pub gmt_modified: Seq<char>,
    pub status: Seq<char>,
    pub target_model: Seq<char>,
    pub vocabulary: Seq<VocabularyDetailView>,
}

impl View for QueryVocabularyOutput {
    type V = QueryVocabularyOutputView;

    open spec fn view(&self) -> QueryVocabularyOutputView {
        QueryVocabularyOutputView {
            gmt_create: self.gmt_create@,
            gmt_modified: self.gmt_modified@,
            status: self.status@,
            target_model: self.target_model@,
            vocabulary: VocabularyDetail::seq_view(self.vocabulary@),
        }
    }
}

impl QueryVocabularyOutputView {
    /// The output that a wire value holds, if it has the shape of one.
    pub open spec fn from_json(j: JsonValue) -> Option<QueryVocabularyOutputView> {
        let gmt_create = j.req_text("gmt_create"@);
        let gmt_modified = j.req_text("gmt_modified"@);
        let status = j.req_text("status"@);
        let target_model = j.req_text("target_model"@);
        let vocabulary = VocabularyDetailView::required_seq(j, "vocabulary"@);
        if j is Object
            && gmt_create is Some
            && gmt_modified is Some
            && status is Some
            && target_model is Some
            && vocabulary is Some {
            Some(
                QueryVocabularyOutputView {
                    gmt_create: gmt_create->0,
                    gmt_modified: gmt_modified->0,
                    status: status->0,
                    target_model: target_model->0,
                    vocabulary: vocabulary->0,
                },
            )
        } else {
            None
        }
    }

    /// The required member `key`, read as an output.
    pub open spec fn required(j: JsonValue, key: Seq<char>) -> Option<QueryVocabularyOutputView> {
        match j.field(key) {
            Some(c) => QueryVocabularyOutputView::from_json(c),
            None => None,
        }
    }

    /// The optional member `key`, read as an output; the outer `None` is a mismatch.
    pub open spec fn optional(j: JsonValue, key: Seq<char>) -> Option<Option<QueryVocabularyOutputView>> {
        match j.member(key) {
            None => Some(None),
            Some(c) => match QueryVocabularyOutputView::from_json(c) {
                Some(x) => Some(Some(x)),
                None => None,
            },
        }
    }
}

impl QueryVocabularyOutput {
    /// Reads an output out of a wire value.
    pub fn from_value(v: &serde_json::Value) -> (r: Option<QueryVocabularyOutput>)
        ensures
            match r {
                Some(t) => QueryVocabularyOutputView::from_json(value_model(*v)) == Some(t@),
                None => QueryVocabularyOutputView::from_json(value_model(*v)) is None,
            },
    {
        if !value_is_object(v) {
            return None;
        }
        let gmt_create = match read_req_text(v, "gmt_create") {
            Some(x) => x,
            None => return None,
        };
        let gmt_modified = match read_req_text(v, "gmt_modified") {
            Some(x) => x,
            None => return None,
        };
        let status = match read_req_text(v, "status") {
            Some(x) => x,
            None => return None,
        };
        let target_model = match read_req_text(v, "target_model") {
            Some(x) => x,
            None => return None,
        };
        let vocabulary = match VocabularyDetail::read_required_seq(v, "vocabulary") {
            Some(x) => x,
            None => return None,
        };
        Some(QueryVocabularyOutput { gmt_create, gmt_modified, status, target_model, vocabulary })
    }

    /// Reads the required member `key` as an output.
    pub fn read_required(v: &serde_json::Value, key: &str) -> (r: Option<QueryVocabularyOutput>)
        ensures
            match r {
                Some(t) => QueryVocabularyOutputView::required(value_model(*v), key@) == Some(t@),
                None => QueryVocabularyOutputView::required(value_model(*v), key@) is None,
            },
    {
        match value_get(v, key) {
            Some(c) => QueryVocabularyOutput::from_value(c),
            None => None,
        }
    }

    /// Reads the optional member `key` as an output; `Err` is a mismatch.
    pub fn read_optional(v: &serde_json::Value, key: &str) -> (r: Result<Option<QueryVocabularyOutput>, ()>)
        ensures
            match r {
                Ok(o) => QueryVocabularyOutputView::optional(value_model(*v), key@) == Some(
                    match o {
                        Some(t) => Some(t@),
                        None => None,
                    },
                ),
                Err(_) => QueryVocabularyOutputView::optional(value_model(*v), key@) is None,
            },
    {
        match read_member(v, key) {
            None => Ok(None),
            Some(c) => match QueryVocabularyOutput::from_value(c) {
                Some(t) => Ok(Some(t)),
                None => Err(()),
            },
        }
    }
}

/// The answer to a query for a vocabulary.
#[derive(Debug, Clone, PartialEq, Eq)]
pub struct QueryVocabularyResponse {
    pub output: QueryVocabularyOutput,
    pub usage: Usage,
    pub request_id: String,
}

/// The content of a [`QueryVocabularyResponse`].
pub struct QueryVocabularyResponseView {
    pub output: QueryVocabularyOutputView,
    pub usage: UsageView,
    pub request_id: Seq<char>,
}

impl View for QueryVocabularyResponse {
    type V = QueryVocabularyResponseView;

    open spec fn view(&self) -> QueryVocabularyResponseView {
        QueryVocabularyResponseView {
            output: self.output@,
            usage: self.usage@,
            request_id: self.request_id@,
        }
    }
}

impl QueryVocabularyResponseView {
    /// The answer that a wire value holds, if it has the shape of one.
    pub open spec fn from_json(j: JsonValue) -> Option<QueryVocabularyResponseView> {
        let output = QueryVocabularyOutputView::required(j, "output"@);
        let usage = UsageView::required(j, "usage"@);
        let request_id = j.req_text("request_id"@);
        if j is Object
            && output is Some
            && usage is Some
            && request_id is Some {
            Some(
                QueryVocabularyResponseView {
                    output: output->0,
                    usage: usage->0,
                    request_id: request_id->0,
                },
            )
        } else {
            None
        }
    }
}

impl QueryVocabularyResponse {
    /// Reads an answer out of a wire value.
    pub fn from_value(v: &serde_json::Value) -> (r: Option<QueryVocabularyResponse>)
        ensures
            match r {
                Some(t) => QueryVocabularyResponseView::from_json(value_model(*v)) == Some(t@),
                None => QueryVocabularyResponseView::from_json(value_model(*v)) is None,
            },
    {
        if !value_is_object(v) {
            return None;
        }
        let output = match QueryVocabularyOutput::read_required(v, "output") {
            Some(x) => x,
            None => return None,
        };
        let usage = match Usage::read_required(v, "usage") {
            Some(x) => x,
            None => return None,
        };
        let request_id = match read_req_text(v, "request_id") {
            Some(x) => x,
            None => return None,
        };
        Some(QueryVocabularyResponse { output, usage, request_id })
    }

    /// Reads an answer from the text of a body. A text that is no JSON
    /// document, or a document in another shape, is a deserialization error
    /// that keeps the text.
    pub fn decode(text: &str) -> (r: Result<QueryVocabularyResponse, DashScopeError>)
        ensures
            match r {
                Ok(t) => parsed(text@) is Ok && QueryVocabularyResponseView::from_json(parsed(text@)->Ok_0) == Some(
                    t@,
                ),
                Err(e) => (parsed(text@) is Err || QueryVocabularyResponseView::from_json(parsed(text@)->Ok_0) is None)
                    && e@ == unreadable(text@),
            },
    {
        match parse_value(text) {
            Ok(v) => match QueryVocabularyResponse::from_value(&v) {
                Some(t) => Ok(t),
                None => Err(wrong_shape(text)),
            },
            Err(e) => Err(not_json(&e, text)),
        }
    }
}

/// The vocabularies of one page.
#[derive(Debug, Clone, PartialEq, Eq)]
pub struct ListVocabulariesOutput {
    pub vocabulary_list: Vec<VocabularyItem>,
}

/// The content of a [`ListVocabulariesOutput`].
pub struct ListVocabulariesOutputView {
    pub vocabulary_list: Seq<VocabularyItemView>,
}

impl View for ListVocabulariesOutput {
    type V = ListVocabulariesOutputView;

    open spec fn view(&self) -> ListVocabulariesOutputView {
        ListVocabulariesOutputView {
            vocabulary_list: VocabularyItem::seq_view(self.vocabulary_list@),
        }
    }
}

impl ListVocabulariesOutputView {
    /// The output that a wire value holds, if it has the shape of one.
    pub open spec fn from_json(j: JsonValue) -> Option<ListVocabulariesOutputView> {
        let vocabulary_list = VocabularyItemView::required_seq(j, "vocabulary_list"@);
        if j is Object
            && vocabulary_list is Some {
            Some(
                ListVocabulariesOutputView {
                    vocabulary_list: vocabulary_list->0,
                },
            )
        } else {
            None
        }
    }

    /// The required member `key`, read as an output.
    pub open spec fn required(j: JsonValue, key: Seq<char>) -> Option<ListVocabulariesOutputView> {
        match j.field(key) {
            Some(c) => ListVocabulariesOutputView::from_json(c),
            None => None,
        }
    }

    /// The optional member `key`, read as an output; the outer `None` is a mismatch.
    pub open spec fn optional(j: JsonValue, key: Seq<char>) -> Option<Option<ListVocabulariesOutputView>> {
        match j.member(key) {
            None => Some(None),
            Some(c) => match ListVocabulariesOutputView::from_json(c) {
                Some(x) => Some(Some(x)),
                None => None,
            },
        }
    }
}

impl ListVocabulariesOutput {
    /// Reads an output out of a wire value.
    pub fn from_value(v: &serde_json::Value) -> (r: Option<ListVocabulariesOutput>)
        ensures
            match r {
                Some(t) => ListVocabulariesOutputView::from_json(value_model(*v)) == Some(t@),
                None => ListVocabulariesOutputView::from_json(value_model(*v)) is None,
            },
    {
        if !value_is_object(v) {
            return None;
        }
        let vocabulary_list = match VocabularyItem::read_required_seq(v, "vocabulary_list") {
            Some(x) => x,
            None => return None,
        };
        Some(ListVocabulariesOutput { vocabulary_list })
    }

    /// Reads the required member `key` as an output.
    pub fn read_required(v: &serde_json::Value, key: &str) -> (r: Option<ListVocabulariesOutput>)
        ensures
            match r {
                Some(t) => ListVocabulariesOutputView::required(value_model(*v), key@) == Some(t@),
                None => ListVocabulariesOutputView::required(value_model(*v), key@) is None,
            },
    {
        match value_get(v, key) {
            Some(c) => ListVocabulariesOutput::from_value(c),
            None => None,
        }
    }

    /// Reads the optional member `key` as an output; `Err` is a mismatch.
    pub fn read_optional(v: &serde_json::Value, key: &str) -> (r: Result<Option<ListVocabulariesOutput>, ()>)
        ensures
            match r {
                Ok(o) => ListVocabulariesOutputView::optional(value_model(*v), key@) == Some(
                    match o {
                        Some(t) => Some(t@),
                        None => None,
                    },
                ),
                Err(_) => ListVocabulariesOutputView::optional(value_model(*v), key@) is None,
            },
    {
        match read_member(v, key) {
            None => Ok(None),
            Some(c) => match ListVocabulariesOutput::from_value(c) {
                Some(t) => Ok(Some(t)),
                None => Err(()),
            },
        }
    }
}

/// The answer to a request for the list of vocabularies.
#[derive(Debug, Clone, PartialEq, Eq)]
pub struct ListVocabulariesResponse {
    pub output: ListVocabulariesOutput,
    pub usage: Usage,
    pub request_id: String,
}

/// The content of a [`ListVocabulariesResponse`].
pub struct ListVocabulariesResponseView {
    pub output: ListVocabulariesOutputView,
    pub usage: UsageView,
    pub request_id: Seq<char>,
}

impl View for ListVocabulariesResponse {
    type V = ListVocabulariesResponseView;

    open spec fn view(&self) -> ListVocabulariesResponseView {
        ListVocabulariesResponseView {
            output: self.output@,
            usage: self.usage@,
            request_id: self.request_id@,
        }
    }
}

impl ListVocabulariesResponseView {
    /// The answer that a wire value holds, if it has the shape of one.
    pub open spec fn from_json(j: JsonValue) -> Option<ListVocabulariesResponseView> {
        let output = ListVocabulariesOutputView::required(j, "output"@);
        let usage = UsageView::required(j, "usage"@);
        let request_id = j.req_text("request_id"@);
        if j is Object
            && output is Some
            && usage is Some
            && request_id is Some {
            Some(
                ListVocabulariesResponseView {
                    output: output->0,
                    usage: usage->0,
                    request_id: request_id->0,
                },
            )
        } else {
            None
        }
    }
}

impl ListVocabulariesResponse {
    /// Reads an answer out of a wire value.
    pub fn from_value(v: &serde_json::Value) -> (r: Option<ListVocabulariesResponse>)
        ensures
            match r {
                Some(t) => ListVocabulariesResponseView::from_json(value_model(*v)) == Some(t@),
                None => ListVocabulariesResponseView::from_json(value_model(*v)) is None,
            },
    {
        if !value_is_object(v) {
            return None;
        }
        let output = match ListVocabulariesOutput::read_required(v, "output") {
            Some(x) => x,
            None => return None,
        };
        let usage = match Usage::read_required(v, "usage") {
            Some(x) => x,
            None => return None,
        };
        let request_id = match read_req_text(v, "request_id") {
            Some(x) => x,
            None => return None,
        };
        Some(ListVocabulariesResponse { output, usage, request_id })
    }

    /// Reads an answer from the text of a body. A text that is no JSON
    /// document, or a document in another shape, is a deserialization error
    /// that keeps the text.
    pub fn decode(text: &str) -> (r: Result<ListVocabulariesResponse, DashScopeError>)
        ensures
            match r {
                Ok(t) => parsed(text@) is Ok && ListVocabulariesResponseView::from_json(parsed(text@)->Ok_0) == Some(
                    t@,
                ),
                Err(e) => (parsed(text@) is Err || ListVocabulariesResponseView::from_json(parsed(text@)->Ok_0) is None)
                    && e@ == unreadable(text@),
            },
    {
        match parse_value(text) {
            Ok(v) => match ListVocabulariesResponse::from_value(&v) {
                Some(t) => Ok(t),
                None => Err(wrong_shape(text)),
            },
            Err(e) => Err(not_json(&e, text)),
        }
    }
}

/// The output of an update or a deletion: an object without members.
#[derive(Debug, Clone, PartialEq, Eq)]
pub struct UpdateVocabularyOutput {
}

/// The content of an [`UpdateVocabularyOutput`].
pub struct UpdateVocabularyOutputView {
}

impl View for UpdateVocabularyOutput {
    type V = UpdateVocabularyOutputView;

    open spec fn view(&self) -> UpdateVocabularyOutputView {
        UpdateVocabularyOutputView {
        }
    }
}

impl UpdateVocabularyOutputView {
    /// The output that a wire value holds, if it has the shape of one.
    pub open spec fn from_json(j: JsonValue) -> Option<UpdateVocabularyOutputView> {
        if j is Object {
            Some(
                UpdateVocabularyOutputView {
                },
            )
        } else {
            None
        }
    }

    /// The required member `key`, read as an output.
    pub open spec fn required(j: JsonValue, key: Seq<char>) -> Option<UpdateVocabularyOutputView> {
        match j.field(key) {
            Some(c) => UpdateVocabularyOutputView::from_json(c),
            None => None,
        }
    }

    /// The optional member `key`, read as an output; the outer `None` is a mismatch.
    pub open spec fn optional(j: JsonValue, key: Seq<char>) -> Option<Option<UpdateVocabularyOutputView>> {
        match j.member(key) {
            None => Some(None),
            Some(c) => match UpdateVocabularyOutputView::from_json(c) {
                Some(x) => Some(Some(x)),
                None => None,
            },
        }
    }
}

impl UpdateVocabularyOutput {
    /// Reads an output out of a wire value.
    pub fn from_value(v: &serde_json::Value) -> (r: Option<UpdateVocabularyOutput>)
        ensures
            match r {
                Some(t) => UpdateVocabularyOutputView::from_json(value_model(*v)) == Some(t@),
                None => UpdateVocabularyOutputView::from_json(value_model(*v)) is None,
            },
    {
        if !value_is_object(v) {
            return None;
        }
        Some(UpdateVocabularyOutput {  })
    }

    /// Reads the required member `key` as an output.
    pub fn read_required(v: &serde_json::Value, key: &str) -> (r: Option<UpdateVocabularyOutput>)
        ensures
            match r {
                Some(t) => UpdateVocabularyOutputView::required(value_model(*v), key@) == Some(t@),
                None => UpdateVocabularyOutputView::required(value_model(*v), key@) is None,
            },
    {
        match value_get(v, key) {
            Some(c) => UpdateVocabularyOutput::from_value(c),
            None => None,
        }
    }

    /// Reads the optional member `key` as an output; `Err` is a mismatch.
    pub fn read_optional(v: &serde_json::Value, key: &str) -> (r: Result<Option<UpdateVocabularyOutput>, ()>)
        ensures
            match r {
                Ok(o) => UpdateVocabularyOutputView::optional(value_model(*v), key@) == Some(
                    match o {
                        Some(t) => Some(t@),
                        None => None,
                    },
                ),
                Err(_) => UpdateVocabularyOutputView::optional(value_model(*v), key@) is None,
            },
    {
        match read_member(v, key) {
            None => Ok(None),
            Some(c) => match UpdateVocabularyOutput::from_value(c) {
                Some(t) => Ok(Some(t)),
                None => Err(()),
            },
        }
    }
}

/// The answer to a request to update or delete a vocabulary.
#[derive(Debug, Clone, PartialEq, Eq)]
pub struct UpdateVocabularyResponse {
    pub output: UpdateVocabularyOutput,
    pub usage: Usage,
    pub request_id: String,
}

/// The content of an [`UpdateVocabularyResponse`].
pub struct UpdateVocabularyResponseView {
    pub output: UpdateVocabularyOutputView,
    pub usage: UsageView,
    pub request_id: Seq<char>,
}

impl View for UpdateVocabularyResponse {
    type V = UpdateVocabularyResponseView;

    open spec fn view(&self) -> UpdateVocabularyResponseView {
        UpdateVocabularyResponseView {
            output: self.output@,
            usage: self.usage@,
            request_id: self.request_id@,
        }
    }
}

impl UpdateVocabularyResponseView {
    /// The answer that a wire value holds, if it has the shape of one.
    pub open spec fn from_json(j: JsonValue) -> Option<UpdateVocabularyResponseView> {
        let output = UpdateVocabularyOutputView::required(j, "output"@);
        let usage = UsageView::required(j, "usage"@);
        let request_id = j.req_text("request_id"@);
        if j is Object
            && output is Some
            && usage is Some
            && request_id is Some {
            Some(
                UpdateVocabularyResponseView {
                    output: output->0,
                    usage: usage->0,
                    request_id: request_id->0,
                },
            )
        } else {
            None
        }
    }
}

impl UpdateVocabularyResponse {
    /// Reads an answer out of a wire value.
    pub fn from_value(v: &serde_json::Value) -> (r: Option<UpdateVocabularyResponse>)
        ensures
            match r {
                Some(t) => UpdateVocabularyResponseView::from_json(value_model(*v)) == Some(t@),
                None => UpdateVocabularyResponseView::from_json(value_model(*v)) is None,
            },
    {
        if !value_is_object(v) {
            return None;
        }
        let output = match UpdateVocabularyOutput::read_required(v, "output") {
            Some(x) => x,
            None => return None,
        };
        let usage = match Usage::read_required(v, "usage") {
            Some(x) => x,
            None => return None,
        };
        let request_id = match read_req_text(v, "request_id") {
            Some(x) => x,
            None => return None,
        };
        Some(UpdateVocabularyResponse { output, usage, request_id })
    }

    /// Reads an answer from the text of a body. A text that is no JSON
    /// document, or a document in another shape, is a deserialization error
    /// that keeps the text.
    pub fn decode(text: &str) -> (r: Result<UpdateVocabularyResponse, DashScopeError>)
        ensures
            match r {
                Ok(t) => parsed(text@) is Ok && UpdateVocabularyResponseView::from_json(parsed(text@)->Ok_0) == Some(
                    t@,
                ),
                Err(e) => (parsed(text@) is Err || UpdateVocabularyResponseView::from_json(parsed(text@)->Ok_0) is None)
                    && e@ == unreadable(text@),
            },
    {
        match parse_value(text) {
            Ok(v) => match UpdateVocabularyResponse::from_value(&v) {
                Some(t) => Ok(t),
                None => Err(wrong_shape(text)),
            },
            Err(e) => Err(not_json(&e, text)),
        }
    }
}

/// The path of the service.
pub const CUSTOMIZATION_PATH: &'static str = "/services/audio/asr/customization";

/// The model that manages vocabularies.
pub open spec fn biasing_model() -> Seq<char> {
    "speech-biasing"@
}

impl VocabularyDetail {
    /// A hot word with its weight and nothing else.
    pub fn from(value: (&str, i32)) -> (r: VocabularyDetail)
        ensures
            r@ == (VocabularyDetailView {
                text: value.0@,
                weight: value.1,
                lang: None,
                target_lang: None,
                translation: None,
            }),
    {
        VocabularyDetail {
            text: value.0.to_owned(),
            weight: value.1,
            lang: None,
            target_lang: None,
            translation: None,
        }
    }

    /// A copy of this hot word.
    pub fn duplicate(&self) -> (r: VocabularyDetail)
        ensures
            r@ == self@,
    {
        VocabularyDetail {
            text: self.text.clone(),
            weight: self.weight,
            lang: self.lang.clone(),
            target_lang: self.target_lang.clone(),
            translation: self.translation.clone(),
        }
    }
}

/// Copies a run of hot words.
pub fn duplicate_words(words: &[VocabularyDetail]) -> (r: Vec<VocabularyDetail>)
    ensures
        VocabularyDetail::seq_view(r@) == VocabularyDetail::seq_view(words@),
{
    let mut out: Vec<VocabularyDetail> = Vec::new();
    let mut i: usize = 0;
    while i < words.len()
        invariant
            i <= words.len(),
            out@.len() == i,
            forall|k: int| 0 <= k < i ==> (#[trigger] out@[k])@ == words@[k]@,
        decreases words.len() - i,
    {
        out.push(words[i].duplicate());
        i += 1;
    }
    proof {
        assert(VocabularyDetail::seq_view(out@) =~= VocabularyDetail::seq_view(words@));
    }
    out
}

/// The body of a request about one vocabulary: the model, the action, and
/// the id of the vocabulary.
pub open spec fn vocabulary_request(action: Seq<char>, vocabulary_id: Seq<char>) -> JsonValue {
    JsonValue::empty_object().with("model"@, JsonValue::Text(biasing_model())).with(
        "input"@,
        JsonValue::empty_object().with("action"@, JsonValue::Text(action)).with(
            "vocabulary_id"@,
            JsonValue::Text(vocabulary_id),
        ),
    )
}

/// The request that creates a vocabulary for `target_model`.
pub fn create_vocabulary_request(
    target_model: &str,
    prefix: &str,
    vocabulary: &[VocabularyDetail],
) -> (r: VocabularyParam)
    ensures
        r@ == (VocabularyParamView {
            model: biasing_model(),
            input: VocabularyInputView {
                action: "create_vocabulary"@,
                target_model: target_model@,
                prefix: prefix@,
                vocabulary: VocabularyDetail::seq_view(vocabulary@),
            },
        }),
{
    VocabularyParam {
        model: "speech-biasing".to_owned(),
        input: VocabularyInput {
            action: "create_vocabulary".to_owned(),
            target_model: target_model.to_owned(),
            prefix: prefix.to_owned(),
            vocabulary: duplicate_words(vocabulary),
        },
    }
}

/// The body of a request about the vocabulary `vocabulary_id`.
fn about_vocabulary(action: &str, vocabulary_id: &str) -> (r: (serde_json::Value, serde_json::Value))
    ensures
        value_model(r.0) == JsonValue::empty_object().with("model"@, JsonValue::Text(biasing_model())),
        value_model(r.1) == JsonValue::empty_object().with("action"@, JsonValue::Text(action@)).with(
            "vocabulary_id"@,
            JsonValue::Text(vocabulary_id@),
        ),
{
    let mut body = value_object();
    put_text(&mut body, "model", "speech-biasing");
    let mut input = value_object();
    put_text(&mut input, "action", action);
    put_text(&mut input, "vocabulary_id", vocabulary_id);
    (body, input)
}

/// The body of the request that asks for the vocabulary `vocabulary_id`.
pub fn query_vocabulary_request(vocabulary_id: &str) -> (r: serde_json::Value)
    ensures
        value_model(r) == vocabulary_request("query_vocabulary"@, vocabulary_id@),
{
    let (mut body, input) = about_vocabulary("query_vocabulary", vocabulary_id);
    put(&mut body, "input", input);
    body
}

/// The body of the request that deletes the vocabulary `vocabulary_id`.
pub fn delete_vocabulary_request(vocabulary_id: &str) -> (r: serde_json::Value)
    ensures
        value_model(r) == vocabulary_request("delete_vocabulary"@, vocabulary_id@),
{
    let (mut body, input) = about_vocabulary("delete_vocabulary", vocabulary_id);
    put(&mut body, "input", input);
    body
}

/// The body of the request that replaces the words of a vocabulary.
pub fn update_vocabulary_request(vocabulary_id: &str, vocabulary: &[VocabularyDetail]) -> (r:
    serde_json::Value)
    ensures
        value_model(r) == JsonValue::empty_object().with(
            "model"@,
            JsonValue::Text(biasing_model()),
        ).with(
            "input"@,
            JsonValue::empty_object().with("action"@, JsonValue::Text("update_vocabulary"@)).with(
                "vocabulary_id"@,
                JsonValue::Text(vocabulary_id@),
            ).with(
                "vocabulary"@,
                VocabularyDetailView::seq_to_json(VocabularyDetail::seq_view(vocabulary@)),
            ),
        ),
{
    let (mut body, mut input) = about_vocabulary("update_vocabulary", vocabulary_id);
    let words = duplicate_words(vocabulary);
    put(&mut input, "vocabulary", VocabularyDetail::write_seq(&words));
    put(&mut body, "input", input);
    body
}

/// The first page of a list, and the size of a page, where the caller says
/// nothing.
pub const FIRST_PAGE: usize = 0;

pub const PAGE_SIZE: usize = 10;

/// The body of the request that lists vocabularies: those whose name begins
/// with `prefix` (all, where none is given), page `page_index` (the first,
/// where none is given) of pages of `page_size` (ten, where none is given).
pub fn list_vocabularies_request(
    prefix: Option<&str>,
    page_index: Option<usize>,
    page_size: Option<usize>,
) -> (r: serde_json::Value)
    ensures
        value_model(r) == JsonValue::empty_object().with(
            "model"@,
            JsonValue::Text(biasing_model()),
        ).with(
            "input"@,
            JsonValue::empty_object().with("action"@, JsonValue::Text("list_vocabularie"@)).with(
                "prefix"@,
                JsonValue::Text(
                    match prefix {
                        Some(p) => p@,
                        None => Seq::empty(),
                    },
                ),
            ).with(
                "page_index"@,
                int_json(
                    match page_index {
                        Some(n) => n as int,
                        None => FIRST_PAGE as int,
                    },
                ),
            ).with(
                "page_size"@,
                int_json(
                    match page_size {
                        Some(n) => n as int,
                        None => PAGE_SIZE as int,
                    },
                ),
            ),
        ),
{
    let mut body = value_object();
    put_text(&mut body, "model", "speech-biasing");
    let mut input = value_object();
    put_text(&mut input, "action", "list_vocabularie");
    let prefix_text = match prefix {
        Some(p) => p.to_owned(),
        None => String::new(),
    };
    put_text(&mut input, "prefix", prefix_text.as_str());
    let index = match page_index {
        Some(n) => n,
        None => FIRST_PAGE,
    };
    let size = match page_size {
        Some(n) => n,
        None => PAGE_SIZE,
    };
    put_uint(&mut input, "page_index", index as u64);
    put_uint(&mut input, "page_size", size as u64);
    put(&mut body, "input", input);
    body
}

} // verus!
