//! What the operations have in common: the parameters of the models, the
//! usage that answers report, and the status of background tasks.

use crate::error::BuilderError;
use crate::json::{
    JsonValue, models, str_eq, value_array, value_as_str, value_get, value_is_object, value_model,
    value_object,
};
use crate::wire::{
    boolean_json, boolean_value, copy_value, opt_texts_view, optional_model, or_null, put,
    put_boolean, put_or_null, put_text, read_member, read_opt_i32, text_json, text_value, text_view,
    texts_json, texts_value, usize_json, usize_value,
};
use vstd::prelude::*;

verus! {

/// How far the service has got with a task that runs in the background.
#[derive(Debug, Clone, Copy, PartialEq, Eq, Structural)]
pub enum TaskStatus {
    /// Queued.
    Pending,
    /// Being worked on.
    Running,
    /// Done.
    Succeeded,
    /// Given up.
    Failed,
    /// Withdrawn.
    Canceled,
    /// Not known to the service, or expired.
    Unknown,
}

impl TaskStatus {
    /// The name of this status on the wire.
    pub open spec fn text(self) -> Seq<char> {
        match self {
            TaskStatus::Pending => "PENDING"@,
            TaskStatus::Running => "RUNNING"@,
            TaskStatus::Succeeded => "SUCCEEDED"@,
            TaskStatus::Failed => "FAILED"@,
            TaskStatus::Canceled => "CANCELED"@,
            TaskStatus::Unknown => "UNKNOWN"@,
        }
    }

    /// The status that a wire name stands for, if it stands for one.
    pub open spec fn named(name: Seq<char>) -> Option<TaskStatus> {
        if name == "PENDING"@ {
            Some(TaskStatus::Pending)
        } else if name == "RUNNING"@ {
            Some(TaskStatus::Running)
        } else if name == "SUCCEEDED"@ {
            Some(TaskStatus::Succeeded)
        } else if name == "FAILED"@ {
            Some(TaskStatus::Failed)
        } else if name == "CANCELED"@ {
            Some(TaskStatus::Canceled)
        } else if name == "UNKNOWN"@ {
            Some(TaskStatus::Unknown)
        } else {
            None
        }
    }

    /// The required member `key`, read as a status.
    pub open spec fn required(j: JsonValue, key: Seq<char>) -> Option<TaskStatus> {
        match j.req_text(key) {
            Some(name) => TaskStatus::named(name),
            None => None,
        }
    }

    /// The optional member `key`, read as a status; the outer `None` is a mismatch.
    pub open spec fn optional(j: JsonValue, key: Seq<char>) -> Option<Option<TaskStatus>> {
        match j.opt_text(key) {
            Some(Some(name)) => match TaskStatus::named(name) {
                Some(t) => Some(Some(t)),
                None => None,
            },
            Some(None) => Some(None),
            None => None,
        }
    }

    /// The name of this status on the wire.
    pub fn as_str(&self) -> (r: &'static str)
        ensures
            r@ == self.text(),
    {
        match self {
            TaskStatus::Pending => "PENDING",
            TaskStatus::Running => "RUNNING",
            TaskStatus::Succeeded => "SUCCEEDED",
            TaskStatus::Failed => "FAILED",
            TaskStatus::Canceled => "CANCELED",
            TaskStatus::Unknown => "UNKNOWN",
        }
    }

    /// Reads a wire name; `None` for a name that stands for no status.
    pub fn from_str(name: &str) -> (r: Option<TaskStatus>)
        ensures
            r == TaskStatus::named(name@),
    {
        if str_eq(name, "PENDING") {
            Some(TaskStatus::Pending)
        } else if str_eq(name, "RUNNING") {
            Some(TaskStatus::Running)
        } else if str_eq(name, "SUCCEEDED") {
            Some(TaskStatus::Succeeded)
        } else if str_eq(name, "FAILED") {
            Some(TaskStatus::Failed)
        } else if str_eq(name, "CANCELED") {
            Some(TaskStatus::Canceled)
        } else if str_eq(name, "UNKNOWN") {
            Some(TaskStatus::Unknown)
        } else {
            None
        }
    }

    /// Reads the required member `key` as a status.
    pub fn read_required(v: &serde_json::Value, key: &str) -> (r: Option<TaskStatus>)
        ensures
            r == TaskStatus::required(value_model(*v), key@),
    {
        match value_get(v, key) {
            Some(c) => match value_as_str(c) {
                Some(s) => TaskStatus::from_str(s),
                None => None,
            },
            None => None,
        }
    }

    /// Reads the optional member `key` as a status; `Err` is a mismatch.
    pub fn read_optional(v: &serde_json::Value, key: &str) -> (r: Result<Option<TaskStatus>, ()>)
        ensures
            match r {
                Ok(o) => TaskStatus::optional(value_model(*v), key@) == Some(o),
                Err(_) => TaskStatus::optional(value_model(*v), key@) is None,
            },
    {
        match read_member(v, key) {
            None => Ok(None),
            Some(c) => match value_as_str(c) {
                Some(s) => match TaskStatus::from_str(s) {
                    Some(t) => Ok(Some(t)),
                    None => Err(()),
                },
                None => Err(()),
            },
        }
    }
}

/// The format that the model is to answer in.
#[derive(Debug, Clone, PartialEq, Eq)]
pub struct ResponseFormat {
    /// `text` or `json_object`.
    pub type_: String,
}

/// The content of a [`ResponseFormat`].
pub struct ResponseFormatView {
    pub type_: Seq<char>,
}

impl View for ResponseFormat {
    type V = ResponseFormatView;

    open spec fn view(&self) -> ResponseFormatView {
        ResponseFormatView {
            type_: self.type_@,
        }
    }
}

impl ResponseFormatView {
    /// The wire value of this response format.
    pub open spec fn to_json(self) -> JsonValue {
        JsonValue::empty_object().with("type"@, JsonValue::Text(self.type_))
    }

    /// The wire value of an optional response format.
    pub open spec fn optional_json(o: Option<ResponseFormatView>) -> Option<JsonValue> {
        match o {
            Some(x) => Some(x.to_json()),
            None => None,
        }
    }
}

impl ResponseFormat {
    /// Writes this response format as a wire value.
    pub fn to_value(&self) -> (r: serde_json::Value)
        ensures
            value_model(r) == self@.to_json(),
    {
        let mut obj = value_object();
        put_text(&mut obj, "type", self.type_.as_str());
        obj
    }

    /// An optional response format as an optional wire value.
    pub fn optional_value(o: &Option<ResponseFormat>) -> (r: Option<serde_json::Value>)
        ensures
            optional_model(r) == ResponseFormatView::optional_json(
                match o {
                    Some(t) => Some(t@),
                    None => None,
                },
            ),
    {
        match o {
            Some(t) => Some(t.to_value()),
            None => None,
        }
    }
}

/// The parameters of a function that the model may call, as a JSON schema.
#[derive(Debug, Clone, PartialEq, Eq)]
pub struct FunctionParameters {
    /// The schema type; `object`.
    pub typ: String,
    /// The schema of each parameter, by name.
    pub properties: serde_json::Value,
    /// The parameters that must be given.
    pub required: Option<Vec<String>>,
}

/// The content of a [`FunctionParameters`].
pub struct FunctionParametersView {
    pub typ: Seq<char>,
    pub properties: JsonValue,
    pub required: Option<Seq<Seq<char>>>,
}

impl View for FunctionParameters {
    type V = FunctionParametersView;

    open spec fn view(&self) -> FunctionParametersView {
        FunctionParametersView {
            typ: self.typ@,
            properties: value_model(self.properties),
            required: opt_texts_view(self.required),
        }
    }
}

impl FunctionParametersView {
    /// What holds of every parameter schema that was read or is to be written.
    pub open spec fn wf(self) -> bool {
        &&& self.properties is Object
    }

    /// The wire value of this parameter schema.
    pub open spec fn to_json(self) -> JsonValue {
        JsonValue::empty_object().with("type"@, JsonValue::Text(self.typ)).with("properties"@, self.properties).with("required"@, or_null(texts_json(self.required)))
    }

    /// The wire value of an optional parameter schema.
    pub open spec fn optional_json(o: Option<FunctionParametersView>) -> Option<JsonValue> {
        match o {
            Some(x) => Some(x.to_json()),
            None => None,
        }
    }
}

impl FunctionParameters {
    /// Writes this parameter schema as a wire value.
    pub fn to_value(&self) -> (r: serde_json::Value)
        ensures
            value_model(r) == self@.to_json(),
    {
        let mut obj = value_object();
        put_text(&mut obj, "type", self.typ.as_str());
        put(&mut obj, "properties", self.properties.clone());
        put_or_null(&mut obj, "required", texts_value(&self.required));
        obj
    }

    /// An optional parameter schema as an optional wire value.
    pub fn optional_value(o: &Option<FunctionParameters>) -> (r: Option<serde_json::Value>)
        ensures
            optional_model(r) == FunctionParametersView::optional_json(
                match o {
                    Some(t) => Some(t@),
                    None => None,
                },
            ),
    {
        match o {
            Some(t) => Some(t.to_value()),
            None => None,
        }
    }
}

/// A function that the model may call.
#[derive(Debug, Clone, PartialEq, Eq)]
pub struct Function {
    pub name: String,
    pub description: Option<String>,
    pub parameters: Option<FunctionParameters>,
}

/// The content of a [`Function`].
pub struct FunctionView {
    pub name: Seq<char>,
    pub description: Option<Seq<char>>,
    pub parameters: Option<FunctionParametersView>,
}

impl View for Function {
    type V = FunctionView;

    open spec fn view(&self) -> FunctionView {
        FunctionView {
            name: self.name@,
            description: text_view(self.description),
            parameters: match self.parameters {
                Some(x) => Some(x@),
                None => None,
            },
        }
    }
}

impl FunctionView {
    /// What holds of every function that was read or is to be written.
    pub open spec fn wf(self) -> bool {
        &&& (self.parameters matches Some(x) ==> x.wf())
    }

    /// The wire value of this function.
    pub open spec fn to_json(self) -> JsonValue {
        JsonValue::empty_object().with("name"@, JsonValue::Text(self.name)).with("description"@, or_null(text_json(self.description))).with("parameters"@, or_null(FunctionParametersView::optional_json(self.parameters)))
    }

    /// The wire value of an optional function.
    pub open spec fn optional_json(o: Option<FunctionView>) -> Option<JsonValue> {
        match o {
            Some(x) => Some(x.to_json()),
            None => None,
        }
    }
}

impl Function {
    /// Writes this function as a wire value.
    pub fn to_value(&self) -> (r: serde_json::Value)
        ensures
            value_model(r) == self@.to_json(),
    {
        let mut obj = value_object();
        put_text(&mut obj, "name", self.name.as_str());
        put_or_null(&mut obj, "description", text_value(&self.description));
        put_or_null(&mut obj, "parameters", FunctionParameters::optional_value(&self.parameters));
        obj
    }

    /// An optional function as an optional wire value.
    pub fn optional_value(o: &Option<Function>) -> (r: Option<serde_json::Value>)
        ensures
            optional_model(r) == FunctionView::optional_json(
                match o {
                    Some(t) => Some(t@),
                    None => None,
                },
            ),
    {
        match o {
            Some(t) => Some(t.to_value()),
            None => None,
        }
    }
}

/// A tool offered to the model.
#[derive(Debug, Clone, PartialEq, Eq)]
pub struct FunctionCall {
    /// The kind of tool; `function`.
    pub typ: Option<String>,
    pub function: Option<Function>,
}

/// The content of a [`FunctionCall`].
pub struct FunctionCallView {
    pub typ: Option<Seq<char>>,
    pub function: Option<FunctionView>,
}

impl View for FunctionCall {
    type V = FunctionCallView;

    open spec fn view(&self) -> FunctionCallView {
        FunctionCallView {
            typ: text_view(self.typ),
            function: match self.function {
                Some(x) => Some(x@),
                None => None,
            },
        }
    }
}

impl FunctionCallView {
    /// What holds of every tool that was read or is to be written.
    pub open spec fn wf(self) -> bool {
        &&& (self.function matches Some(x) ==> x.wf())
    }

    /// The wire value of this tool.
    pub open spec fn to_json(self) -> JsonValue {
        JsonValue::empty_object().with("type"@, or_null(text_json(self.typ))).with("function"@, or_null(FunctionView::optional_json(self.function)))
    }

    /// The wire array of a run.
    pub open spec fn seq_to_json(ts: Seq<FunctionCallView>) -> JsonValue {
        JsonValue::Array(Seq::new(ts.len(), |i: int| ts[i].to_json()))
    }

    /// The wire value of an optional run.
    pub open spec fn optional_seq_json(o: Option<Seq<FunctionCallView>>) -> Option<JsonValue> {
        match o {
            Some(ts) => Some(FunctionCallView::seq_to_json(ts)),
            None => None,
        }
    }
}

impl FunctionCall {
    /// The contents of a run of these.
    pub open spec fn seq_view(ts: Seq<FunctionCall>) -> Seq<FunctionCallView> {
        Seq::new(ts.len(), |i: int| ts[i]@)
    }

    /// Writes this tool as a wire value.
    pub fn to_value(&self) -> (r: serde_json::Value)
        ensures
            value_model(r) == self@.to_json(),
    {
        let mut obj = value_object();
        put_or_null(&mut obj, "type", text_value(&self.typ));
        put_or_null(&mut obj, "function", Function::optional_value(&self.function));
        obj
    }

    /// Writes a run as a wire array.
    pub fn write_seq(ts: &Vec<FunctionCall>) -> (r: serde_json::Value)
        ensures
            value_model(r) == FunctionCallView::seq_to_json(FunctionCall::seq_view(ts@)),
    {
        let mut items: Vec<serde_json::Value> = Vec::new();
        let mut i: usize = 0;
        while i < ts.len()
            invariant
                i <= ts.len(),
                items@.len() == i,
                forall|k: int|
                    0 <= k < i ==> value_model(#[trigger] items@[k]) == ts@[k]@.to_json(),
            decreases ts.len() - i,
        {
            items.push(ts[i].to_value());
            i += 1;
        }
        proof {
            assert(models(items@) =~= Seq::new(
                ts@.len(),
                |i: int| FunctionCall::seq_view(ts@)[i].to_json(),
            ));
        }
        value_array(items)
    }

    /// An optional run as an optional wire value.
    pub fn optional_seq_value(o: &Option<Vec<FunctionCall>>) -> (r: Option<serde_json::Value>)
        ensures
            optional_model(r) == FunctionCallView::optional_seq_json(
                match o {
                    Some(ts) => Some(FunctionCall::seq_view(ts@)),
                    None => None,
                },
            ),
    {
        match o {
            Some(ts) => Some(FunctionCall::write_seq(ts)),
            None => None,
        }
    }
}

/// How the model is to search the web.
#[derive(Debug, Clone, PartialEq, Eq)]
pub struct SearchOptions {
    pub forced_search: Option<bool>,
    pub enable_source: Option<bool>,
    pub enable_citation: Option<bool>,
    pub citation_format: Option<String>,
    pub search_strategy: Option<String>,
}

/// The content of a [`SearchOptions`].
pub struct SearchOptionsView {
    pub forced_search: Option<bool>,
    pub enable_source: Option<bool>,
    pub enable_citation: Option<bool>,
    pub citation_format: Option<Seq<char>>,
    pub search_strategy: Option<Seq<char>>,
}

impl View for SearchOptions {
    type V = SearchOptionsView;

    open spec fn view(&self) -> SearchOptionsView {
        SearchOptionsView {
            forced_search: self.forced_search,
            enable_source: self.enable_source,
            enable_citation: self.enable_citation,
            citation_format: text_view(self.citation_format),
            search_strategy: text_view(self.search_strategy),
        }
    }
}

impl SearchOptionsView {
    /// The wire value of this search option set.
    pub open spec fn to_json(self) -> JsonValue {
        JsonValue::empty_object().with("forced_search"@, or_null(boolean_json(self.forced_search))).with("enable_source"@, or_null(boolean_json(self.enable_source))).with("enable_citation"@, or_null(boolean_json(self.enable_citation))).with("citation_format"@, or_null(text_json(self.citation_format))).with("search_strategy"@, or_null(text_json(self.search_strategy)))
    }

    /// The wire value of an optional search option set.
    pub open spec fn optional_json(o: Option<SearchOptionsView>) -> Option<JsonValue> {
        match o {
            Some(x) => Some(x.to_json()),
            None => None,
        }
    }
}

impl SearchOptions {
    /// Writes this search option set as a wire value.
    pub fn to_value(&self) -> (r: serde_json::Value)
        ensures
            value_model(r) == self@.to_json(),
    {
        let mut obj = value_object();
        put_or_null(&mut obj, "forced_search", boolean_value(self.forced_search));
        put_or_null(&mut obj, "enable_source", boolean_value(self.enable_source));
        put_or_null(&mut obj, "enable_citation", boolean_value(self.enable_citation));
        put_or_null(&mut obj, "citation_format", text_value(&self.citation_format));
        put_or_null(&mut obj, "search_strategy", text_value(&self.search_strategy));
        obj
    }

    /// An optional search option set as an optional wire value.
    pub fn optional_value(o: &Option<SearchOptions>) -> (r: Option<serde_json::Value>)
        ensures
            optional_model(r) == SearchOptionsView::optional_json(
                match o {
                    Some(t) => Some(t@),
                    None => None,
                },
            ),
    {
        match o {
            Some(t) => Some(t.to_value()),
            None => None,
        }
    }
}

/// What a streamed answer is to include.
#[derive(Debug, Clone, PartialEq, Eq)]
pub struct StreamOptions {
    pub include_usage: bool,
}

/// The content of a [`StreamOptions`].
pub struct StreamOptionsView {
    pub include_usage: bool,
}

impl View for StreamOptions {
    type V = StreamOptionsView;

    open spec fn view(&self) -> StreamOptionsView {
        StreamOptionsView {
            include_usage: self.include_usage,
        }
    }
}

impl StreamOptionsView {
    /// The wire value of this stream option set.
    pub open spec fn to_json(self) -> JsonValue {
        JsonValue::empty_object().with("include_usage"@, JsonValue::Boolean(self.include_usage))
    }

    /// The wire value of an optional stream option set.
    pub open spec fn optional_json(o: Option<StreamOptionsView>) -> Option<JsonValue> {
        match o {
            Some(x) => Some(x.to_json()),
            None => None,
        }
    }
}

impl StreamOptions {
    /// Writes this stream option set as a wire value.
    pub fn to_value(&self) -> (r: serde_json::Value)
        ensures
            value_model(r) == self@.to_json(),
    {
        let mut obj = value_object();
        put_boolean(&mut obj, "include_usage", self.include_usage);
        obj
    }

    /// An optional stream option set as an optional wire value.
    pub fn optional_value(o: &Option<StreamOptions>) -> (r: Option<serde_json::Value>)
        ensures
            optional_model(r) == StreamOptionsView::optional_json(
                match o {
                    Some(t) => Some(t@),
                    None => None,
                },
            ),
    {
        match o {
            Some(t) => Some(t.to_value()),
            None => None,
        }
    }
}

/// A term with its fixed rendering in the target language.
#[derive(Debug, Clone, PartialEq, Eq)]
pub struct Term {
    pub source: String,
    pub target: String,
}

/// The content of a [`Term`].
pub struct TermView {
    pub source: Seq<char>,
    pub target: Seq<char>,
}

impl View for Term {
    type V = TermView;

    open spec fn view(&self) -> TermView {
        TermView {
            source: self.source@,
            target: self.target@,
        }
    }
}

impl TermView {
    /// The wire value of this term.
    pub open spec fn to_json(self) -> JsonValue {
        JsonValue::empty_object().with("source"@, JsonValue::Text(self.source)).with("target"@, JsonValue::Text(self.target))
    }

    /// The wire array of a run.
    pub open spec fn seq_to_json(ts: Seq<TermView>) -> JsonValue {
        JsonValue::Array(Seq::new(ts.len(), |i: int| ts[i].to_json()))
    }

    /// The wire value of an optional run.
    pub open spec fn optional_seq_json(o: Option<Seq<TermView>>) -> Option<JsonValue> {
        match o {
            Some(ts) => Some(TermView::seq_to_json(ts)),
            None => None,
        }
    }
}

impl Term {
    /// The contents of a run of these.
    pub open spec fn seq_view(ts: Seq<Term>) -> Seq<TermView> {
        Seq::new(ts.len(), |i: int| ts[i]@)
    }

    /// Writes this term as a wire value.
    pub fn to_value(&self) -> (r: serde_json::Value)
        ensures
            value_model(r) == self@.to_json(),
    {
        let mut obj = value_object();
        put_text(&mut obj, "source", self.source.as_str());
        put_text(&mut obj, "target", self.target.as_str());
        obj
    }

    /// Writes a run as a wire array.
    pub fn write_seq(ts: &Vec<Term>) -> (r: serde_json::Value)
        ensures
            value_model(r) == TermView::seq_to_json(Term::seq_view(ts@)),
    {
        let mut items: Vec<serde_json::Value> = Vec::new();
        let mut i: usize = 0;
        while i < ts.len()
            invariant
                i <= ts.len(),
                items@.len() == i,
                forall|k: int|
                    0 <= k < i ==> value_model(#[trigger] items@[k]) == ts@[k]@.to_json(),
            decreases ts.len() - i,
        {
            items.push(ts[i].to_value());
            i += 1;
        }
        proof {
            assert(models(items@) =~= Seq::new(
                ts@.len(),
                |i: int| Term::seq_view(ts@)[i].to_json(),
            ));
        }
        value_array(items)
    }

    /// An optional run as an optional wire value.
    pub fn optional_seq_value(o: &Option<Vec<Term>>) -> (r: Option<serde_json::Value>)
        ensures
            optional_model(r) == TermView::optional_seq_json(
                match o {
                    Some(ts) => Some(Term::seq_view(ts@)),
                    None => None,
                },
            ),
    {
        match o {
            Some(ts) => Some(Term::write_seq(ts)),
            None => None,
        }
    }
}

/// What a model that renders text in another language needs to know.
#[derive(Debug, Clone, PartialEq, Eq)]
pub struct TranslationOptions {
    pub source_lang: String,
    pub target_lang: String,
    pub terms: Option<Vec<Term>>,
}

/// The content of a [`TranslationOptions`].
pub struct TranslationOptionsView {
    pub source_lang: Seq<char>,
    pub target_lang: Seq<char>,
    pub terms: Option<Seq<TermView>>,
}

impl View for TranslationOptions {
    type V = TranslationOptionsView;

    open spec fn view(&self) -> TranslationOptionsView {
        TranslationOptionsView {
            source_lang: self.source_lang@,
            target_lang: self.target_lang@,
            terms: match self.terms {
                Some(x) => Some(Term::seq_view(x@)),
                None => None,
            },
        }
    }
}

impl TranslationOptionsView {
    /// The wire value of this option set.
    pub open spec fn to_json(self) -> JsonValue {
        JsonValue::empty_object().with("source_lang"@, JsonValue::Text(self.source_lang)).with("target_lang"@, JsonValue::Text(self.target_lang)).with("terms"@, or_null(TermView::optional_seq_json(self.terms)))
    }

    /// The wire value of an optional option set.
    pub open spec fn optional_json(o: Option<TranslationOptionsView>) -> Option<JsonValue> {
        match o {
            Some(x) => Some(x.to_json()),
            None => None,
        }
    }
}

impl TranslationOptions {
    /// Writes this option set as a wire value.
    pub fn to_value(&self) -> (r: serde_json::Value)
        ensures
            value_model(r) == self@.to_json(),
    {
        let mut obj = value_object();
        put_text(&mut obj, "source_lang", self.source_lang.as_str());
        put_text(&mut obj, "target_lang", self.target_lang.as_str());
        put_or_null(&mut obj, "terms", Term::optional_seq_value(&self.terms));
        obj
    }

    /// An optional option set as an optional wire value.
    pub fn optional_value(o: &Option<TranslationOptions>) -> (r: Option<serde_json::Value>)
        ensures
            optional_model(r) == TranslationOptionsView::optional_json(
                match o {
                    Some(t) => Some(t@),
                    None => None,
                },
            ),
    {
        match o {
            Some(t) => Some(t.to_value()),
            None => None,
        }
    }
}

/// The parameters that the text and multi-modal models share. A member that is
/// absent is written as `null`.
#[derive(Debug, Clone, PartialEq)]
pub struct Parameters {
    /// The format of the result; `message` is recommended.
    pub result_format: Option<String>,
    pub translation_options: Option<TranslationOptions>,
    /// Whether a streamed answer comes in increments.
    pub incremental_output: Option<bool>,
    /// The tools offered to the model.
    pub tools: Option<Vec<FunctionCall>>,
    pub parallel_tool_calls: Option<bool>,
    /// The most tokens to think with.
    pub thinking_budget: Option<usize>,
    pub enable_search: Option<bool>,
    pub search_options: Option<SearchOptions>,
    pub enable_thinking: Option<bool>,
    pub response_format: Option<ResponseFormat>,
    /// The number as it is to stand on the wire.
    pub repetition_penalty: Option<serde_json::Value>,
    /// The number as it is to stand on the wire.
    pub presence_penalty: Option<serde_json::Value>,
    pub vl_high_resolution_images: Option<bool>,
    pub vl_enable_image_hw_output: Option<bool>,
}

/// The content of a [`Parameters`].
pub struct ParametersView {
    pub result_format: Option<Seq<char>>,
    pub translation_options: Option<TranslationOptionsView>,
    pub incremental_output: Option<bool>,
    pub tools: Option<Seq<FunctionCallView>>,
    pub parallel_tool_calls: Option<bool>,
    pub thinking_budget: Option<usize>,
    pub enable_search: Option<bool>,
    pub search_options: Option<SearchOptionsView>,
    pub enable_thinking: Option<bool>,
    pub response_format: Option<ResponseFormatView>,
    pub repetition_penalty: Option<JsonValue>,
    pub presence_penalty: Option<JsonValue>,
    pub vl_high_resolution_images: Option<bool>,
    pub vl_enable_image_hw_output: Option<bool>,
}

impl View for Parameters {
    type V = ParametersView;

    open spec fn view(&self) -> ParametersView {
        ParametersView {
            result_format: text_view(self.result_format),
            translation_options: match self.translation_options {
                Some(x) => Some(x@),
                None => None,
            },
            incremental_output: self.incremental_output,
            tools: match self.tools {
                Some(x) => Some(FunctionCall::seq_view(x@)),
                None => None,
            },
            parallel_tool_calls: self.parallel_tool_calls,
            thinking_budget: self.thinking_budget,
            enable_search: self.enable_search,
            search_options: match self.search_options {
                Some(x) => Some(x@),
                None => None,
            },
            enable_thinking: self.enable_thinking,
            response_format: match self.response_format {
                Some(x) => Some(x@),
                None => None,
            },
            repetition_penalty: optional_model(self.repetition_penalty),
            presence_penalty: optional_model(self.presence_penalty),
            vl_high_resolution_images: self.vl_high_resolution_images,
            vl_enable_image_hw_output: self.vl_enable_image_hw_output,
        }
    }
}

impl ParametersView {
    /// What holds of every parameter set that was read or is to be written.
    pub open spec fn wf(self) -> bool {
        &&& (self.repetition_penalty matches Some(c) ==> c is Number)
        &&& (self.presence_penalty matches Some(c) ==> c is Number)
    }

    /// The wire value of this parameter set.
    pub open spec fn to_json(self) -> JsonValue {
        JsonValue::empty_object().with("result_format"@, or_null(text_json(self.result_format))).with("translation_options"@, or_null(TranslationOptionsView::optional_json(self.translation_options))).with("incremental_output"@, or_null(boolean_json(self.incremental_output))).with("tools"@, or_null(FunctionCallView::optional_seq_json(self.tools))).with("parallel_tool_calls"@, or_null(boolean_json(self.parallel_tool_calls))).with("thinking_budget"@, or_null(usize_json(self.thinking_budget))).with("enable_search"@, or_null(boolean_json(self.enable_search))).with("search_options"@, or_null(SearchOptionsView::optional_json(self.search_options))).with("enable_thinking"@, or_null(boolean_json(self.enable_thinking))).with("response_format"@, or_null(ResponseFormatView::optional_json(self.response_format))).with("repetition_penalty"@, or_null(self.repetition_penalty)).with("presence_penalty"@, or_null(self.presence_penalty)).with("vl_high_resolution_images"@, or_null(boolean_json(self.vl_high_resolution_images))).with("vl_enable_image_hw_output"@, or_null(boolean_json(self.vl_enable_image_hw_output)))
    }

    /// The wire value of an optional parameter set.
    pub open spec fn optional_json(o: Option<ParametersView>) -> Option<JsonValue> {
        match o {
            Some(x) => Some(x.to_json()),
            None => None,
        }
    }
}

impl Parameters {
    /// Writes this parameter set as a wire value.
    pub fn to_value(&self) -> (r: serde_json::Value)
        ensures
            value_model(r) == self@.to_json(),
    {
        let mut obj = value_object();
        put_or_null(&mut obj, "result_format", text_value(&self.result_format));
        put_or_null(&mut obj, "translation_options", TranslationOptions::optional_value(&self.translation_options));
        put_or_null(&mut obj, "incremental_output", boolean_value(self.incremental_output));
        put_or_null(&mut obj, "tools", FunctionCall::optional_seq_value(&self.tools));
        put_or_null(&mut obj, "parallel_tool_calls", boolean_value(self.parallel_tool_calls));
        put_or_null(&mut obj, "thinking_budget", usize_value(self.thinking_budget));
        put_or_null(&mut obj, "enable_search", boolean_value(self.enable_search));
        put_or_null(&mut obj, "search_options", SearchOptions::optional_value(&self.search_options));
        put_or_null(&mut obj, "enable_thinking", boolean_value(self.enable_thinking));
        put_or_null(&mut obj, "response_format", ResponseFormat::optional_value(&self.response_format));
        put_or_null(&mut obj, "repetition_penalty", copy_value(&self.repetition_penalty));
        put_or_null(&mut obj, "presence_penalty", copy_value(&self.presence_penalty));
        put_or_null(&mut obj, "vl_high_resolution_images", boolean_value(self.vl_high_resolution_images));
        put_or_null(&mut obj, "vl_enable_image_hw_output", boolean_value(self.vl_enable_image_hw_output));
        obj
    }

    /// An optional parameter set as an optional wire value.
    pub fn optional_value(o: &Option<Parameters>) -> (r: Option<serde_json::Value>)
        ensures
            optional_model(r) == ParametersView::optional_json(
                match o {
                    Some(t) => Some(t@),
                    None => None,
                },
            ),
    {
        match o {
            Some(t) => Some(t.to_value()),
            None => None,
        }
    }
}

/// Collects the members of a [`Parameters`] one by one.
#[derive(Debug, Clone)]
pub struct ParametersBuilder {
    pub result_format: Option<Option<String>>,
    pub translation_options: Option<Option<TranslationOptions>>,
    pub incremental_output: Option<Option<bool>>,
    pub tools: Option<Option<Vec<FunctionCall>>>,
    pub parallel_tool_calls: Option<Option<bool>>,
    pub thinking_budget: Option<Option<usize>>,
    pub enable_search: Option<Option<bool>>,
    pub search_options: Option<Option<SearchOptions>>,
    pub enable_thinking: Option<Option<bool>>,
    pub response_format: Option<Option<ResponseFormat>>,
    pub repetition_penalty: Option<Option<serde_json::Value>>,
    pub presence_penalty: Option<Option<serde_json::Value>>,
    pub vl_high_resolution_images: Option<Option<bool>>,
    pub vl_enable_image_hw_output: Option<Option<bool>>,
}

impl Default for ParametersBuilder {
    /// A builder in which nothing is set.
    fn default() -> (r: ParametersBuilder)
        ensures
            r.result_format is None,
            r.translation_options is None,
            r.incremental_output is None,
            r.tools is None,
            r.parallel_tool_calls is None,
            r.thinking_budget is None,
            r.enable_search is None,
            r.search_options is None,
            r.enable_thinking is None,
            r.response_format is None,
            r.repetition_penalty is None,
            r.presence_penalty is None,
            r.vl_high_resolution_images is None,
            r.vl_enable_image_hw_output is None,
    {
        ParametersBuilder {
            result_format: None,
            translation_options: None,
            incremental_output: None,
            tools: None,
            parallel_tool_calls: None,
            thinking_budget: None,
            enable_search: None,
            search_options: None,
            enable_thinking: None,
            response_format: None,
            repetition_penalty: None,
            presence_penalty: None,
            vl_high_resolution_images: None,
            vl_enable_image_hw_output: None,
        }
    }
}

impl ParametersBuilder {
    /// Sets `result_format`.
    pub fn result_format(self, value: String) -> (r: ParametersBuilder)
        ensures
            r == (ParametersBuilder { result_format: Some(Some(value)), ..self }),
    {
        ParametersBuilder { result_format: Some(Some(value)), ..self }
    }

    /// Sets `translation_options`.
    pub fn translation_options(self, value: TranslationOptions) -> (r: ParametersBuilder)
        ensures
            r == (ParametersBuilder { translation_options: Some(Some(value)), ..self }),
    {
        ParametersBuilder { translation_options: Some(Some(value)), ..self }
    }

    /// Sets `incremental_output`.
    pub fn incremental_output(self, value: bool) -> (r: ParametersBuilder)
        ensures
            r == (ParametersBuilder { incremental_output: Some(Some(value)), ..self }),
    {
        ParametersBuilder { incremental_output: Some(Some(value)), ..self }
    }

    /// Sets `tools`.
    pub fn tools(self, value: Vec<FunctionCall>) -> (r: ParametersBuilder)
        ensures
            r == (ParametersBuilder { tools: Some(Some(value)), ..self }),
    {
        ParametersBuilder { tools: Some(Some(value)), ..self }
    }

    /// Sets `parallel_tool_calls`.
    pub fn parallel_tool_calls(self, value: bool) -> (r: ParametersBuilder)
        ensures
            r == (ParametersBuilder { parallel_tool_calls: Some(Some(value)), ..self }),
    {
        ParametersBuilder { parallel_tool_calls: Some(Some(value)), ..self }
    }

    /// Sets `thinking_budget`.
    pub fn thinking_budget(self, value: usize) -> (r: ParametersBuilder)
        ensures
            r == (ParametersBuilder { thinking_budget: Some(Some(value)), ..self }),
    {
        ParametersBuilder { thinking_budget: Some(Some(value)), ..self }
    }

    /// Sets `enable_search`.
    pub fn enable_search(self, value: bool) -> (r: ParametersBuilder)
        ensures
            r == (ParametersBuilder { enable_search: Some(Some(value)), ..self }),
    {
        ParametersBuilder { enable_search: Some(Some(value)), ..self }
    }

    /// Sets `search_options`.
    pub fn search_options(self, value: SearchOptions) -> (r: ParametersBuilder)
        ensures
            r == (ParametersBuilder { search_options: Some(Some(value)), ..self }),
    {
        ParametersBuilder { search_options: Some(Some(value)), ..self }
    }

    /// Sets `enable_thinking`.
    pub fn enable_thinking(self, value: bool) -> (r: ParametersBuilder)
        ensures
            r == (ParametersBuilder { enable_thinking: Some(Some(value)), ..self }),
    {
        ParametersBuilder { enable_thinking: Some(Some(value)), ..self }
    }

    /// Sets `response_format`.
    pub fn response_format(self, value: ResponseFormat) -> (r: ParametersBuilder)
        ensures
            r == (ParametersBuilder { response_format: Some(Some(value)), ..self }),
    {
        ParametersBuilder { response_format: Some(Some(value)), ..self }
    }

    /// Sets `repetition_penalty`.
    pub fn repetition_penalty(self, value: serde_json::Value) -> (r: ParametersBuilder)
        ensures
            r == (ParametersBuilder { repetition_penalty: Some(Some(value)), ..self }),
    {
        ParametersBuilder { repetition_penalty: Some(Some(value)), ..self }
    }

    /// Sets `presence_penalty`.
    pub fn presence_penalty(self, value: serde_json::Value) -> (r: ParametersBuilder)
        ensures
            r == (ParametersBuilder { presence_penalty: Some(Some(value)), ..self }),
    {
        ParametersBuilder { presence_penalty: Some(Some(value)), ..self }
    }

    /// Sets `vl_high_resolution_images`.
    pub fn vl_high_resolution_images(self, value: bool) -> (r: ParametersBuilder)
        ensures
            r == (ParametersBuilder { vl_high_resolution_images: Some(Some(value)), ..self }),
    {
        ParametersBuilder { vl_high_resolution_images: Some(Some(value)), ..self }
    }

    /// Sets `vl_enable_image_hw_output`.
    pub fn vl_enable_image_hw_output(self, value: bool) -> (r: ParametersBuilder)
        ensures
            r == (ParametersBuilder { vl_enable_image_hw_output: Some(Some(value)), ..self }),
    {
        ParametersBuilder { vl_enable_image_hw_output: Some(Some(value)), ..self }
    }

    /// The first member that must be set and is not, if there is one.
    pub open spec fn missing(self) -> Option<Seq<char>> {
        None
    }

    /// Builds the parameter set: each member is the one that was set, or its standing
    /// value where none was. Fails on the first member that must be set and is not.
    pub fn build(self) -> (r: Result<Parameters, BuilderError>)
        ensures
            match r {
                Ok(t) => {
                    &&& self.missing() is None
                    &&& t.result_format == (match self.result_format {
                        Some(x) => x,
                        None => None,
                    })
                    &&& t.translation_options == (match self.translation_options {
                        Some(x) => x,
                        None => None,
                    })
                    &&& t.incremental_output == (match self.incremental_output {
                        Some(x) => x,
                        None => None,
                    })
                    &&& t.tools == (match self.tools {
                        Some(x) => x,
                        None => None,
                    })
                    &&& t.parallel_tool_calls == (match self.parallel_tool_calls {
                        Some(x) => x,
                        None => None,
                    })
                    &&& t.thinking_budget == (match self.thinking_budget {
                        Some(x) => x,
                        None => None,
                    })
                    &&& t.enable_search == (match self.enable_search {
                        Some(x) => x,
                        None => None,
                    })
                    &&& t.search_options == (match self.search_options {
                        Some(x) => x,
                        None => None,
                    })
                    &&& t.enable_thinking == (match self.enable_thinking {
                        Some(x) => x,
                        None => None,
                    })
                    &&& t.response_format == (match self.response_format {
                        Some(x) => x,
                        None => None,
                    })
                    &&& t.repetition_penalty == (match self.repetition_penalty {
                        Some(x) => x,
                        None => None,
                    })
                    &&& t.presence_penalty == (match self.presence_penalty {
                        Some(x) => x,
                        None => None,
                    })
                    &&& t.vl_high_resolution_images == (match self.vl_high_resolution_images {
                        Some(x) => x,
                        None => None,
                    })
                    &&& t.vl_enable_image_hw_output == (match self.vl_enable_image_hw_output {
                        Some(x) => x,
                        None => None,
                    })
                },
                Err(e) => self.missing() == Some(e.field()),
            },
    {
        let result_format = match self.result_format {
            Some(x) => x,
            None => None,
        };
        let translation_options = match self.translation_options {
            Some(x) => x,
            None => None,
        };
        let incremental_output = match self.incremental_output {
            Some(x) => x,
            None => None,
        };
        let tools = match self.tools {
            Some(x) => x,
            None => None,
        };
        let parallel_tool_calls = match self.parallel_tool_calls {
            Some(x) => x,
            None => None,
        };
        let thinking_budget = match self.thinking_budget {
            Some(x) => x,
            None => None,
        };
        let enable_search = match self.enable_search {
            Some(x) => x,
            None => None,
        };
        let search_options = match self.search_options {
            Some(x) => x,
            None => None,
        };
        let enable_thinking = match self.enable_thinking {
            Some(x) => x,
            None => None,
        };
        let response_format = match self.response_format {
            Some(x) => x,
            None => None,
        };
        let repetition_penalty = match self.repetition_penalty {
            Some(x) => x,
            None => None,
        };
        let presence_penalty = match self.presence_penalty {
            Some(x) => x,
            None => None,
        };
        let vl_high_resolution_images = match self.vl_high_resolution_images {
            Some(x) => x,
            None => None,
        };
        let vl_enable_image_hw_output = match self.vl_enable_image_hw_output {
            Some(x) => x,
            None => None,
        };
        Ok(Parameters { result_format, translation_options, incremental_output, tools, parallel_tool_calls, thinking_budget, enable_search, search_options, enable_thinking, response_format, repetition_penalty, presence_penalty, vl_high_resolution_images, vl_enable_image_hw_output })
    }
}

impl ParametersBuilder {
    /// Sets the tools; another name for `tools`.
    pub fn functions(self, value: Vec<FunctionCall>) -> (r: ParametersBuilder)
        ensures
            r == (ParametersBuilder { tools: Some(Some(value)), ..self }),
    {
        self.tools(value)
    }
}

/// How the tokens of the prompt divide.
#[derive(Debug, Clone, PartialEq, Eq)]
pub struct PromptTokensDetails {
    /// The tokens that hit the cache.
    pub prompt_tokens: Option<i32>,
}

/// The content of a [`PromptTokensDetails`].
pub struct PromptTokensDetailsView {
    pub prompt_tokens: Option<i32>,
}

impl View for PromptTokensDetails {
    type V = PromptTokensDetailsView;

    open spec fn view(&self) -> PromptTokensDetailsView {
        PromptTokensDetailsView {
            prompt_tokens: self.prompt_tokens,
        }
    }
}

impl PromptTokensDetailsView {
    /// The detail that a wire value holds, if it has the shape of one.
    pub open spec fn from_json(j: JsonValue) -> Option<PromptTokensDetailsView> {
        let prompt_tokens = j.opt_i32("prompt_tokens"@);
        if j is Object
            && prompt_tokens is Some {
            Some(
                PromptTokensDetailsView {
                    prompt_tokens: prompt_tokens->0,
                },
            )
        } else {
            None
        }
    }

    /// The required member `key`, read as a detail.
    pub open spec fn required(j: JsonValue, key: Seq<char>) -> Option<PromptTokensDetailsView> {
        match j.field(key) {
            Some(c) => PromptTokensDetailsView::from_json(c),
            None => None,
        }
    }

    /// The optional member `key`, read as a detail; the outer `None` is a mismatch.
    pub open spec fn optional(j: JsonValue, key: Seq<char>) -> Option<Option<PromptTokensDetailsView>> {
        match j.member(key) {
            None => Some(None),
            Some(c) => match PromptTokensDetailsView::from_json(c) {
                Some(x) => Some(Some(x)),
                None => None,
            },
        }
    }
}

impl PromptTokensDetails {
    /// Reads a detail out of a wire value.
    pub fn from_value(v: &serde_json::Value) -> (r: Option<PromptTokensDetails>)
        ensures
            match r {
                Some(t) => PromptTokensDetailsView::from_json(value_model(*v)) == Some(t@),
                None => PromptTokensDetailsView::from_json(value_model(*v)) is None,
            },
    {
        if !value_is_object(v) {
            return None;
        }
        let prompt_tokens = match read_opt_i32(v, "prompt_tokens") {
            Ok(x) => x,
            Err(_) => return None,
        };
        Some(PromptTokensDetails { prompt_tokens })
    }

    /// Reads the required member `key` as a detail.
    pub fn read_required(v: &serde_json::Value, key: &str) -> (r: Option<PromptTokensDetails>)
        ensures
            match r {
                Some(t) => PromptTokensDetailsView::required(value_model(*v), key@) == Some(t@),
                None => PromptTokensDetailsView::required(value_model(*v), key@) is None,
            },
    {
        match value_get(v, key) {
            Some(c) => PromptTokensDetails::from_value(c),
            None => None,
        }
    }

    /// Reads the optional member `key` as a detail; `Err` is a mismatch.
    pub fn read_optional(v: &serde_json::Value, key: &str) -> (r: Result<Option<PromptTokensDetails>, ()>)
        ensures
            match r {
                Ok(o) => PromptTokensDetailsView::optional(value_model(*v), key@) == Some(
                    match o {
                        Some(t) => Some(t@),
                        None => None,
                    },
                ),
                Err(_) => PromptTokensDetailsView::optional(value_model(*v), key@) is None,
            },
    {
        match read_member(v, key) {
            None => Ok(None),
            Some(c) => match PromptTokensDetails::from_value(c) {
                Some(t) => Ok(Some(t)),
                None => Err(()),
            },
        }
    }
}

/// How the tokens of an audio input divide.
#[derive(Debug, Clone, PartialEq, Eq)]
pub struct InputTokensDetails {
    pub text_tokens: Option<i32>,
}

/// The content of an [`InputTokensDetails`].
pub struct InputTokensDetailsView {
    pub text_tokens: Option<i32>,
}

impl View for InputTokensDetails {
    type V = InputTokensDetailsView;

    open spec fn view(&self) -> InputTokensDetailsView {
        InputTokensDetailsView {
            text_tokens: self.text_tokens,
        }
    }
}

impl InputTokensDetailsView {
    /// The detail that a wire value holds, if it has the shape of one.
    pub open spec fn from_json(j: JsonValue) -> Option<InputTokensDetailsView> {
        let text_tokens = j.opt_i32("text_tokens"@);
        if j is Object
            && text_tokens is Some {
            Some(
                InputTokensDetailsView {
                    text_tokens: text_tokens->0,
                },
            )
        } else {
            None
        }
    }

    /// The required member `key`, read as a detail.
    pub open spec fn required(j: JsonValue, key: Seq<char>) -> Option<InputTokensDetailsView> {
        match j.field(key) {
            Some(c) => InputTokensDetailsView::from_json(c),
            None => None,
        }
    }

    /// The optional member `key`, read as a detail; the outer `None` is a mismatch.
    pub open spec fn optional(j: JsonValue, key: Seq<char>) -> Option<Option<InputTokensDetailsView>> {
        match j.member(key) {
            None => Some(None),
            Some(c) => match InputTokensDetailsView::from_json(c) {
                Some(x) => Some(Some(x)),
                None => None,
            },
        }
    }
}

impl InputTokensDetails {
    /// Reads a detail out of a wire value.
    pub fn from_value(v: &serde_json::Value) -> (r: Option<InputTokensDetails>)
        ensures
            match r {
                Some(t) => InputTokensDetailsView::from_json(value_model(*v)) == Some(t@),
                None => InputTokensDetailsView::from_json(value_model(*v)) is None,
            },
    {
        if !value_is_object(v) {
            return None;
        }
        let text_tokens = match read_opt_i32(v, "text_tokens") {
            Ok(x) => x,
            Err(_) => return None,
        };
        Some(InputTokensDetails { text_tokens })
    }

    /// Reads the required member `key` as a detail.
    pub fn read_required(v: &serde_json::Value, key: &str) -> (r: Option<InputTokensDetails>)
        ensures
            match r {
                Some(t) => InputTokensDetailsView::required(value_model(*v), key@) == Some(t@),
                None => InputTokensDetailsView::required(value_model(*v), key@) is None,
            },
    {
        match value_get(v, key) {
            Some(c) => InputTokensDetails::from_value(c),
            None => None,
        }
    }

    /// Reads the optional member `key` as a detail; `Err` is a mismatch.
    pub fn read_optional(v: &serde_json::Value, key: &str) -> (r: Result<Option<InputTokensDetails>, ()>)
        ensures
            match r {
                Ok(o) => InputTokensDetailsView::optional(value_model(*v), key@) == Some(
                    match o {
                        Some(t) => Some(t@),
                        None => None,
                    },
                ),
                Err(_) => InputTokensDetailsView::optional(value_model(*v), key@) is None,
            },
    {
        match read_member(v, key) {
            None => Ok(None),
            Some(c) => match InputTokensDetails::from_value(c) {
                Some(t) => Ok(Some(t)),
                None => Err(()),
            },
        }
    }
}

/// How the tokens of an audio output divide.
#[derive(Debug, Clone, PartialEq, Eq)]
pub struct OutputTokensDetails {
    pub audio_tokens: Option<i32>,
    pub text_tokens: Option<i32>,
}

/// The content of an [`OutputTokensDetails`].
pub struct OutputTokensDetailsView {
    pub audio_tokens: Option<i32>,
    pub text_tokens: Option<i32>,
}

impl View for OutputTokensDetails {
    type V = OutputTokensDetailsView;

    open spec fn view(&self) -> OutputTokensDetailsView {
        OutputTokensDetailsView {
            audio_tokens: self.audio_tokens,
            text_tokens: self.text_tokens,
        }
    }
}

impl OutputTokensDetailsView {
    /// The detail that a wire value holds, if it has the shape of one.
    pub open spec fn from_json(j: JsonValue) -> Option<OutputTokensDetailsView> {
        let audio_tokens = j.opt_i32("audio_tokens"@);
        let text_tokens = j.opt_i32("text_tokens"@);
        if j is Object
            && audio_tokens is Some
            && text_tokens is Some {
            Some(
                OutputTokensDetailsView {
                    audio_tokens: audio_tokens->0,
                    text_tokens: text_tokens->0,
                },
            )
        } else {
            None
        }
    }

    /// The required member `key`, read as a detail.
    pub open spec fn required(j: JsonValue, key: Seq<char>) -> Option<OutputTokensDetailsView> {
        match j.field(key) {
            Some(c) => OutputTokensDetailsView::from_json(c),
            None => None,
        }
    }

    /// The optional member `key`, read as a detail; the outer `None` is a mismatch.
    pub open spec fn optional(j: JsonValue, key: Seq<char>) -> Option<Option<OutputTokensDetailsView>> {
        match j.member(key) {
            None => Some(None),
            Some(c) => match OutputTokensDetailsView::from_json(c) {
                Some(x) => Some(Some(x)),
                None => None,
            },
        }
    }
}

impl OutputTokensDetails {
    /// Reads a detail out of a wire value.
    pub fn from_value(v: &serde_json::Value) -> (r: Option<OutputTokensDetails>)
        ensures
            match r {
                Some(t) => OutputTokensDetailsView::from_json(value_model(*v)) == Some(t@),
                None => OutputTokensDetailsView::from_json(value_model(*v)) is None,
            },
    {
        if !value_is_object(v) {
            return None;
        }
        let audio_tokens = match read_opt_i32(v, "audio_tokens") {
            Ok(x) => x,
            Err(_) => return None,
        };
        let text_tokens = match read_opt_i32(v, "text_tokens") {
            Ok(x) => x,
            Err(_) => return None,
        };
        Some(OutputTokensDetails { audio_tokens, text_tokens })
    }

    /// Reads the required member `key` as a detail.
    pub fn read_required(v: &serde_json::Value, key: &str) -> (r: Option<OutputTokensDetails>)
        ensures
            match r {
                Some(t) => OutputTokensDetailsView::required(value_model(*v), key@) == Some(t@),
                None => OutputTokensDetailsView::required(value_model(*v), key@) is None,
            },
    {
        match value_get(v, key) {
            Some(c) => OutputTokensDetails::from_value(c),
            None => None,
        }
    }

    /// Reads the optional member `key` as a detail; `Err` is a mismatch.
    pub fn read_optional(v: &serde_json::Value, key: &str) -> (r: Result<Option<OutputTokensDetails>, ()>)
        ensures
            match r {
                Ok(o) => OutputTokensDetailsView::optional(value_model(*v), key@) == Some(
                    match o {
                        Some(t) => Some(t@),
                        None => None,
                    },
                ),
                Err(_) => OutputTokensDetailsView::optional(value_model(*v), key@) is None,
            },
    {
        match read_member(v, key) {
            None => Ok(None),
            Some(c) => match OutputTokensDetails::from_value(c) {
                Some(t) => Ok(Some(t)),
                None => Err(()),
            },
        }
    }
}

/// The tokens that a request has used.
#[derive(Debug, Clone, PartialEq, Eq)]
pub struct Usage {
    pub input_tokens: Option<i32>,
    pub output_tokens: Option<i32>,
    pub total_tokens: Option<i32>,
    pub image_tokens: Option<i32>,
    pub video_tokens: Option<i32>,
    pub audio_tokens: Option<i32>,
    pub prompt_tokens_details: Option<PromptTokensDetails>,
    pub input_tokens_details: Option<InputTokensDetails>,
    pub output_tokens_details: Option<OutputTokensDetails>,
}

/// The content of a [`Usage`].
pub struct UsageView {
    pub input_tokens: Option<i32>,
    pub output_tokens: Option<i32>,
    pub total_tokens: Option<i32>,
    pub image_tokens: Option<i32>,
    pub video_tokens: Option<i32>,
    pub audio_tokens: Option<i32>,
    pub prompt_tokens_details: Option<PromptTokensDetailsView>,
    pub input_tokens_details: Option<InputTokensDetailsView>,
    pub output_tokens_details: Option<OutputTokensDetailsView>,
}

impl View for Usage {
    type V = UsageView;

    open spec fn view(&self) -> UsageView {
        UsageView {
            input_tokens: self.input_tokens,
            output_tokens: self.output_tokens,
            total_tokens: self.total_tokens,
            image_tokens: self.image_tokens,
            video_tokens: self.video_tokens,
            audio_tokens: self.audio_tokens,
            prompt_tokens_details: match self.prompt_tokens_details {
                Some(x) => Some(x@),
                None => None,
            },
            input_tokens_details: match self.input_tokens_details {
                Some(x) => Some(x@),
                None => None,
            },
            output_tokens_details: match self.output_tokens_details {
                Some(x) => Some(x@),
                None => None,
            },
        }
    }
}

impl UsageView {
    /// The usage that a wire value holds, if it has the shape of one.
    pub open spec fn from_json(j: JsonValue) -> Option<UsageView> {
        let input_tokens = j.opt_i32("input_tokens"@);
        let output_tokens = j.opt_i32("output_tokens"@);
        let total_tokens = j.opt_i32("total_tokens"@);
        let image_tokens = j.opt_i32("image_tokens"@);
        let video_tokens = j.opt_i32("video_tokens"@);
        let audio_tokens = j.opt_i32("audio_tokens"@);
        let prompt_tokens_details = PromptTokensDetailsView::optional(j, "prompt_tokens_details"@);
        let input_tokens_details = InputTokensDetailsView::optional(j, "input_tokens_details"@);
        let output_tokens_details = OutputTokensDetailsView::optional(j, "output_tokens_details"@);
        if j is Object
            && input_tokens is Some
            && output_tokens is Some
            && total_tokens is Some
            && image_tokens is Some
            && video_tokens is Some
            && audio_tokens is Some
            && prompt_tokens_details is Some
            && input_tokens_details is Some
            && output_tokens_details is Some {
            Some(
                UsageView {
                    input_tokens: input_tokens->0,
                    output_tokens: output_tokens->0,
                    total_tokens: total_tokens->0,
                    image_tokens: image_tokens->0,
                    video_tokens: video_tokens->0,
                    audio_tokens: audio_tokens->0,
                    prompt_tokens_details: prompt_tokens_details->0,
                    input_tokens_details: input_tokens_details->0,
                    output_tokens_details: output_tokens_details->0,
                },
            )
        } else {
            None
        }
    }

    /// The required member `key`, read as a usage.
    pub open spec fn required(j: JsonValue, key: Seq<char>) -> Option<UsageView> {
        match j.field(key) {
            Some(c) => UsageView::from_json(c),
            None => None,
        }
    }

    /// The optional member `key`, read as a usage; the outer `None` is a mismatch.
    pub open spec fn optional(j: JsonValue, key: Seq<char>) -> Option<Option<UsageView>> {
        match j.member(key) {
            None => Some(None),
            Some(c) => match UsageView::from_json(c) {
                Some(x) => Some(Some(x)),
                None => None,
            },
        }
    }
}

impl Usage {
    /// Reads a usage out of a wire value.
    pub fn from_value(v: &serde_json::Value) -> (r: Option<Usage>)
        ensures
            match r {
                Some(t) => UsageView::from_json(value_model(*v)) == Some(t@),
                None => UsageView::from_json(value_model(*v)) is None,
            },
    {
        if !value_is_object(v) {
            return None;
        }
        let input_tokens = match read_opt_i32(v, "input_tokens") {
            Ok(x) => x,
            Err(_) => return None,
        };
        let output_tokens = match read_opt_i32(v, "output_tokens") {
            Ok(x) => x,
            Err(_) => return None,
        };
        let total_tokens = match read_opt_i32(v, "total_tokens") {
            Ok(x) => x,
            Err(_) => return None,
        };
        let image_tokens = match read_opt_i32(v, "image_tokens") {
            Ok(x) => x,
            Err(_) => return None,
        };
        let video_tokens = match read_opt_i32(v, "video_tokens") {
            Ok(x) => x,
            Err(_) => return None,
        };
        let audio_tokens = match read_opt_i32(v, "audio_tokens") {
            Ok(x) => x,
            Err(_) => return None,
        };
        let prompt_tokens_details = match PromptTokensDetails::read_optional(v, "prompt_tokens_details") {
            Ok(x) => x,
            Err(_) => return None,
        };
        let input_tokens_details = match InputTokensDetails::read_optional(v, "input_tokens_details") {
            Ok(x) => x,
            Err(_) => return None,
        };
        let output_tokens_details = match OutputTokensDetails::read_optional(v, "output_tokens_details") {
            Ok(x) => x,
            Err(_) => return None,
        };
        Some(Usage { input_tokens, output_tokens, total_tokens, image_tokens, video_tokens, audio_tokens, prompt_tokens_details, input_tokens_details, output_tokens_details })
    }

    /// Reads the required member `key` as a usage.
    pub fn read_required(v: &serde_json::Value, key: &str) -> (r: Option<Usage>)
        ensures
            match r {
                Some(t) => UsageView::required(value_model(*v), key@) == Some(t@),
                None => UsageView::required(value_model(*v), key@) is None,
            },
    {
        match value_get(v, key) {
            Some(c) => Usage::from_value(c),
            None => None,
        }
    }

    /// Reads the optional member `key` as a usage; `Err` is a mismatch.
    pub fn read_optional(v: &serde_json::Value, key: &str) -> (r: Result<Option<Usage>, ()>)
        ensures
            match r {
                Ok(o) => UsageView::optional(value_model(*v), key@) == Some(
                    match o {
                        Some(t) => Some(t@),
                        None => None,
                    },
                ),
                Err(_) => UsageView::optional(value_model(*v), key@) is None,
            },
    {
        match read_member(v, key) {
            None => Ok(None),
            Some(c) => match Usage::from_value(c) {
                Some(t) => Ok(Some(t)),
                None => Err(()),
            },
        }
    }
}

} // verus!
