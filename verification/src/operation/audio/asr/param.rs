//! The parameters of speech recognition and the commands that carry them.

use crate::body::not_written;
use crate::error::DashScopeError;
use crate::json::{
    JsonValue, models, render_value, rendered, value_array, value_model, value_object,
};
use crate::operation::common::Parameters;
use crate::operation::request::RequestTrait;
use crate::wire::{
    boolean_json, boolean_value, int_json, opt_texts_view, optional_model, put, put_opt, put_text,
    put_uint, text_json, text_value, text_view, texts_json, texts_value, u32_json, u32_value,
};
use vstd::prelude::*;

verus! {

/// The input of a recognition task on the socket: an object without members.
#[derive(Debug, Clone, PartialEq, Eq)]
pub struct AsrInput {
}

/// The content of an [`AsrInput`].
pub struct AsrInputView {
}

impl View for AsrInput {
    type V = AsrInputView;

    open spec fn view(&self) -> AsrInputView {
        AsrInputView {
        }
    }
}

impl AsrInputView {
    /// The wire value of this input.
    pub open spec fn to_json(self) -> JsonValue {
        JsonValue::empty_object()
    }

    /// The wire value of an optional input.
    pub open spec fn optional_json(o: Option<AsrInputView>) -> Option<JsonValue> {
        match o {
            Some(x) => Some(x.to_json()),
            None => None,
        }
    }
}

impl AsrInput {
    /// Writes this input as a wire value.
    pub fn to_value(&self) -> (r: serde_json::Value)
        ensures
            value_model(r) == self@.to_json(),
    {
        let mut obj = value_object();
        obj
    }

    /// An optional input as an optional wire value.
    pub fn optional_value(o: &Option<AsrInput>) -> (r: Option<serde_json::Value>)
        ensures
            optional_model(r) == AsrInputView::optional_json(
                match o {
                    Some(t) => Some(t@),
                    None => None,
                },
            ),
    {
        match o {
            Some(t) => Some(t.to_value()),
            None => None,
        }
    }
}

/// The parameters of a recognition task.
#[derive(Debug, Clone, PartialEq, Eq)]
pub struct AsrParameters {
    /// The audio format: pcm, wav, mp3, opus, speex, aac or amr.
    pub format: String,
    /// The sample rate in Hz.
    pub sample_rate: u32,
    pub vocabulary_id: Option<String>,
    pub disfluency_removal_enabled: Option<bool>,
    pub language_hints: Option<Vec<String>>,
    pub semantic_punctuation_enabled: Option<bool>,
    pub max_sentence_silence: Option<u32>,
    pub multi_threshold_mode_enabled: Option<bool>,
    pub punctuation_prediction_enabled: Option<bool>,
    pub heartbeat: Option<bool>,
    pub inverse_text_normalization_enabled: Option<bool>,
}

/// The content of an [`AsrParameters`].
pub struct AsrParametersView {
    pub format: Seq<char>,
    pub sample_rate: u32,
    pub vocabulary_id: Option<Seq<char>>,
    pub disfluency_removal_enabled: Option<bool>,
    pub language_hints: Option<Seq<Seq<char>>>,
    pub semantic_punctuation_enabled: Option<bool>,
    pub max_sentence_silence: Option<u32>,
    pub multi_threshold_mode_enabled: Option<bool>,
    pub punctuation_prediction_enabled: Option<bool>,
    pub heartbeat: Option<bool>,
    pub inverse_text_normalization_enabled: Option<bool>,
}

impl View for AsrParameters {
    type V = AsrParametersView;

    open spec fn view(&self) -> AsrParametersView {
        AsrParametersView {
            format: self.format@,
            sample_rate: self.sample_rate,
            vocabulary_id: text_view(self.vocabulary_id),
            disfluency_removal_enabled: self.disfluency_removal_enabled,
            language_hints: opt_texts_view(self.language_hints),
            semantic_punctuation_enabled: self.semantic_punctuation_enabled,
            max_sentence_silence: self.max_sentence_silence,
            multi_threshold_mode_enabled: self.multi_threshold_mode_enabled,
            punctuation_prediction_enabled: self.punctuation_prediction_enabled,
            heartbeat: self.heartbeat,
            inverse_text_normalization_enabled: self.inverse_text_normalization_enabled,
        }
    }
}

impl AsrParametersView {
    /// The wire value of this parameter set.
    pub open spec fn to_json(self) -> JsonValue {
        JsonValue::empty_object().with("format"@, JsonValue::Text(self.format)).with("sample_rate"@, int_json(self.sample_rate as int)).with_opt("vocabulary_id"@, text_json(self.vocabulary_id)).with_opt("disfluency_removal_enabled"@, boolean_json(self.disfluency_removal_enabled)).with_opt("language_hints"@, texts_json(self.language_hints)).with_opt("semantic_punctuation_enabled"@, boolean_json(self.semantic_punctuation_enabled)).with_opt("max_sentence_silence"@, u32_json(self.max_sentence_silence)).with_opt("multi_threshold_mode_enabled"@, boolean_json(self.multi_threshold_mode_enabled)).with_opt("punctuation_prediction_enabled"@, boolean_json(self.punctuation_prediction_enabled)).with_opt("heartbeat"@, boolean_json(self.heartbeat)).with_opt("inverse_text_normalization_enabled"@, boolean_json(self.inverse_text_normalization_enabled))
    }

    /// The wire value of an optional parameter set.
    pub open spec fn optional_json(o: Option<AsrParametersView>) -> Option<JsonValue> {
        match o {
            Some(x) => Some(x.to_json()),
            None => None,
        }
    }
}

impl AsrParameters {
    /// Writes this parameter set as a wire value.
    pub fn to_value(&self) -> (r: serde_json::Value)
        ensures
            value_model(r) == self@.to_json(),
    {
        let mut obj = value_object();
        put_text(&mut obj, "format", self.format.as_str());
        put_uint(&mut obj, "sample_rate", self.sample_rate as u64);
        put_opt(&mut obj, "vocabulary_id", text_value(&self.vocabulary_id));
        put_opt(&mut obj, "disfluency_removal_enabled", boolean_value(self.disfluency_removal_enabled));
        put_opt(&mut obj, "language_hints", texts_value(&self.language_hints));
        put_opt(&mut obj, "semantic_punctuation_enabled", boolean_value(self.semantic_punctuation_enabled));
        put_opt(&mut obj, "max_sentence_silence", u32_value(self.max_sentence_silence));
        put_opt(&mut obj, "multi_threshold_mode_enabled", boolean_value(self.multi_threshold_mode_enabled));
        put_opt(&mut obj, "punctuation_prediction_enabled", boolean_value(self.punctuation_prediction_enabled));
        put_opt(&mut obj, "heartbeat", boolean_value(self.heartbeat));
        put_opt(&mut obj, "inverse_text_normalization_enabled", boolean_value(self.inverse_text_normalization_enabled));
        obj
    }

    /// An optional parameter set as an optional wire value.
    pub fn optional_value(o: &Option<AsrParameters>) -> (r: Option<serde_json::Value>)
        ensures
            optional_model(r) == AsrParametersView::optional_json(
                match o {
                    Some(t) => Some(t@),
                    None => None,
                },
            ),
    {
        match o {
            Some(t) => Some(t.to_value()),
            None => None,
        }
    }
}

/// A resource that a recognition task uses, such as a vocabulary.
#[derive(Debug, Clone, PartialEq, Eq)]
pub struct AsrResource {
    pub resource_id: String,
    pub resource_type: String,
}

/// The content of an [`AsrResource`].
pub struct AsrResourceView {
    pub resource_id: Seq<char>,
    pub resource_type: Seq<char>,
}

impl View for AsrResource {
    type V = AsrResourceView;

    open spec fn view(&self) -> AsrResourceView {
        AsrResourceView {
            resource_id: self.resource_id@,
            resource_type: self.resource_type@,
        }
    }
}

impl AsrResourceView {
    /// The wire value of this resource.
    pub open spec fn to_json(self) -> JsonValue {
        JsonValue::empty_object().with("resource_id"@, JsonValue::Text(self.resource_id)).with("resource_type"@, JsonValue::Text(self.resource_type))
    }

    /// The wire array of a run.
    pub open spec fn seq_to_json(ts: Seq<AsrResourceView>) -> JsonValue {
        JsonValue::Array(Seq::new(ts.len(), |i: int| ts[i].to_json()))
    }

    /// The wire value of an optional run.
    pub open spec fn optional_seq_json(o: Option<Seq<AsrResourceView>>) -> Option<JsonValue> {
        match o {
            Some(ts) => Some(AsrResourceView::seq_to_json(ts)),
            None => None,
        }
    }
}

impl AsrResource {
    /// The contents of a run of these.
    pub open spec fn seq_view(ts: Seq<AsrResource>) -> Seq<AsrResourceView> {
        Seq::new(ts.len(), |i: int| ts[i]@)
    }

    /// Writes this resource as a wire value.
    pub fn to_value(&self) -> (r: serde_json::Value)
        ensures
            value_model(r) == self@.to_json(),
    {
        let mut obj = value_object();
        put_text(&mut obj, "resource_id", self.resource_id.as_str());
        put_text(&mut obj, "resource_type", self.resource_type.as_str());
        obj
    }

    /// Writes a run as a wire array.
    pub fn write_seq(ts: &Vec<AsrResource>) -> (r: serde_json::Value)
        ensures
            value_model(r) == AsrResourceView::seq_to_json(AsrResource::seq_view(ts@)),
    {
        let mut items: Vec<serde_json::Value> = Vec::new();
        let mut i: usize = 0;
        while i < ts.len()
            invariant
                i <= ts.len(),
                items@.len() == i,
                forall|k: int|
                    0 <= k < i ==> value_model(#[trigger] items@[k]) == ts@[k]@.to_json(),
            decreases ts.len() - i,
        {
            items.push(ts[i].to_value());
            i += 1;
        }
        proof {
            assert(models(items@) =~= Seq::new(
                ts@.len(),
                |i: int| AsrResource::seq_view(ts@)[i].to_json(),
            ));
        }
        value_array(items)
    }

    /// An optional run as an optional wire value.
    pub fn optional_seq_value(o: &Option<Vec<AsrResource>>) -> (r: Option<serde_json::Value>)
        ensures
            optional_model(r) == AsrResourceView::optional_seq_json(
                match o {
                    Some(ts) => Some(AsrResource::seq_view(ts@)),
                    None => None,
                },
            ),
    {
        match o {
            Some(ts) => Some(AsrResource::write_seq(ts)),
            None => None,
        }
    }
}

/// What a caller gives to have speech recognised.
#[derive(Debug, Clone, PartialEq, Eq)]
pub struct AutomaticSpeechRecognitionParam {
    pub model: String,
    pub input: AsrInput,
    pub parameters: Option<AsrParameters>,
    pub resources: Option<Vec<AsrResource>>,
}

/// The content of an [`AutomaticSpeechRecognitionParam`].
pub struct AutomaticSpeechRecognitionParamView {
    pub model: Seq<char>,
    pub input: AsrInputView,
    pub parameters: Option<AsrParametersView>,
    pub resources: Option<Seq<AsrResourceView>>,
}

impl View for AutomaticSpeechRecognitionParam {
    type V = AutomaticSpeechRecognitionParamView;

    open spec fn view(&self) -> AutomaticSpeechRecognitionParamView {
        AutomaticSpeechRecognitionParamView {
            model: self.model@,
            input: self.input@,
            parameters: match self.parameters {
                Some(x) => Some(x@),
                None => None,
            },
            resources: match self.resources {
                Some(x) => Some(AsrResource::seq_view(x@)),
                None => None,
            },
        }
    }
}

impl AutomaticSpeechRecognitionParamView {
    /// The wire value of this request.
    pub open spec fn to_json(self) -> JsonValue {
        JsonValue::empty_object().with("model"@, JsonValue::Text(self.model)).with("input"@, self.input.to_json()).with_opt("parameters"@, AsrParametersView::optional_json(self.parameters)).with_opt("resources"@, AsrResourceView::optional_seq_json(self.resources))
    }
}

impl AutomaticSpeechRecognitionParam {
    /// Writes this request as a wire value.
    pub fn to_value(&self) -> (r: serde_json::Value)
        ensures
            value_model(r) == self@.to_json(),
    {
        let mut obj = value_object();
        put_text(&mut obj, "model", self.model.as_str());
        put(&mut obj, "input", self.input.to_value());
        put_opt(&mut obj, "parameters", AsrParameters::optional_value(&self.parameters));
        put_opt(&mut obj, "resources", AsrResource::optional_seq_value(&self.resources));
        obj
    }

    /// Writes this request as the text of a body: the rendering of its wire
    /// value. Writing never fails.
    pub fn encode(&self) -> (r: Result<String, DashScopeError>)
        ensures
            r is Ok,
            r matches Ok(s) ==> s@ == rendered(self@.to_json()),
    {
        match render_value(&self.to_value()) {
            Ok(s) => Ok(s),
            Err(e) => Err(not_written(&e)),
        }
    }
}

/// The header of a command, with the action by its wire name.
#[derive(Debug, Clone, PartialEq, Eq)]
pub struct WebSocketHeader {
    /// `run-task` or `finish-task`.
    pub action: String,
    pub task_id: String,
    pub streaming: String,
}

/// The content of a [`WebSocketHeader`].
pub struct WebSocketHeaderView {
    pub action: Seq<char>,
    pub task_id: Seq<char>,
    pub streaming: Seq<char>,
}

impl View for WebSocketHeader {
    type V = WebSocketHeaderView;

    open spec fn view(&self) -> WebSocketHeaderView {
        WebSocketHeaderView {
            action: self.action@,
            task_id: self.task_id@,
            streaming: self.streaming@,
        }
    }
}

impl WebSocketHeaderView {
    /// The wire value of this header.
    pub open spec fn to_json(self) -> JsonValue {
        JsonValue::empty_object().with("action"@, JsonValue::Text(self.action)).with("task_id"@, JsonValue::Text(self.task_id)).with("streaming"@, JsonValue::Text(self.streaming))
    }

    /// The wire value of an optional header.
    pub open spec fn optional_json(o: Option<WebSocketHeaderView>) -> Option<JsonValue> {
        match o {
            Some(x) => Some(x.to_json()),
            None => None,
        }
    }
}

impl WebSocketHeader {
    /// Writes this header as a wire value.
    pub fn to_value(&self) -> (r: serde_json::Value)
        ensures
            value_model(r) == self@.to_json(),
    {
        let mut obj = value_object();
        put_text(&mut obj, "action", self.action.as_str());
        put_text(&mut obj, "task_id", self.task_id.as_str());
        put_text(&mut obj, "streaming", self.streaming.as_str());
        obj
    }

    /// An optional header as an optional wire value.
    pub fn optional_value(o: &Option<WebSocketHeader>) -> (r: Option<serde_json::Value>)
        ensures
            optional_model(r) == WebSocketHeaderView::optional_json(
                match o {
                    Some(t) => Some(t@),
                    None => None,
                },
            ),
    {
        match o {
            Some(t) => Some(t.to_value()),
            None => None,
        }
    }
}

/// The payload of the command that starts a recognition task.
#[derive(Debug, Clone, PartialEq, Eq)]
pub struct RunTaskPayload {
    pub task_group: String,
    pub task: String,
    pub function: String,
    pub model: String,
    pub parameters: Option<AsrParameters>,
    pub resources: Option<Vec<AsrResource>>,
    pub input: AsrInput,
}

/// The content of a [`RunTaskPayload`].
pub struct RunTaskPayloadView {
    pub task_group: Seq<char>,
    pub task: Seq<char>,
    pub function: Seq<char>,
    pub model: Seq<char>,
    pub parameters: Option<AsrParametersView>,
    pub resources: Option<Seq<AsrResourceView>>,
    pub input: AsrInputView,
}

impl View for RunTaskPayload {
    type V = RunTaskPayloadView;

    open spec fn view(&self) -> RunTaskPayloadView {
        RunTaskPayloadView {
            task_group: self.task_group@,
            task: self.task@,
            function: self.function@,
            model: self.model@,
            parameters: match self.parameters {
                Some(x) => Some(x@),
                None => None,
            },
            resources: match self.resources {
                Some(x) => Some(AsrResource::seq_view(x@)),
                None => None,
            },
            input: self.input@,
        }
    }
}

impl RunTaskPayloadView {
    /// The wire value of this payload.
    pub open spec fn to_json(self) -> JsonValue {
        JsonValue::empty_object().with("task_group"@, JsonValue::Text(self.task_group)).with("task"@, JsonValue::Text(self.task)).with("function"@, JsonValue::Text(self.function)).with("model"@, JsonValue::Text(self.model)).with_opt("parameters"@, AsrParametersView::optional_json(self.parameters)).with_opt("resources"@, AsrResourceView::optional_seq_json(self.resources)).with("input"@, self.input.to_json())
    }

    /// The wire value of an optional payload.
    pub open spec fn optional_json(o: Option<RunTaskPayloadView>) -> Option<JsonValue> {
        match o {
            Some(x) => Some(x.to_json()),
            None => None,
        }
    }
}

impl RunTaskPayload {
    /// Writes this payload as a wire value.
    pub fn to_value(&self) -> (r: serde_json::Value)
        ensures
            value_model(r) == self@.to_json(),
    {
        let mut obj = value_object();
        put_text(&mut obj, "task_group", self.task_group.as_str());
        put_text(&mut obj, "task", self.task.as_str());
        put_text(&mut obj, "function", self.function.as_str());
        put_text(&mut obj, "model", self.model.as_str());
        put_opt(&mut obj, "parameters", AsrParameters::optional_value(&self.parameters));
        put_opt(&mut obj, "resources", AsrResource::optional_seq_value(&self.resources));
        put(&mut obj, "input", self.input.to_value());
        obj
    }

    /// An optional payload as an optional wire value.
    pub fn optional_value(o: &Option<RunTaskPayload>) -> (r: Option<serde_json::Value>)
        ensures
            optional_model(r) == RunTaskPayloadView::optional_json(
                match o {
                    Some(t) => Some(t@),
                    None => None,
                },
            ),
    {
        match o {
            Some(t) => Some(t.to_value()),
            None => None,
        }
    }
}

/// The command that starts a recognition task.
#[derive(Debug, Clone, PartialEq, Eq)]
pub struct RunTaskCommand {
    pub header: WebSocketHeader,
    pub payload: RunTaskPayload,
}

/// The content of a [`RunTaskCommand`].
pub struct RunTaskCommandView {
    pub header: WebSocketHeaderView,
    pub payload: RunTaskPayloadView,
}

impl View for RunTaskCommand {
    type V = RunTaskCommandView;

    open spec fn view(&self) -> RunTaskCommandView {
        RunTaskCommandView {
            header: self.header@,
            payload: self.payload@,
        }
    }
}

impl RunTaskCommandView {
    /// The wire value of this command.
    pub open spec fn to_json(self) -> JsonValue {
        JsonValue::empty_object().with("header"@, self.header.to_json()).with("payload"@, self.payload.to_json())
    }
}

impl RunTaskCommand {
    /// Writes this command as a wire value.
    pub fn to_value(&self) -> (r: serde_json::Value)
        ensures
            value_model(r) == self@.to_json(),
    {
        let mut obj = value_object();
        put(&mut obj, "header", self.header.to_value());
        put(&mut obj, "payload", self.payload.to_value());
        obj
    }

    /// Writes this command as the text of a body: the rendering of its wire
    /// value. Writing never fails.
    pub fn encode(&self) -> (r: Result<String, DashScopeError>)
        ensures
            r is Ok,
            r matches Ok(s) ==> s@ == rendered(self@.to_json()),
    {
        match render_value(&self.to_value()) {
            Ok(s) => Ok(s),
            Err(e) => Err(not_written(&e)),
        }
    }
}

/// The payload of the command that ends the input of a task.
#[derive(Debug, Clone, PartialEq, Eq)]
pub struct FinishTaskPayload {
    pub input: AsrInput,
}

/// The content of a [`FinishTaskPayload`].
pub struct FinishTaskPayloadView {
    pub input: AsrInputView,
}

impl View for FinishTaskPayload {
    type V = FinishTaskPayloadView;

    open spec fn view(&self) -> FinishTaskPayloadView {
        FinishTaskPayloadView {
            input: self.input@,
        }
    }
}

impl FinishTaskPayloadView {
    /// The wire value of this payload.
    pub open spec fn to_json(self) -> JsonValue {
        JsonValue::empty_object().with("input"@, self.input.to_json())
    }

    /// The wire value of an optional payload.
    pub open spec fn optional_json(o: Option<FinishTaskPayloadView>) -> Option<JsonValue> {
        match o {
            Some(x) => Some(x.to_json()),
            None => None,
        }
    }
}

impl FinishTaskPayload {
    /// Writes this payload as a wire value.
    pub fn to_value(&self) -> (r: serde_json::Value)
        ensures
            value_model(r) == self@.to_json(),
    {
        let mut obj = value_object();
        put(&mut obj, "input", self.input.to_value());
        obj
    }

    /// An optional payload as an optional wire value.
    pub fn optional_value(o: &Option<FinishTaskPayload>) -> (r: Option<serde_json::Value>)
        ensures
            optional_model(r) == FinishTaskPayloadView::optional_json(
                match o {
                    Some(t) => Some(t@),
                    None => None,
                },
            ),
    {
        match o {
            Some(t) => Some(t.to_value()),
            None => None,
        }
    }
}

/// The command that ends the input of a task.
#[derive(Debug, Clone, PartialEq, Eq)]
pub struct FinishTaskCommand {
    pub header: WebSocketHeader,
    pub payload: FinishTaskPayload,
}

/// The content of a [`FinishTaskCommand`].
pub struct FinishTaskCommandView {
    pub header: WebSocketHeaderView,
    pub payload: FinishTaskPayloadView,
}

impl View for FinishTaskCommand {
    type V = FinishTaskCommandView;

    open spec fn view(&self) -> FinishTaskCommandView {
        FinishTaskCommandView {
            header: self.header@,
            payload: self.payload@,
        }
    }
}

impl FinishTaskCommandView {
    /// The wire value of this command.
    pub open spec fn to_json(self) -> JsonValue {
        JsonValue::empty_object().with("header"@, self.header.to_json()).with("payload"@, self.payload.to_json())
    }
}

impl FinishTaskCommand {
    /// Writes this command as a wire value.
    pub fn to_value(&self) -> (r: serde_json::Value)
        ensures
            value_model(r) == self@.to_json(),
    {
        let mut obj = value_object();
        put(&mut obj, "header", self.header.to_value());
        put(&mut obj, "payload", self.payload.to_value());
        obj
    }

    /// Writes this command as the text of a body: the rendering of its wire
    /// value. Writing never fails.
    pub fn encode(&self) -> (r: Result<String, DashScopeError>)
        ensures
            r is Ok,
            r matches Ok(s) ==> s@ == rendered(self@.to_json()),
    {
        match render_value(&self.to_value()) {
            Ok(s) => Ok(s),
            Err(e) => Err(not_written(&e)),
        }
    }
}

impl RequestTrait for AutomaticSpeechRecognitionParam {
    type P = Parameters;

    open spec fn model_text(&self) -> Seq<char> {
        self.model@
    }

    open spec fn shared_parameters(&self) -> Option<Parameters> {
        None
    }

    fn model(&self) -> (r: &str) {
        self.model.as_str()
    }

    fn parameters(&self) -> (r: Option<&Parameters>) {
        None
    }
}

} // verus!
