//! The request of speech synthesis.

use crate::body::not_written;
use crate::error::DashScopeError;
use crate::json::{JsonValue, render_value, rendered, value_model, value_object};
use crate::operation::common::{Parameters, ParametersView};
use crate::operation::request::RequestTrait;
use crate::wire::{
    boolean_json, boolean_value, optional_model, or_null, put, put_opt, put_or_null, put_text,
    text_json, text_value, text_view,
};
use vstd::prelude::*;

verus! {

/// The text to speak, and the voice to speak it in.
#[derive(Debug, Clone, PartialEq, Eq)]
pub struct Input {
    pub text: String,
    /// The voice, such as `Cherry` or `Ethan`.
    pub voice: String,
    /// The language of the text; `Auto` where it is absent.
    pub language_type: Option<String>,
}

/// The content of an [`Input`].
pub struct InputView {
    pub text: Seq<char>,
    pub voice: Seq<char>,
    pub language_type: Option<Seq<char>>,
}

impl View for Input {
    type V = InputView;

    open spec fn view(&self) -> InputView {
        InputView {
            text: self.text@,
            voice: self.voice@,
            language_type: text_view(self.language_type),
        }
    }
}

impl InputView {
    /// The wire value of this input.
    pub open spec fn to_json(self) -> JsonValue {
        JsonValue::empty_object().with("text"@, JsonValue::Text(self.text)).with("voice"@, JsonValue::Text(self.voice)).with("language_type"@, or_null(text_json(self.language_type)))
    }

    /// The wire value of an optional input.
    pub open spec fn optional_json(o: Option<InputView>) -> Option<JsonValue> {
        match o {
            Some(x) => Some(x.to_json()),
            None => None,
        }
    }
}

impl Input {
    /// Writes this input as a wire value.
    pub fn to_value(&self) -> (r: serde_json::Value)
        ensures
            value_model(r) == self@.to_json(),
    {
        let mut obj = value_object();
        put_text(&mut obj, "text", self.text.as_str());
        put_text(&mut obj, "voice", self.voice.as_str());
        put_or_null(&mut obj, "language_type", text_value(&self.language_type));
        obj
    }

    /// An optional input as an optional wire value.
    pub fn optional_value(o: &Option<Input>) -> (r: Option<serde_json::Value>)
        ensures
            optional_model(r) == InputView::optional_json(
                match o {
                    Some(t) => Some(t@),
                    None => None,
                },
            ),
    {
        match o {
            Some(t) => Some(t.to_value()),
            None => None,
        }
    }
}

/// A request to synthesise speech.
#[derive(Debug, Clone, PartialEq)]
pub struct TextToSpeechParam {
    pub model: String,
    pub input: Input,
    /// Whether the audio is to be streamed.
    pub stream: Option<bool>,
    /// Not read by the service; kept so that the request has the shape of the
    /// others.
    pub parameters: Option<Parameters>,
}

/// The content of a [`TextToSpeechParam`].
pub struct TextToSpeechParamView {
    pub model: Seq<char>,
    pub input: InputView,
    pub stream: Option<bool>,
    pub parameters: Option<ParametersView>,
}

impl View for TextToSpeechParam {
    type V = TextToSpeechParamView;

    open spec fn view(&self) -> TextToSpeechParamView {
        TextToSpeechParamView {
            model: self.model@,
            input: self.input@,
            stream: self.stream,
            parameters: match self.parameters {
                Some(x) => Some(x@),
                None => None,
            },
        }
    }
}

impl TextToSpeechParamView {
    /// The wire value of this request.
    pub open spec fn to_json(self) -> JsonValue {
        JsonValue::empty_object().with("model"@, JsonValue::Text(self.model)).with("input"@, self.input.to_json()).with_opt("stream"@, boolean_json(self.stream)).with_opt("parameters"@, ParametersView::optional_json(self.parameters))
    }
}

impl TextToSpeechParam {
    /// Writes this request as a wire value.
    pub fn to_value(&self) -> (r: serde_json::Value)
        ensures
            value_model(r) == self@.to_json(),
    {
        let mut obj = value_object();
        put_text(&mut obj, "model", self.model.as_str());
        put(&mut obj, "input", self.input.to_value());
        put_opt(&mut obj, "stream", boolean_value(self.stream));
        put_opt(&mut obj, "parameters", Parameters::optional_value(&self.parameters));
        obj
    }

    /// Writes this request as the text of a body: the rendering of its wire
    /// value. Writing never fails.
    pub fn encode(&self) -> (r: Result<String, DashScopeError>)
        ensures
            r is Ok,
            r matches Ok(s) ==> s@ == rendered(self@.to_json()),
    {
        match render_value(&self.to_value()) {
            Ok(s) => Ok(s),
            Err(e) => Err(not_written(&e)),
        }
    }
}

impl RequestTrait for TextToSpeechParam {
    type P = Parameters;

    open spec fn model_text(&self) -> Seq<char> {
        self.model@
    }

    open spec fn shared_parameters(&self) -> Option<Parameters> {
        None
    }

    fn model(&self) -> (r: &str) {
        self.model.as_str()
    }

    fn parameters(&self) -> (r: Option<&Parameters>) {
        None
    }
}

} // verus!
