//! The request of the embedding service.

use crate::body::not_written;
use crate::error::DashScopeError;
use crate::json::{JsonValue, render_value, rendered, value_model, value_object};
use crate::operation::request::RequestTrait;
use crate::wire::{
    opt_texts_view, optional_model, or_null, put, put_opt, put_or_null, put_text, text_json,
    text_value, text_view, texts_json, texts_value, u16_json, u16_value,
};
use vstd::prelude::*;

verus! {

/// What is to be embedded: texts, an image or a video.
#[derive(Debug, Clone, PartialEq, Eq)]
pub struct EmbeddingsInput {
    pub texts: Option<Vec<String>>,
    /// The address of an image, or the image in base64.
    pub image: Option<String>,
    /// The address of a video.
    pub video: Option<String>,
}

/// The content of an [`EmbeddingsInput`].
pub struct EmbeddingsInputView {
    pub texts: Option<Seq<Seq<char>>>,
    pub image: Option<Seq<char>>,
    pub video: Option<Seq<char>>,
}

impl View for EmbeddingsInput {
    type V = EmbeddingsInputView;

    open spec fn view(&self) -> EmbeddingsInputView {
        EmbeddingsInputView {
            texts: opt_texts_view(self.texts),
            image: text_view(self.image),
            video: text_view(self.video),
        }
    }
}

impl EmbeddingsInputView {
    /// The wire value of this input.
    pub open spec fn to_json(self) -> JsonValue {
        JsonValue::empty_object().with_opt("texts"@, texts_json(self.texts)).with_opt("image"@, text_json(self.image)).with_opt("video"@, text_json(self.video))
    }

    /// The wire value of an optional input.
    pub open spec fn optional_json(o: Option<EmbeddingsInputView>) -> Option<JsonValue> {
        match o {
            Some(x) => Some(x.to_json()),
            None => None,
        }
    }
}

impl EmbeddingsInput {
    /// Writes this input as a wire value.
    pub fn to_value(&self) -> (r: serde_json::Value)
        ensures
            value_model(r) == self@.to_json(),
    {
        let mut obj = value_object();
        put_opt(&mut obj, "texts", texts_value(&self.texts));
        put_opt(&mut obj, "image", text_value(&self.image));
        put_opt(&mut obj, "video", text_value(&self.video));
        obj
    }

    /// An optional input as an optional wire value.
    pub fn optional_value(o: &Option<EmbeddingsInput>) -> (r: Option<serde_json::Value>)
        ensures
            optional_model(r) == EmbeddingsInputView::optional_json(
                match o {
                    Some(t) => Some(t@),
                    None => None,
                },
            ),
    {
        match o {
            Some(t) => Some(t.to_value()),
            None => None,
        }
    }
}

/// The parameters of an embedding. A member that is absent is written as
/// `null`.
#[derive(Debug, Clone, PartialEq, Eq)]
pub struct EmbeddingsParameters {
    /// The dimension of the vectors.
    pub dimension: Option<u16>,
    /// `dense`, `sparse` or `dense&sparse`.
    pub output_type: Option<String>,
    /// A description of the task.
    pub instruct: Option<String>,
}

/// The content of an [`EmbeddingsParameters`].
pub struct EmbeddingsParametersView {
    pub dimension: Option<u16>,
    pub output_type: Option<Seq<char>>,
    pub instruct: Option<Seq<char>>,
}

impl View for EmbeddingsParameters {
    type V = EmbeddingsParametersView;

    open spec fn view(&self) -> EmbeddingsParametersView {
        EmbeddingsParametersView {
            dimension: self.dimension,
            output_type: text_view(self.output_type),
            instruct: text_view(self.instruct),
        }
    }
}

impl EmbeddingsParametersView {
    /// The wire value of this parameter set.
    pub open spec fn to_json(self) -> JsonValue {
        JsonValue::empty_object().with("dimension"@, or_null(u16_json(self.dimension))).with("output_type"@, or_null(text_json(self.output_type))).with("instruct"@, or_null(text_json(self.instruct)))
    }

    /// The wire value of an optional parameter set.
    pub open spec fn optional_json(o: Option<EmbeddingsParametersView>) -> Option<JsonValue> {
        match o {
            Some(x) => Some(x.to_json()),
            None => None,
        }
    }
}

impl EmbeddingsParameters {
    /// Writes this parameter set as a wire value.
    pub fn to_value(&self) -> (r: serde_json::Value)
        ensures
            value_model(r) == self@.to_json(),
    {
        let mut obj = value_object();
        put_or_null(&mut obj, "dimension", u16_value(self.dimension));
        put_or_null(&mut obj, "output_type", text_value(&self.output_type));
        put_or_null(&mut obj, "instruct", text_value(&self.instruct));
        obj
    }

    /// An optional parameter set as an optional wire value.
    pub fn optional_value(o: &Option<EmbeddingsParameters>) -> (r: Option<serde_json::Value>)
        ensures
            optional_model(r) == EmbeddingsParametersView::optional_json(
                match o {
                    Some(t) => Some(t@),
                    None => None,
                },
            ),
    {
        match o {
            Some(t) => Some(t.to_value()),
            None => None,
        }
    }
}

/// A request to embed.
#[derive(Debug, Clone, PartialEq, Eq)]
pub struct EmbeddingsParam {
    pub model: String,
    pub input: EmbeddingsInput,
    pub parameters: Option<EmbeddingsParameters>,
    /// `query` or `document`.
    pub text_type: Option<String>,
}

/// The content of an [`EmbeddingsParam`].
pub struct EmbeddingsParamView {
    pub model: Seq<char>,
    pub input: EmbeddingsInputView,
    pub parameters: Option<EmbeddingsParametersView>,
    pub text_type: Option<Seq<char>>,
}

impl View for EmbeddingsParam {
    type V = EmbeddingsParamView;

    open spec fn view(&self) -> EmbeddingsParamView {
        EmbeddingsParamView {
            model: self.model@,
            input: self.input@,
            parameters: match self.parameters {
                Some(x) => Some(x@),
                None => None,
            },
            text_type: text_view(self.text_type),
        }
    }
}

impl EmbeddingsParamView {
    /// The wire value of this request.
    pub open spec fn to_json(self) -> JsonValue {
        JsonValue::empty_object().with("model"@, JsonValue::Text(self.model)).with("input"@, self.input.to_json()).with_opt("parameters"@, EmbeddingsParametersView::optional_json(self.parameters)).with_opt("text_type"@, text_json(self.text_type))
    }
}

impl EmbeddingsParam {
    /// Writes this request as a wire value.
    pub fn to_value(&self) -> (r: serde_json::Value)
        ensures
            value_model(r) == self@.to_json(),
    {
        let mut obj = value_object();
        put_text(&mut obj, "model", self.model.as_str());
        put(&mut obj, "input", self.input.to_value());
        put_opt(&mut obj, "parameters", EmbeddingsParameters::optional_value(&self.parameters));
        put_opt(&mut obj, "text_type", text_value(&self.text_type));
        obj
    }

    /// Writes this request as the text of a body: the rendering of its wire
    /// value. Writing never fails.
    pub fn encode(&self) -> (r: Result<String, DashScopeError>)
        ensures
            r is Ok,
            r matches Ok(s) ==> s@ == rendered(self@.to_json()),
    {
        match render_value(&self.to_value()) {
            Ok(s) => Ok(s),
            Err(e) => Err(not_written(&e)),
        }
    }
}

impl RequestTrait for EmbeddingsParam {
    type P = EmbeddingsParameters;

    open spec fn model_text(&self) -> Seq<char> {
        self.model@
    }

    open spec fn shared_parameters(&self) -> Option<EmbeddingsParameters> {
        self.parameters
    }

    fn model(&self) -> (r: &str) {
        self.model.as_str()
    }

    fn parameters(&self) -> (r: Option<&EmbeddingsParameters>) {
        self.parameters.as_ref()
    }
}

} // verus!
