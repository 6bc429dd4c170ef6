//! The request of the picture service.

use crate::body::not_written;
use crate::error::DashScopeError;
use crate::json::{JsonValue, render_value, rendered, value_model, value_object};
use crate::wire::{
    boolean_json, boolean_value, i32_json, i32_value, optional_model, or_null, put, put_or_null,
    put_text, text_json, text_value, text_view,
};
use vstd::prelude::*;

verus! {

/// What the picture is to show, and what not.
#[derive(Debug, Clone, PartialEq, Eq)]
pub struct Input {
    pub prompt: String,
    pub negative_prompt: Option<String>,
}

/// The content of an [`Input`].
pub struct InputView {
    pub prompt: Seq<char>,
    pub negative_prompt: Option<Seq<char>>,
}

impl View for Input {
    type V = InputView;

    open spec fn view(&self) -> InputView {
        InputView {
            prompt: self.prompt@,
            negative_prompt: text_view(self.negative_prompt),
        }
    }
}

impl InputView {
    /// The wire value of this input.
    pub open spec fn to_json(self) -> JsonValue {
        JsonValue::empty_object().with("prompt"@, JsonValue::Text(self.prompt)).with("negative_prompt"@, or_null(text_json(self.negative_prompt)))
    }

    /// The wire value of an optional input.
    pub open spec fn optional_json(o: Option<InputView>) -> Option<JsonValue> {
        match o {
            Some(x) => Some(x.to_json()),
            None => None,
        }
    }
}

impl Input {
    /// Writes this input as a wire value.
    pub fn to_value(&self) -> (r: serde_json::Value)
        ensures
            value_model(r) == self@.to_json(),
    {
        let mut obj = value_object();
        put_text(&mut obj, "prompt", self.prompt.as_str());
        put_or_null(&mut obj, "negative_prompt", text_value(&self.negative_prompt));
        obj
    }

    /// An optional input as an optional wire value.
    pub fn optional_value(o: &Option<Input>) -> (r: Option<serde_json::Value>)
        ensures
            optional_model(r) == InputView::optional_json(
                match o {
                    Some(t) => Some(t@),
                    None => None,
                },
            ),
    {
        match o {
            Some(t) => Some(t.to_value()),
            None => None,
        }
    }
}

/// The parameters of a picture. A member that is absent is written as `null`.
#[derive(Debug, Clone, PartialEq, Eq)]
pub struct Parameters {
    /// Width and height, such as `1024*1024`.
    pub size: Option<String>,
    /// How many pictures.
    pub n: Option<i32>,
    pub prompt_extend: Option<bool>,
    pub watermark: Option<bool>,
    pub seed: Option<i32>,
}

/// The content of a [`Parameters`].
pub struct ParametersView {
    pub size: Option<Seq<char>>,
    pub n: Option<i32>,
    pub prompt_extend: Option<bool>,
    pub watermark: Option<bool>,
    pub seed: Option<i32>,
}

impl View for Parameters {
    type V = ParametersView;

    open spec fn view(&self) -> ParametersView {
        ParametersView {
            size: text_view(self.size),
            n: self.n,
            prompt_extend: self.prompt_extend,
            watermark: self.watermark,
            seed: self.seed,
        }
    }
}

impl ParametersView {
    /// The wire value of this parameter set.
    pub open spec fn to_json(self) -> JsonValue {
        JsonValue::empty_object().with("size"@, or_null(text_json(self.size))).with("n"@, or_null(i32_json(self.n))).with("prompt_extend"@, or_null(boolean_json(self.prompt_extend))).with("watermark"@, or_null(boolean_json(self.watermark))).with("seed"@, or_null(i32_json(self.seed)))
    }

    /// The wire value of an optional parameter set.
    pub open spec fn optional_json(o: Option<ParametersView>) -> Option<JsonValue> {
        match o {
            Some(x) => Some(x.to_json()),
            None => None,
        }
    }
}

impl Parameters {
    /// Writes this parameter set as a wire value.
    pub fn to_value(&self) -> (r: serde_json::Value)
        ensures
            value_model(r) == self@.to_json(),
    {
        let mut obj = value_object();
        put_or_null(&mut obj, "size", text_value(&self.size));
        put_or_null(&mut obj, "n", i32_value(self.n));
        put_or_null(&mut obj, "prompt_extend", boolean_value(self.prompt_extend));
        put_or_null(&mut obj, "watermark", boolean_value(self.watermark));
        put_or_null(&mut obj, "seed", i32_value(self.seed));
        obj
    }

    /// An optional parameter set as an optional wire value.
    pub fn optional_value(o: &Option<Parameters>) -> (r: Option<serde_json::Value>)
        ensures
            optional_model(r) == ParametersView::optional_json(
                match o {
                    Some(t) => Some(t@),
                    None => None,
                },
            ),
    {
        match o {
            Some(t) => Some(t.to_value()),
            None => None,
        }
    }
}

/// A request to make pictures from a prompt.
#[derive(Debug, Clone, PartialEq, Eq)]
pub struct Text2imageParam {
    pub model: String,
    pub input: Input,
    pub parameters: Option<Parameters>,
}

/// The content of a [`Text2imageParam`].
pub struct Text2imageParamView {
    pub model: Seq<char>,
    pub input: InputView,
    pub parameters: Option<ParametersView>,
}

impl View for Text2imageParam {
    type V = Text2imageParamView;

    open spec fn view(&self) -> Text2imageParamView {
        Text2imageParamView {
            model: self.model@,
            input: self.input@,
            parameters: match self.parameters {
                Some(x) => Some(x@),
                None => None,
            },
        }
    }
}

impl Text2imageParamView {
    /// The wire value of this request.
    pub open spec fn to_json(self) -> JsonValue {
        JsonValue::empty_object().with("model"@, JsonValue::Text(self.model)).with("input"@, self.input.to_json()).with("parameters"@, or_null(ParametersView::optional_json(self.parameters)))
    }
}

impl Text2imageParam {
    /// Writes this request as a wire value.
    pub fn to_value(&self) -> (r: serde_json::Value)
        ensures
            value_model(r) == self@.to_json(),
    {
        let mut obj = value_object();
        put_text(&mut obj, "model", self.model.as_str());
        put(&mut obj, "input", self.input.to_value());
        put_or_null(&mut obj, "parameters", Parameters::optional_value(&self.parameters));
        obj
    }

    /// Writes this request as the text of a body: the rendering of its wire
    /// value. Writing never fails.
    pub fn encode(&self) -> (r: Result<String, DashScopeError>)
        ensures
            r is Ok,
            r matches Ok(s) ==> s@ == rendered(self@.to_json()),
    {
        match render_value(&self.to_value()) {
            Ok(s) => Ok(s),
            Err(e) => Err(not_written(&e)),
        }
    }
}

} // verus!
