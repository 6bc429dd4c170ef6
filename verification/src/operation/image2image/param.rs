//! The request of the image service.

use crate::body::not_written;
use crate::error::DashScopeError;
use crate::json::{
    JsonValue, models, render_value, rendered, value_array, value_model, value_object,
};
use crate::wire::{
    opt_texts_view, optional_model, or_null, put, put_boolean, put_or_null, put_text, text_json,
    text_value, text_view, texts_json, texts_value,
};
use vstd::prelude::*;

verus! {

/// A term with its fixed rendering in the target language.
#[derive(Debug, Clone, PartialEq, Eq)]
pub struct Terminology {
    pub src: String,
    pub tgt: String,
}

/// The content of a [`Terminology`].
pub struct TerminologyView {
    pub src: Seq<char>,
    pub tgt: Seq<char>,
}

impl View for Terminology {
    type V = TerminologyView;

    open spec fn view(&self) -> TerminologyView {
        TerminologyView {
            src: self.src@,
            tgt: self.tgt@,
        }
    }
}

impl TerminologyView {
    /// The wire value of this term.
    pub open spec fn to_json(self) -> JsonValue {
        JsonValue::empty_object().with("src"@, JsonValue::Text(self.src)).with("tgt"@, JsonValue::Text(self.tgt))
    }

    /// The wire array of a run.
    pub open spec fn seq_to_json(ts: Seq<TerminologyView>) -> JsonValue {
        JsonValue::Array(Seq::new(ts.len(), |i: int| ts[i].to_json()))
    }

    /// The wire value of an optional run.
    pub open spec fn optional_seq_json(o: Option<Seq<TerminologyView>>) -> Option<JsonValue> {
        match o {
            Some(ts) => Some(TerminologyView::seq_to_json(ts)),
            None => None,
        }
    }
}

impl Terminology {
    /// The contents of a run of these.
    pub open spec fn seq_view(ts: Seq<Terminology>) -> Seq<TerminologyView> {
        Seq::new(ts.len(), |i: int| ts[i]@)
    }

    /// Writes this term as a wire value.
    pub fn to_value(&self) -> (r: serde_json::Value)
        ensures
            value_model(r) == self@.to_json(),
    {
        let mut obj = value_object();
        put_text(&mut obj, "src", self.src.as_str());
        put_text(&mut obj, "tgt", self.tgt.as_str());
        obj
    }

    /// Writes a run as a wire array.
    pub fn write_seq(ts: &Vec<Terminology>) -> (r: serde_json::Value)
        ensures
            value_model(r) == TerminologyView::seq_to_json(Terminology::seq_view(ts@)),
    {
        let mut items: Vec<serde_json::Value> = Vec::new();
        let mut i: usize = 0;
        while i < ts.len()
            invariant
                i <= ts.len(),
                items@.len() == i,
                forall|k: int|
                    0 <= k < i ==> value_model(#[trigger] items@[k]) == ts@[k]@.to_json(),
            decreases ts.len() - i,
        {
            items.push(ts[i].to_value());
            i += 1;
        }
        proof {
            assert(models(items@) =~= Seq::new(
                ts@.len(),
                |i: int| Terminology::seq_view(ts@)[i].to_json(),
            ));
        }
        value_array(items)
    }

    /// An optional run as an optional wire value.
    pub fn optional_seq_value(o: &Option<Vec<Terminology>>) -> (r: Option<serde_json::Value>)
        ensures
            optional_model(r) == TerminologyView::optional_seq_json(
                match o {
                    Some(ts) => Some(Terminology::seq_view(ts@)),
                    None => None,
                },
            ),
    {
        match o {
            Some(ts) => Some(Terminology::write_seq(ts)),
            None => None,
        }
    }
}

/// Switches of the image service.
#[derive(Debug, Clone, PartialEq, Eq)]
pub struct Config {
    pub skip_img_segment: bool,
}

/// The content of a [`Config`].
pub struct ConfigView {
    pub skip_img_segment: bool,
}

impl View for Config {
    type V = ConfigView;

    open spec fn view(&self) -> ConfigView {
        ConfigView {
            skip_img_segment: self.skip_img_segment,
        }
    }
}

impl ConfigView {
    /// The wire value of this switch set.
    pub open spec fn to_json(self) -> JsonValue {
        JsonValue::empty_object().with("skip_img_segment"@, JsonValue::Boolean(self.skip_img_segment))
    }

    /// The wire value of an optional switch set.
    pub open spec fn optional_json(o: Option<ConfigView>) -> Option<JsonValue> {
        match o {
            Some(x) => Some(x.to_json()),
            None => None,
        }
    }
}

impl Config {
    /// Writes this switch set as a wire value.
    pub fn to_value(&self) -> (r: serde_json::Value)
        ensures
            value_model(r) == self@.to_json(),
    {
        let mut obj = value_object();
        put_boolean(&mut obj, "skip_img_segment", self.skip_img_segment);
        obj
    }

    /// An optional switch set as an optional wire value.
    pub fn optional_value(o: &Option<Config>) -> (r: Option<serde_json::Value>)
        ensures
            optional_model(r) == ConfigView::optional_json(
                match o {
                    Some(t) => Some(t@),
                    None => None,
                },
            ),
    {
        match o {
            Some(t) => Some(t.to_value()),
            None => None,
        }
    }
}

/// What the image service may be told beyond the image. A member that is absent
/// is written as `null`.
#[derive(Debug, Clone, PartialEq, Eq)]
pub struct Ext {
    pub domain_hint: Option<String>,
    /// Words that must not appear.
    pub sensitives: Option<Vec<String>>,
    pub terminologies: Option<Vec<Terminology>>,
    pub config: Option<Config>,
}

/// The content of an [`Ext`].
pub struct ExtView {
    pub domain_hint: Option<Seq<char>>,
    pub sensitives: Option<Seq<Seq<char>>>,
    pub terminologies: Option<Seq<TerminologyView>>,
    pub config: Option<ConfigView>,
}

impl View for Ext {
    type V = ExtView;

    open spec fn view(&self) -> ExtView {
        ExtView {
            domain_hint: text_view(self.domain_hint),
            sensitives: opt_texts_view(self.sensitives),
            terminologies: match self.terminologies {
                Some(x) => Some(Terminology::seq_view(x@)),
                None => None,
            },
            config: match self.config {
                Some(x) => Some(x@),
                None => None,
            },
        }
    }
}

impl ExtView {
    /// The wire value of this extension.
    pub open spec fn to_json(self) -> JsonValue {
        JsonValue::empty_object().with("domain_hint"@, or_null(text_json(self.domain_hint))).with("sensitives"@, or_null(texts_json(self.sensitives))).with("terminologies"@, or_null(TerminologyView::optional_seq_json(self.terminologies))).with("config"@, or_null(ConfigView::optional_json(self.config)))
    }

    /// The wire value of an optional extension.
    pub open spec fn optional_json(o: Option<ExtView>) -> Option<JsonValue> {
        match o {
            Some(x) => Some(x.to_json()),
            None => None,
        }
    }
}

impl Ext {
    /// Writes this extension as a wire value.
    pub fn to_value(&self) -> (r: serde_json::Value)
        ensures
            value_model(r) == self@.to_json(),
    {
        let mut obj = value_object();
        put_or_null(&mut obj, "domain_hint", text_value(&self.domain_hint));
        put_or_null(&mut obj, "sensitives", texts_value(&self.sensitives));
        put_or_null(&mut obj, "terminologies", Terminology::optional_seq_value(&self.terminologies));
        put_or_null(&mut obj, "config", Config::optional_value(&self.config));
        obj
    }

    /// An optional extension as an optional wire value.
    pub fn optional_value(o: &Option<Ext>) -> (r: Option<serde_json::Value>)
        ensures
            optional_model(r) == ExtView::optional_json(
                match o {
                    Some(t) => Some(t@),
                    None => None,
                },
            ),
    {
        match o {
            Some(t) => Some(t.to_value()),
            None => None,
        }
    }
}

/// The image, and the languages to render its text from and to.
#[derive(Debug, Clone, PartialEq, Eq)]
pub struct Input {
    /// The address of the image, or the path of a file to upload.
    pub image_url: String,
    pub source_lang: String,
    pub target_lang: String,
    pub ext: Option<Ext>,
}

/// The content of an [`Input`].
pub struct InputView {
    pub image_url: Seq<char>,
    pub source_lang: Seq<char>,
    pub target_lang: Seq<char>,
    pub ext: Option<ExtView>,
}

impl View for Input {
    type V = InputView;

    open spec fn view(&self) -> InputView {
        InputView {
            image_url: self.image_url@,
            source_lang: self.source_lang@,
            target_lang: self.target_lang@,
            ext: match self.ext {
                Some(x) => Some(x@),
                None => None,
            },
        }
    }
}

impl InputView {
    /// The wire value of this input.
    pub open spec fn to_json(self) -> JsonValue {
        JsonValue::empty_object().with("image_url"@, JsonValue::Text(self.image_url)).with("source_lang"@, JsonValue::Text(self.source_lang)).with("target_lang"@, JsonValue::Text(self.target_lang)).with("ext"@, or_null(ExtView::optional_json(self.ext)))
    }

    /// The wire value of an optional input.
    pub open spec fn optional_json(o: Option<InputView>) -> Option<JsonValue> {
        match o {
            Some(x) => Some(x.to_json()),
            None => None,
        }
    }
}

impl Input {
    /// Writes this input as a wire value.
    pub fn to_value(&self) -> (r: serde_json::Value)
        ensures
            value_model(r) == self@.to_json(),
    {
        let mut obj = value_object();
        put_text(&mut obj, "image_url", self.image_url.as_str());
        put_text(&mut obj, "source_lang", self.source_lang.as_str());
        put_text(&mut obj, "target_lang", self.target_lang.as_str());
        put_or_null(&mut obj, "ext", Ext::optional_value(&self.ext));
        obj
    }

    /// An optional input as an optional wire value.
    pub fn optional_value(o: &Option<Input>) -> (r: Option<serde_json::Value>)
        ensures
            optional_model(r) == InputView::optional_json(
                match o {
                    Some(t) => Some(t@),
                    None => None,
                },
            ),
    {
        match o {
            Some(t) => Some(t.to_value()),
            None => None,
        }
    }
}

/// A request to render the text of an image in another language.
#[derive(Debug, Clone, PartialEq, Eq)]
pub struct Image2imageParam {
    pub model: String,
    pub input: Input,
}

/// The content of an [`Image2imageParam`].
pub struct Image2imageParamView {
    pub model: Seq<char>,
    pub input: InputView,
}

impl View for Image2imageParam {
    type V = Image2imageParamView;

    open spec fn view(&self) -> Image2imageParamView {
        Image2imageParamView {
            model: self.model@,
            input: self.input@,
        }
    }
}

impl Image2imageParamView {
    /// The wire value of this request.
    pub open spec fn to_json(self) -> JsonValue {
        JsonValue::empty_object().with("model"@, JsonValue::Text(self.model)).with("input"@, self.input.to_json())
    }
}

impl Image2imageParam {
    /// Writes this request as a wire value.
    pub fn to_value(&self) -> (r: serde_json::Value)
        ensures
            value_model(r) == self@.to_json(),
    {
        let mut obj = value_object();
        put_text(&mut obj, "model", self.model.as_str());
        put(&mut obj, "input", self.input.to_value());
        obj
    }

    /// Writes this request as the text of a body: the rendering of its wire
    /// value. Writing never fails.
    pub fn encode(&self) -> (r: Result<String, DashScopeError>)
        ensures
            r is Ok,
            r matches Ok(s) ==> s@ == rendered(self@.to_json()),
    {
        match render_value(&self.to_value()) {
            Ok(s) => Ok(s),
            Err(e) => Err(not_written(&e)),
        }
    }
}

impl Image2imageParam {
    /// This request with the address of the uploaded image in place of its path.
    pub fn with_uploaded(self, address: String) -> (r: Image2imageParam)
        ensures
            r@ == (Image2imageParamView {
                model: self@.model,
                input: InputView { image_url: address@, ..self@.input },
            }),
    {
        Image2imageParam {
            model: self.model,
            input: Input {
                image_url: address,
                source_lang: self.input.source_lang,
                target_lang: self.input.target_lang,
                ext: self.input.ext,
            },
        }
    }
}

} // verus!
