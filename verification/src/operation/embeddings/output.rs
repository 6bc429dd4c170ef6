//! The answer of the embedding service.

use crate::body::{not_json, unreadable, wrong_shape};
use crate::error::DashScopeError;
use crate::json::{
    JsonValue, models, parse_value, parsed, value_as_array, value_get, value_is_object, value_model,
};
use crate::operation::common::{Usage, UsageView};
use crate::wire::{
    optional_model, read_member, read_opt_i32, read_opt_text, read_opt_value, read_req_text,
    text_view,
};
use vstd::prelude::*;

verus! {

/// The vector of one input.
#[derive(Debug, Clone, PartialEq)]
pub struct Embeddings {
    /// The vector: the array of numbers as it came.
    pub embedding: Option<serde_json::Value>,
    /// Which input the vector belongs to.
    pub text_index: Option<i32>,
}

/// The content of an [`Embeddings`].
pub struct EmbeddingsView {
    pub embedding: Option<JsonValue>,
    pub text_index: Option<i32>,
}

impl View for Embeddings {
    type V = EmbeddingsView;

    open spec fn view(&self) -> EmbeddingsView {
        EmbeddingsView {
            embedding: optional_model(self.embedding),
            text_index: self.text_index,
        }
    }
}

impl EmbeddingsView {
    /// The vector that a wire value holds, if it has the shape of one.
    pub open spec fn from_json(j: JsonValue) -> Option<EmbeddingsView> {
        let embedding = j.opt_value("embedding"@);
        let text_index = j.opt_i32("text_index"@);
        if j is Object
            && embedding is Some
            && text_index is Some {
            Some(
                EmbeddingsView {
                    embedding: embedding->0,
                    text_index: text_index->0,
                },
            )
        } else {
            None
        }
    }

    /// The run that a wire array holds, if every item has the shape of a vector.
    pub open spec fn seq_from_json(j: JsonValue) -> Option<Seq<EmbeddingsView>> {
        match j {
            JsonValue::Array(items) => if forall|i: int|
                0 <= i < items.len() ==> (#[trigger] EmbeddingsView::from_json(items[i])) is Some {
                Some(Seq::new(items.len(), |i: int| EmbeddingsView::from_json(items[i])->0))
            } else {
                None
            },
            _ => None,
        }
    }

    /// The required member `key`, read as a run.
    pub open spec fn required_seq(j: JsonValue, key: Seq<char>) -> Option<Seq<EmbeddingsView>> {
        match j.field(key) {
            Some(c) => EmbeddingsView::seq_from_json(c),
            None => None,
        }
    }

    /// The optional member `key`, read as a run; the outer `None` is a mismatch.
    pub open spec fn optional_seq(j: JsonValue, key: Seq<char>) -> Option<Option<Seq<EmbeddingsView>>> {
        match j.member(key) {
            None => Some(None),
            Some(c) => match EmbeddingsView::seq_from_json(c) {
                Some(x) => Some(Some(x)),
                None => None,
            },
        }
    }
}

impl Embeddings {
    /// The contents of a run of these.
    pub open spec fn seq_view(ts: Seq<Embeddings>) -> Seq<EmbeddingsView> {
        Seq::new(ts.len(), |i: int| ts[i]@)
    }

    /// Reads a vector out of a wire value.
    pub fn from_value(v: &serde_json::Value) -> (r: Option<Embeddings>)
        ensures
            match r {
                Some(t) => EmbeddingsView::from_json(value_model(*v)) == Some(t@),
                None => EmbeddingsView::from_json(value_model(*v)) is None,
            },
    {
        if !value_is_object(v) {
            return None;
        }
        let embedding = match read_opt_value(v, "embedding") {
            Ok(x) => x,
            Err(_) => return None,
        };
        let text_index = match read_opt_i32(v, "text_index") {
            Ok(x) => x,
            Err(_) => return None,
        };
        Some(Embeddings { embedding, text_index })
    }

    /// Reads a run out of a wire array.
    pub fn read_seq(v: &serde_json::Value) -> (r: Option<Vec<Embeddings>>)
        ensures
            match r {
                Some(ts) => EmbeddingsView::seq_from_json(value_model(*v)) == Some(Embeddings::seq_view(ts@)),
                None => EmbeddingsView::seq_from_json(value_model(*v)) is None,
            },
    {
        let items = match value_as_array(v) {
            Some(a) => a,
            None => return None,
        };
        let ghost docs = models(items@);
        let mut out: Vec<Embeddings> = Vec::new();
        let mut i: usize = 0;
        while i < items.len()
            invariant
                i <= items.len(),
                out@.len() == i,
                docs == models(items@),
                value_model(*v) == JsonValue::Array(docs),
                forall|k: int|
                    0 <= k < i ==> EmbeddingsView::from_json(docs[k]) == Some(#[trigger] out@[k]@),
            decreases items.len() - i,
        {
            match Embeddings::from_value(&items[i]) {
                Some(t) => {
                    out.push(t);
                },
                None => {
                    proof {
                        assert(EmbeddingsView::from_json(docs[i as int]) is None);
                    }
                    return None;
                },
            }
            i += 1;
        }
        proof {
            assert forall|k: int| 0 <= k < docs.len() implies (#[trigger] EmbeddingsView::from_json(
                docs[k],
            )) == Some(out@[k]@) by {
                let _ = out@[k]@;
            }
            assert(EmbeddingsView::seq_from_json(value_model(*v))->0 =~= Embeddings::seq_view(out@));
        }
        Some(out)
    }

    /// Reads the required member `key` as a run.
    pub fn read_required_seq(v: &serde_json::Value, key: &str) -> (r: Option<Vec<Embeddings>>)
        ensures
            match r {
                Some(ts) => EmbeddingsView::required_seq(value_model(*v), key@) == Some(
                    Embeddings::seq_view(ts@),
                ),
                None => EmbeddingsView::required_seq(value_model(*v), key@) is None,
            },
    {
        match value_get(v, key) {
            Some(c) => Embeddings::read_seq(c),
            None => None,
        }
    }

    /// Reads the optional member `key` as a run; `Err` is a mismatch.
    pub fn read_optional_seq(v: &serde_json::Value, key: &str) -> (r: Result<
        Option<Vec<Embeddings>>,
        (),
    >)
        ensures
            match r {
                Ok(o) => EmbeddingsView::optional_seq(value_model(*v), key@) == Some(
                    match o {
                        Some(ts) => Some(Embeddings::seq_view(ts@)),
                        None => None,
                    },
                ),
                Err(_) => EmbeddingsView::optional_seq(value_model(*v), key@) is None,
            },
    {
        match read_member(v, key) {
            None => Ok(None),
            Some(c) => match Embeddings::read_seq(c) {
                Some(ts) => Ok(Some(ts)),
                None => Err(()),
            },
        }
    }
}

/// The vectors of a request.
#[derive(Debug, Clone, PartialEq)]
pub struct Output {
    pub embeddings: Vec<Embeddings>,
}

/// The content of an [`Output`].
pub struct OutputView {
    pub embeddings: Seq<EmbeddingsView>,
}

impl View for Output {
    type V = OutputView;

    open spec fn view(&self) -> OutputView {
        OutputView {
            embeddings: Embeddings::seq_view(self.embeddings@),
        }
    }
}

impl OutputView {
    /// The output that a wire value holds, if it has the shape of one.
    pub open spec fn from_json(j: JsonValue) -> Option<OutputView> {
        let embeddings = EmbeddingsView::required_seq(j, "embeddings"@);
        if j is Object
            && embeddings is Some {
            Some(
                OutputView {
                    embeddings: embeddings->0,
                },
            )
        } else {
            None
        }
    }

    /// The required member `key`, read as an output.
    pub open spec fn required(j: JsonValue, key: Seq<char>) -> Option<OutputView> {
        match j.field(key) {
            Some(c) => OutputView::from_json(c),
            None => None,
        }
    }

    /// The optional member `key`, read as an output; the outer `None` is a mismatch.
    pub open spec fn optional(j: JsonValue, key: Seq<char>) -> Option<Option<OutputView>> {
        match j.member(key) {
            None => Some(None),
            Some(c) => match OutputView::from_json(c) {
                Some(x) => Some(Some(x)),
                None => None,
            },
        }
    }
}

impl Output {
    /// Reads an output out of a wire value.
    pub fn from_value(v: &serde_json::Value) -> (r: Option<Output>)
        ensures
            match r {
                Some(t) => OutputView::from_json(value_model(*v)) == Some(t@),
                None => OutputView::from_json(value_model(*v)) is None,
            },
    {
        if !value_is_object(v) {
            return None;
        }
        let embeddings = match Embeddings::read_required_seq(v, "embeddings") {
            Some(x) => x,
            None => return None,
        };
        Some(Output { embeddings })
    }

    /// Reads the required member `key` as an output.
    pub fn read_required(v: &serde_json::Value, key: &str) -> (r: Option<Output>)
        ensures
            match r {
                Some(t) => OutputView::required(value_model(*v), key@) == Some(t@),
                None => OutputView::required(value_model(*v), key@) is None,
            },
    {
        match value_get(v, key) {
            Some(c) => Output::from_value(c),
            None => None,
        }
    }

    /// Reads the optional member `key` as an output; `Err` is a mismatch.
    pub fn read_optional(v: &serde_json::Value, key: &str) -> (r: Result<Option<Output>, ()>)
        ensures
            match r {
                Ok(o) => OutputView::optional(value_model(*v), key@) == Some(
                    match o {
                        Some(t) => Some(t@),
                        None => None,
                    },
                ),
                Err(_) => OutputView::optional(value_model(*v), key@) is None,
            },
    {
        match read_member(v, key) {
            None => Ok(None),
            Some(c) => match Output::from_value(c) {
                Some(t) => Ok(Some(t)),
                None => Err(()),
            },
        }
    }
}

/// The answer of the embedding service.
#[derive(Debug, Clone, PartialEq)]
pub struct EmbeddingsOutput {
    pub code: Option<String>,
    pub message: Option<String>,
    pub output: Output,
    pub request_id: String,
    pub status_code: Option<i32>,
    pub usage: Option<Usage>,
}

/// The content of an [`EmbeddingsOutput`].
pub struct EmbeddingsOutputView {
    pub code: Option<Seq<char>>,
    pub message: Option<Seq<char>>,
    pub output: OutputView,
    pub request_id: Seq<char>,
    pub status_code: Option<i32>,
    pub usage: Option<UsageView>,
}

impl View for EmbeddingsOutput {
    type V = EmbeddingsOutputView;

    open spec fn view(&self) -> EmbeddingsOutputView {
        EmbeddingsOutputView {
            code: text_view(self.code),
            message: text_view(self.message),
            output: self.output@,
            request_id: self.request_id@,
            status_code: self.status_code,
            usage: match self.usage {
                Some(x) => Some(x@),
                None => None,
            },
        }
    }
}

impl EmbeddingsOutputView {
    /// The answer that a wire value holds, if it has the shape of one.
    pub open spec fn from_json(j: JsonValue) -> Option<EmbeddingsOutputView> {
        let code = j.opt_text("code"@);
        let message = j.opt_text("message"@);
        let output = OutputView::required(j, "output"@);
        let request_id = j.req_text("request_id"@);
        let status_code = j.opt_i32("status_code"@);
        let usage = UsageView::optional(j, "usage"@);
        if j is Object
            && code is Some
            && message is Some
            && output is Some
            && request_id is Some
            && status_code is Some
            && usage is Some {
            Some(
                EmbeddingsOutputView {
                    code: code->0,
                    message: message->0,
                    output: output->0,
                    request_id: request_id->0,
                    status_code: status_code->0,
                    usage: usage->0,
                },
            )
        } else {
            None
        }
    }
}

impl EmbeddingsOutput {
    /// Reads an answer out of a wire value.
    pub fn from_value(v: &serde_json::Value) -> (r: Option<EmbeddingsOutput>)
        ensures
            match r {
                Some(t) => EmbeddingsOutputView::from_json(value_model(*v)) == Some(t@),
                None => EmbeddingsOutputView::from_json(value_model(*v)) is None,
            },
    {
        if !value_is_object(v) {
            return None;
        }
        let code = match read_opt_text(v, "code") {
            Ok(x) => x,
            Err(_) => return None,
        };
        let message = match read_opt_text(v, "message") {
            Ok(x) => x,
            Err(_) => return None,
        };
        let output = match Output::read_required(v, "output") {
            Some(x) => x,
            None => return None,
        };
        let request_id = match read_req_text(v, "request_id") {
            Some(x) => x,
            None => return None,
        };
        let status_code = match read_opt_i32(v, "status_code") {
            Ok(x) => x,
            Err(_) => return None,
        };
        let usage = match Usage::read_optional(v, "usage") {
            Ok(x) => x,
            Err(_) => return None,
        };
        Some(EmbeddingsOutput { code, message, output, request_id, status_code, usage })
    }

    /// Reads an answer from the text of a body. A text that is no JSON
    /// document, or a document in another shape, is a deserialization error
    /// that keeps the text.
    pub fn decode(text: &str) -> (r: Result<EmbeddingsOutput, DashScopeError>)
        ensures
            match r {
                Ok(t) => parsed(text@) is Ok && EmbeddingsOutputView::from_json(parsed(text@)->Ok_0) == Some(
                    t@,
                ),
                Err(e) => (parsed(text@) is Err || EmbeddingsOutputView::from_json(parsed(text@)->Ok_0) is None)
                    && e@ == unreadable(text@),
            },
    {
        match parse_value(text) {
            Ok(v) => match EmbeddingsOutput::from_value(&v) {
                Some(t) => Ok(t),
                None => Err(wrong_shape(text)),
            },
            Err(e) => Err(not_json(&e, text)),
        }
    }
}

} // verus!
