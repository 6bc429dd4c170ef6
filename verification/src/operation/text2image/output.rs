//! The answer of the picture service.

use crate::body::{not_json, unreadable, wrong_shape};
use crate::error::DashScopeError;
use crate::json::{JsonValue, parse_value, parsed, value_get, value_is_object, value_model};
use crate::operation::common::TaskStatus;
use crate::wire::{read_member, read_req_text};
use vstd::prelude::*;

verus! {

/// The background task that a request has become.
#[derive(Debug, Clone, PartialEq, Eq)]
pub struct TextTaskSubmitOutput {
    pub task_status: TaskStatus,
    pub task_id: String,
}

/// The content of a [`TextTaskSubmitOutput`].
pub struct TextTaskSubmitOutputView {
    pub task_status: TaskStatus,
    pub task_id: Seq<char>,
}

impl View for TextTaskSubmitOutput {
    type V = TextTaskSubmitOutputView;

    open spec fn view(&self) -> TextTaskSubmitOutputView {
        TextTaskSubmitOutputView {
            task_status: self.task_status,
            task_id: self.task_id@,
        }
    }
}

impl TextTaskSubmitOutputView {
    /// The submission that a wire value holds, if it has the shape of one.
    pub open spec fn from_json(j: JsonValue) -> Option<TextTaskSubmitOutputView> {
        let task_status = TaskStatus::required(j, "task_status"@);
        let task_id = j.req_text("task_id"@);
        if j is Object
            && task_status is Some
            && task_id is Some {
            Some(
                TextTaskSubmitOutputView {
                    task_status: task_status->0,
                    task_id: task_id->0,
                },
            )
        } else {
            None
        }
    }

    /// The required member `key`, read as a submission.
    pub open spec fn required(j: JsonValue, key: Seq<char>) -> Option<TextTaskSubmitOutputView> {
        match j.field(key) {
            Some(c) => TextTaskSubmitOutputView::from_json(c),
            None => None,
        }
    }

    /// The optional member `key`, read as a submission; the outer `None` is a mismatch.
    pub open spec fn optional(j: JsonValue, key: Seq<char>) -> Option<Option<TextTaskSubmitOutputView>> {
        match j.member(key) {
            None => Some(None),
            Some(c) => match TextTaskSubmitOutputView::from_json(c) {
                Some(x) => Some(Some(x)),
                None => None,
            },
        }
    }
}

impl TextTaskSubmitOutput {
    /// Reads a submission out of a wire value.
    pub fn from_value(v: &serde_json::Value) -> (r: Option<TextTaskSubmitOutput>)
        ensures
            match r {
                Some(t) => TextTaskSubmitOutputView::from_json(value_model(*v)) == Some(t@),
                None => TextTaskSubmitOutputView::from_json(value_model(*v)) is None,
            },
    {
        if !value_is_object(v) {
            return None;
        }
        let task_status = match TaskStatus::read_required(v, "task_status") {
            Some(x) => x,
            None => return None,
        };
        let task_id = match read_req_text(v, "task_id") {
            Some(x) => x,
            None => return None,
        };
        Some(TextTaskSubmitOutput { task_status, task_id })
    }

    /// Reads the required member `key` as a submission.
    pub fn read_required(v: &serde_json::Value, key: &str) -> (r: Option<TextTaskSubmitOutput>)
        ensures
            match r {
                Some(t) => TextTaskSubmitOutputView::required(value_model(*v), key@) == Some(t@),
                None => TextTaskSubmitOutputView::required(value_model(*v), key@) is None,
            },
    {
        match value_get(v, key) {
            Some(c) => TextTaskSubmitOutput::from_value(c),
            None => None,
        }
    }

    /// Reads the optional member `key` as a submission; `Err` is a mismatch.
    pub fn read_optional(v: &serde_json::Value, key: &str) -> (r: Result<Option<TextTaskSubmitOutput>, ()>)
        ensures
            match r {
                Ok(o) => TextTaskSubmitOutputView::optional(value_model(*v), key@) == Some(
                    match o {
                        Some(t) => Some(t@),
                        None => None,
                    },
                ),
                Err(_) => TextTaskSubmitOutputView::optional(value_model(*v), key@) is None,
            },
    {
        match read_member(v, key) {
            None => Ok(None),
            Some(c) => match TextTaskSubmitOutput::from_value(c) {
                Some(t) => Ok(Some(t)),
                None => Err(()),
            },
        }
    }
}

/// The answer of the picture service.
#[derive(Debug, Clone, PartialEq, Eq)]
pub struct Text2ImageOutput {
    pub request_id: String,
    pub output: TextTaskSubmitOutput,
}

/// The content of a [`Text2ImageOutput`].
pub struct Text2ImageOutputView {
    pub request_id: Seq<char>,
    pub output: TextTaskSubmitOutputView,
}

impl View for Text2ImageOutput {
    type V = Text2ImageOutputView;

    open spec fn view(&self) -> Text2ImageOutputView {
        Text2ImageOutputView {
            request_id: self.request_id@,
            output: self.output@,
        }
    }
}

impl Text2ImageOutputView {
    /// The answer that a wire value holds, if it has the shape of one.
    pub open spec fn from_json(j: JsonValue) -> Option<Text2ImageOutputView> {
        let request_id = j.req_text("request_id"@);
        let output = TextTaskSubmitOutputView::required(j, "output"@);
        if j is Object
            && request_id is Some
            && output is Some {
            Some(
                Text2ImageOutputView {
                    request_id: request_id->0,
                    output: output->0,
                },
            )
        } else {
            None
        }
    }
}

impl Text2ImageOutput {
    /// Reads an answer out of a wire value.
    pub fn from_value(v: &serde_json::Value) -> (r: Option<Text2ImageOutput>)
        ensures
            match r {
                Some(t) => Text2ImageOutputView::from_json(value_model(*v)) == Some(t@),
                None => Text2ImageOutputView::from_json(value_model(*v)) is None,
            },
    {
        if !value_is_object(v) {
            return None;
        }
        let request_id = match read_req_text(v, "request_id") {
            Some(x) => x,
            None => return None,
        };
        let output = match TextTaskSubmitOutput::read_required(v, "output") {
            Some(x) => x,
            None => return None,
        };
        Some(Text2ImageOutput { request_id, output })
    }

    /// Reads an answer from the text of a body. A text that is no JSON
    /// document, or a document in another shape, is a deserialization error
    /// that keeps the text.
    pub fn decode(text: &str) -> (r: Result<Text2ImageOutput, DashScopeError>)
        ensures
            match r {
                Ok(t) => parsed(text@) is Ok && Text2ImageOutputView::from_json(parsed(text@)->Ok_0) == Some(
                    t@,
                ),
                Err(e) => (parsed(text@) is Err || Text2ImageOutputView::from_json(parsed(text@)->Ok_0) is None)
                    && e@ == unreadable(text@),
            },
    {
        match parse_value(text) {
            Ok(v) => match Text2ImageOutput::from_value(&v) {
                Some(t) => Ok(t),
                None => Err(wrong_shape(text)),
            },
            Err(e) => Err(not_json(&e, text)),
        }
    }
}

} // verus!
