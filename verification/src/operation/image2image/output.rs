//! The answer of the image service.

use crate::body::{not_json, unreadable, wrong_shape};
use crate::error::DashScopeError;
use crate::json::{JsonValue, parse_value, parsed, value_get, value_is_object, value_model};
use crate::operation::common::TaskStatus;
use crate::wire::{read_member, read_req_text};
use vstd::prelude::*;

verus! {

/// The background task that a request has become.
#[derive(Debug, Clone, PartialEq, Eq)]
pub struct ImageTaskSubmitOutput {
    pub task_status: TaskStatus,
    pub task_id: String,
}

/// The content of an [`ImageTaskSubmitOutput`].
pub struct ImageTaskSubmitOutputView {
    pub task_status: TaskStatus,
    pub task_id: Seq<char>,
}

impl View for ImageTaskSubmitOutput {
    type V = ImageTaskSubmitOutputView;

    open spec fn view(&self) -> ImageTaskSubmitOutputView {
        ImageTaskSubmitOutputView {
            task_status: self.task_status,
            task_id: self.task_id@,
        }
    }
}

impl ImageTaskSubmitOutputView {
    /// The submission that a wire value holds, if it has the shape of one.
    pub open spec fn from_json(j: JsonValue) -> Option<ImageTaskSubmitOutputView> {
        let task_status = TaskStatus::required(j, "task_status"@);
        let task_id = j.req_text("task_id"@);
        if j is Object
            && task_status is Some
            && task_id is Some {
            Some(
                ImageTaskSubmitOutputView {
                    task_status: task_status->0,
                    task_id: task_id->0,
                },
            )
        } else {
            None
        }
    }

    /// The required member `key`, read as a submission.
    pub open spec fn required(j: JsonValue, key: Seq<char>) -> Option<ImageTaskSubmitOutputView> {
        match j.field(key) {
            Some(c) => ImageTaskSubmitOutputView::from_json(c),
            None => None,
        }
    }

    /// The optional member `key`, read as a submission; the outer `None` is a mismatch.
    pub open spec fn optional(j: JsonValue, key: Seq<char>) -> Option<Option<ImageTaskSubmitOutputView>> {
        match j.member(key) {
            None => Some(None),
            Some(c) => match ImageTaskSubmitOutputView::from_json(c) {
                Some(x) => Some(Some(x)),
                None => None,
            },
        }
    }
}

impl ImageTaskSubmitOutput {
    /// Reads a submission out of a wire value.
    pub fn from_value(v: &serde_json::Value) -> (r: Option<ImageTaskSubmitOutput>)
        ensures
            match r {
                Some(t) => ImageTaskSubmitOutputView::from_json(value_model(*v)) == Some(t@),
                None => ImageTaskSubmitOutputView::from_json(value_model(*v)) is None,
            },
    {
        if !value_is_object(v) {
            return None;
        }
        let task_status = match TaskStatus::read_required(v, "task_status") {
            Some(x) => x,
            None => return None,
        };
        let task_id = match read_req_text(v, "task_id") {
            Some(x) => x,
            None => return None,
        };
        Some(ImageTaskSubmitOutput { task_status, task_id })
    }

    /// Reads the required member `key` as a submission.
    pub fn read_required(v: &serde_json::Value, key: &str) -> (r: Option<ImageTaskSubmitOutput>)
        ensures
            match r {
                Some(t) => ImageTaskSubmitOutputView::required(value_model(*v), key@) == Some(t@),
                None => ImageTaskSubmitOutputView::required(value_model(*v), key@) is None,
            },
    {
        match value_get(v, key) {
            Some(c) => ImageTaskSubmitOutput::from_value(c),
            None => None,
        }
    }

    /// Reads the optional member `key` as a submission; `Err` is a mismatch.
    pub fn read_optional(v: &serde_json::Value, key: &str) -> (r: Result<Option<ImageTaskSubmitOutput>, ()>)
        ensures
            match r {
                Ok(o) => ImageTaskSubmitOutputView::optional(value_model(*v), key@) == Some(
                    match o {
                        Some(t) => Some(t@),
                        None => None,
                    },
                ),
                Err(_) => ImageTaskSubmitOutputView::optional(value_model(*v), key@) is None,
            },
    {
        match read_member(v, key) {
            None => Ok(None),
            Some(c) => match ImageTaskSubmitOutput::from_value(c) {
                Some(t) => Ok(Some(t)),
                None => Err(()),
            },
        }
    }
}

/// The answer of the image service.
#[derive(Debug, Clone, PartialEq, Eq)]
pub struct Image2ImageOutput {
    pub request_id: String,
    pub output: ImageTaskSubmitOutput,
}

/// The content of an [`Image2ImageOutput`].
pub struct Image2ImageOutputView {
    pub request_id: Seq<char>,
    pub output: ImageTaskSubmitOutputView,
}

impl View for Image2ImageOutput {
    type V = Image2ImageOutputView;

    open spec fn view(&self) -> Image2ImageOutputView {
        Image2ImageOutputView {
            request_id: self.request_id@,
            output: self.output@,
        }
    }
}

impl Image2ImageOutputView {
    /// The answer that a wire value holds, if it has the shape of one.
    pub open spec fn from_json(j: JsonValue) -> Option<Image2ImageOutputView> {
        let request_id = j.req_text("request_id"@);
        let output = ImageTaskSubmitOutputView::required(j, "output"@);
        if j is Object
            && request_id is Some
            && output is Some {
            Some(
                Image2ImageOutputView {
                    request_id: request_id->0,
                    output: output->0,
                },
            )
        } else {
            None
        }
    }
}

impl Image2ImageOutput {
    /// Reads an answer out of a wire value.
    pub fn from_value(v: &serde_json::Value) -> (r: Option<Image2ImageOutput>)
        ensures
            match r {
                Some(t) => Image2ImageOutputView::from_json(value_model(*v)) == Some(t@),
                None => Image2ImageOutputView::from_json(value_model(*v)) is None,
            },
    {
        if !value_is_object(v) {
            return None;
        }
        let request_id = match read_req_text(v, "request_id") {
            Some(x) => x,
            None => return None,
        };
        let output = match ImageTaskSubmitOutput::read_required(v, "output") {
            Some(x) => x,
            None => return None,
        };
        Some(Image2ImageOutput { request_id, output })
    }

    /// Reads an answer from the text of a body. A text that is no JSON
    /// document, or a document in another shape, is a deserialization error
    /// that keeps the text.
    pub fn decode(text: &str) -> (r: Result<Image2ImageOutput, DashScopeError>)
        ensures
            match r {
                Ok(t) => parsed(text@) is Ok && Image2ImageOutputView::from_json(parsed(text@)->Ok_0) == Some(
                    t@,
                ),
                Err(e) => (parsed(text@) is Err || Image2ImageOutputView::from_json(parsed(text@)->Ok_0) is None)
                    && e@ == unreadable(text@),
            },
    {
        match parse_value(text) {
            Ok(v) => match Image2ImageOutput::from_value(&v) {
                Some(t) => Ok(t),
                None => Err(wrong_shape(text)),
            },
            Err(e) => Err(not_json(&e, text)),
        }
    }
}

} // verus!
