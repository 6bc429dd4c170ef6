//! The answers to queries for background tasks.

use crate::body::{not_json, unreadable, wrong_shape};
use crate::error::DashScopeError;
use crate::json::{
    JsonValue, models, parse_value, parsed, value_as_array, value_get, value_is_object, value_model,
};
use crate::operation::common::TaskStatus;
use crate::wire::{read_member, read_opt_text, read_req_text, read_req_u32, text_view};
use vstd::prelude::*;

verus! {

/// One image that was made from a prompt.
#[derive(Debug, Clone, PartialEq, Eq)]
pub struct Text2ImageResult {
    pub orig_prompt: String,
    pub actual_prompt: String,
    pub url: String,
}

/// The content of a [`Text2ImageResult`].
pub struct Text2ImageResultView {
    pub orig_prompt: Seq<char>,
    pub actual_prompt: Seq<char>,
    pub url: Seq<char>,
}

impl View for Text2ImageResult {
    type V = Text2ImageResultView;

    open spec fn view(&self) -> Text2ImageResultView {
        Text2ImageResultView {
            orig_prompt: self.orig_prompt@,
            actual_prompt: self.actual_prompt@,
            url: self.url@,
        }
    }
}

impl Text2ImageResultView {
    /// The image that a wire value holds, if it has the shape of one.
    pub open spec fn from_json(j: JsonValue) -> Option<Text2ImageResultView> {
        let orig_prompt = j.req_text("orig_prompt"@);
        let actual_prompt = j.req_text("actual_prompt"@);
        let url = j.req_text("url"@);
        if j is Object
            && orig_prompt is Some
            && actual_prompt is Some
            && url is Some {
            Some(
                Text2ImageResultView {
                    orig_prompt: orig_prompt->0,
                    actual_prompt: actual_prompt->0,
                    url: url->0,
                },
            )
        } else {
            None
        }
    }

    /// The run that a wire array holds, if every item has the shape of an image.
    pub open spec fn seq_from_json(j: JsonValue) -> Option<Seq<Text2ImageResultView>> {
        match j {
            JsonValue::Array(items) => if forall|i: int|
                0 <= i < items.len() ==> (#[trigger] Text2ImageResultView::from_json(items[i])) is Some {
                Some(Seq::new(items.len(), |i: int| Text2ImageResultView::from_json(items[i])->0))
            } else {
                None
            },
            _ => None,
        }
    }

    /// The required member `key`, read as a run.
    pub open spec fn required_seq(j: JsonValue, key: Seq<char>) -> Option<Seq<Text2ImageResultView>> {
        match j.field(key) {
            Some(c) => Text2ImageResultView::seq_from_json(c),
            None => None,
        }
    }

    /// The optional member `key`, read as a run; the outer `None` is a mismatch.
    pub open spec fn optional_seq(j: JsonValue, key: Seq<char>) -> Option<Option<Seq<Text2ImageResultView>>> {
        match j.member(key) {
            None => Some(None),
            Some(c) => match Text2ImageResultView::seq_from_json(c) {
                Some(x) => Some(Some(x)),
                None => None,
            },
        }
    }
}

impl Text2ImageResult {
    /// The contents of a run of these.
    pub open spec fn seq_view(ts: Seq<Text2ImageResult>) -> Seq<Text2ImageResultView> {
        Seq::new(ts.len(), |i: int| ts[i]@)
    }

    /// Reads an image out of a wire value.
    pub fn from_value(v: &serde_json::Value) -> (r: Option<Text2ImageResult>)
        ensures
            match r {
                Some(t) => Text2ImageResultView::from_json(value_model(*v)) == Some(t@),
                None => Text2ImageResultView::from_json(value_model(*v)) is None,
            },
    {
        if !value_is_object(v) {
            return None;
        }
        let orig_prompt = match read_req_text(v, "orig_prompt") {
            Some(x) => x,
            None => return None,
        };
        let actual_prompt = match read_req_text(v, "actual_prompt") {
            Some(x) => x,
            None => return None,
        };
        let url = match read_req_text(v, "url") {
            Some(x) => x,
            None => return None,
        };
        Some(Text2ImageResult { orig_prompt, actual_prompt, url })
    }

    /// Reads a run out of a wire array.
    pub fn read_seq(v: &serde_json::Value) -> (r: Option<Vec<Text2ImageResult>>)
        ensures
            match r {
                Some(ts) => Text2ImageResultView::seq_from_json(value_model(*v)) == Some(Text2ImageResult::seq_view(ts@)),
                None => Text2ImageResultView::seq_from_json(value_model(*v)) is None,
            },
    {
        let items = match value_as_array(v) {
            Some(a) => a,
            None => return None,
        };
        let ghost docs = models(items@);
        let mut out: Vec<Text2ImageResult> = Vec::new();
        let mut i: usize = 0;
        while i < items.len()
            invariant
                i <= items.len(),
                out@.len() == i,
                docs == models(items@),
                value_model(*v) == JsonValue::Array(docs),
                forall|k: int|
                    0 <= k < i ==> Text2ImageResultView::from_json(docs[k]) == Some(#[trigger] out@[k]@),
            decreases items.len() - i,
        {
            match Text2ImageResult::from_value(&items[i]) {
                Some(t) => {
                    out.push(t);
                },
                None => {
                    proof {
                        assert(Text2ImageResultView::from_json(docs[i as int]) is None);
                    }
                    return None;
                },
            }
            i += 1;
        }
        proof {
            assert forall|k: int| 0 <= k < docs.len() implies (#[trigger] Text2ImageResultView::from_json(
                docs[k],
            )) == Some(out@[k]@) by {
                let _ = out@[k]@;
            }
            assert(Text2ImageResultView::seq_from_json(value_model(*v))->0 =~= Text2ImageResult::seq_view(out@));
        }
        Some(out)
    }

    /// Reads the required member `key` as a run.
    pub fn read_required_seq(v: &serde_json::Value, key: &str) -> (r: Option<Vec<Text2ImageResult>>)
        ensures
            match r {
                Some(ts) => Text2ImageResultView::required_seq(value_model(*v), key@) == Some(
                    Text2ImageResult::seq_view(ts@),
                ),
                None => Text2ImageResultView::required_seq(value_model(*v), key@) is None,
            },
    {
        match value_get(v, key) {
            Some(c) => Text2ImageResult::read_seq(c),
            None => None,
        }
    }

    /// Reads the optional member `key` as a run; `Err` is a mismatch.
    pub fn read_optional_seq(v: &serde_json::Value, key: &str) -> (r: Result<
        Option<Vec<Text2ImageResult>>,
        (),
    >)
        ensures
            match r {
                Ok(o) => Text2ImageResultView::optional_seq(value_model(*v), key@) == Some(
                    match o {
                        Some(ts) => Some(Text2ImageResult::seq_view(ts@)),
                        None => None,
                    },
                ),
                Err(_) => Text2ImageResultView::optional_seq(value_model(*v), key@) is None,
            },
    {
        match read_member(v, key) {
            None => Ok(None),
            Some(c) => match Text2ImageResult::read_seq(c) {
                Some(ts) => Ok(Some(ts)),
                None => Err(()),
            },
        }
    }
}

/// How many pieces of a task there are, and what became of them.
#[derive(Debug, Clone, PartialEq, Eq)]
pub struct TaskMetrics {
    pub total: u32,
    pub succeeded: u32,
    pub failed: u32,
}

/// The content of a [`TaskMetrics`].
pub struct TaskMetricsView {
    pub total: u32,
    pub succeeded: u32,
    pub failed: u32,
}

impl View for TaskMetrics {
    type V = TaskMetricsView;

    open spec fn view(&self) -> TaskMetricsView {
        TaskMetricsView {
            total: self.total,
            succeeded: self.succeeded,
            failed: self.failed,
        }
    }
}

impl TaskMetricsView {
    /// The count that a wire value holds, if it has the shape of one.
    pub open spec fn from_json(j: JsonValue) -> Option<TaskMetricsView> {
        let total = j.req_u32("TOTAL"@);
        let succeeded = j.req_u32("SUCCEEDED"@);
        let failed = j.req_u32("FAILED"@);
        if j is Object
            && total is Some
            && succeeded is Some
            && failed is Some {
            Some(
                TaskMetricsView {
                    total: total->0,
                    succeeded: succeeded->0,
                    failed: failed->0,
                },
            )
        } else {
            None
        }
    }

    /// The required member `key`, read as a count.
    pub open spec fn required(j: JsonValue, key: Seq<char>) -> Option<TaskMetricsView> {
        match j.field(key) {
            Some(c) => TaskMetricsView::from_json(c),
            None => None,
        }
    }

    /// The optional member `key`, read as a count; the outer `None` is a mismatch.
    pub open spec fn optional(j: JsonValue, key: Seq<char>) -> Option<Option<TaskMetricsView>> {
        match j.member(key) {
            None => Some(None),
            Some(c) => match TaskMetricsView::from_json(c) {
                Some(x) => Some(Some(x)),
                None => None,
            },
        }
    }
}

impl TaskMetrics {
    /// Reads a count out of a wire value.
    pub fn from_value(v: &serde_json::Value) -> (r: Option<TaskMetrics>)
        ensures
            match r {
                Some(t) => TaskMetricsView::from_json(value_model(*v)) == Some(t@),
                None => TaskMetricsView::from_json(value_model(*v)) is None,
            },
    {
        if !value_is_object(v) {
            return None;
        }
        let total = match read_req_u32(v, "TOTAL") {
            Some(x) => x,
            None => return None,
        };
        let succeeded = match read_req_u32(v, "SUCCEEDED") {
            Some(x) => x,
            None => return None,
        };
        let failed = match read_req_u32(v, "FAILED") {
            Some(x) => x,
            None => return None,
        };
        Some(TaskMetrics { total, succeeded, failed })
    }

    /// Reads the required member `key` as a count.
    pub fn read_required(v: &serde_json::Value, key: &str) -> (r: Option<TaskMetrics>)
        ensures
            match r {
                Some(t) => TaskMetricsView::required(value_model(*v), key@) == Some(t@),
                None => TaskMetricsView::required(value_model(*v), key@) is None,
            },
    {
        match value_get(v, key) {
            Some(c) => TaskMetrics::from_value(c),
            None => None,
        }
    }

    /// Reads the optional member `key` as a count; `Err` is a mismatch.
    pub fn read_optional(v: &serde_json::Value, key: &str) -> (r: Result<Option<TaskMetrics>, ()>)
        ensures
            match r {
                Ok(o) => TaskMetricsView::optional(value_model(*v), key@) == Some(
                    match o {
                        Some(t) => Some(t@),
                        None => None,
                    },
                ),
                Err(_) => TaskMetricsView::optional(value_model(*v), key@) is None,
            },
    {
        match read_member(v, key) {
            None => Ok(None),
            Some(c) => match TaskMetrics::from_value(c) {
                Some(t) => Ok(Some(t)),
                None => Err(()),
            },
        }
    }
}

/// The state of a background task.
#[derive(Debug, Clone, PartialEq, Eq)]
pub struct TaskOutput {
    pub task_id: String,
    pub task_status: TaskStatus,
    pub submit_time: String,
    pub scheduled_time: Option<String>,
    pub end_time: Option<String>,
    pub image_url: Option<String>,
    pub code: Option<String>,
    pub message: Option<String>,
    pub task_metrics: Option<TaskMetrics>,
    pub results: Option<Vec<Text2ImageResult>>,
}

/// The content of a [`TaskOutput`].
pub struct TaskOutputView {
    pub task_id: Seq<char>,
    pub task_status: TaskStatus,
    pub submit_time: Seq<char>,
    pub scheduled_time: Option<Seq<char>>,
    pub end_time: Option<Seq<char>>,
    pub image_url: Option<Seq<char>>,
    pub code: Option<Seq<char>>,
    pub message: Option<Seq<char>>,
    pub task_metrics: Option<TaskMetricsView>,
    pub results: Option<Seq<Text2ImageResultView>>,
}

impl View for TaskOutput {
    type V = TaskOutputView;

    open spec fn view(&self) -> TaskOutputView {
        TaskOutputView {
            task_id: self.task_id@,
            task_status: self.task_status,
            submit_time: self.submit_time@,
            scheduled_time: text_view(self.scheduled_time),
            end_time: text_view(self.end_time),
            image_url: text_view(self.image_url),
            code: text_view(self.code),
            message: text_view(self.message),
            task_metrics: match self.task_metrics {
                Some(x) => Some(x@),
                None => None,
            },
            results: match self.results {
                Some(x) => Some(Text2ImageResult::seq_view(x@)),
                None => None,
            },
        }
    }
}

impl TaskOutputView {
    /// The state that a wire value holds, if it has the shape of one.
    pub open spec fn from_json(j: JsonValue) -> Option<TaskOutputView> {
        let task_id = j.req_text("task_id"@);
        let task_status = TaskStatus::required(j, "task_status"@);
        let submit_time = j.req_text("submit_time"@);
        let scheduled_time = j.opt_text("scheduled_time"@);
        let end_time = j.opt_text("end_time"@);
        let image_url = j.opt_text("image_url"@);
        let code = j.opt_text("code"@);
        let message = j.opt_text("message"@);
        let task_metrics = TaskMetricsView::optional(j, "task_metrics"@);
        let results = Text2ImageResultView::optional_seq(j, "results"@);
        if j is Object
            && task_id is Some
            && task_status is Some
            && submit_time is Some
            && scheduled_time is Some
            && end_time is Some
            && image_url is Some
            && code is Some
            && message is Some
            && task_metrics is Some
            && results is Some {
            Some(
                TaskOutputView {
                    task_id: task_id->0,
                    task_status: task_status->0,
                    submit_time: submit_time->0,
                    scheduled_time: scheduled_time->0,
                    end_time: end_time->0,
                    image_url: image_url->0,
                    code: code->0,
                    message: message->0,
                    task_metrics: task_metrics->0,
                    results: results->0,
                },
            )
        } else {
            None
        }
    }

    /// The required member `key`, read as a state.
    pub open spec fn required(j: JsonValue, key: Seq<char>) -> Option<TaskOutputView> {
        match j.field(key) {
            Some(c) => TaskOutputView::from_json(c),
            None => None,
        }
    }

    /// The optional member `key`, read as a state; the outer `None` is a mismatch.
    pub open spec fn optional(j: JsonValue, key: Seq<char>) -> Option<Option<TaskOutputView>> {
        match j.member(key) {
            None => Some(None),
            Some(c) => match TaskOutputView::from_json(c) {
                Some(x) => Some(Some(x)),
                None => None,
            },
        }
    }
}

impl TaskOutput {
    /// Reads a state out of a wire value.
    pub fn from_value(v: &serde_json::Value) -> (r: Option<TaskOutput>)
        ensures
            match r {
                Some(t) => TaskOutputView::from_json(value_model(*v)) == Some(t@),
                None => TaskOutputView::from_json(value_model(*v)) is None,
            },
    {
        if !value_is_object(v) {
            return None;
        }
        let task_id = match read_req_text(v, "task_id") {
            Some(x) => x,
            None => return None,
        };
        let task_status = match TaskStatus::read_required(v, "task_status") {
            Some(x) => x,
            None => return None,
        };
        let submit_time = match read_req_text(v, "submit_time") {
            Some(x) => x,
            None => return None,
        };
        let scheduled_time = match read_opt_text(v, "scheduled_time") {
            Ok(x) => x,
            Err(_) => return None,
        };
        let end_time = match read_opt_text(v, "end_time") {
            Ok(x) => x,
            Err(_) => return None,
        };
        let image_url = match read_opt_text(v, "image_url") {
            Ok(x) => x,
            Err(_) => return None,
        };
        let code = match read_opt_text(v, "code") {
            Ok(x) => x,
            Err(_) => return None,
        };
        let message = match read_opt_text(v, "message") {
            Ok(x) => x,
            Err(_) => return None,
        };
        let task_metrics = match TaskMetrics::read_optional(v, "task_metrics") {
            Ok(x) => x,
            Err(_) => return None,
        };
        let results = match Text2ImageResult::read_optional_seq(v, "results") {
            Ok(x) => x,
            Err(_) => return None,
        };
        Some(TaskOutput { task_id, task_status, submit_time, scheduled_time, end_time, image_url, code, message, task_metrics, results })
    }

    /// Reads the required member `key` as a state.
    pub fn read_required(v: &serde_json::Value, key: &str) -> (r: Option<TaskOutput>)
        ensures
            match r {
                Some(t) => TaskOutputView::required(value_model(*v), key@) == Some(t@),
                None => TaskOutputView::required(value_model(*v), key@) is None,
            },
    {
        match value_get(v, key) {
            Some(c) => TaskOutput::from_value(c),
            None => None,
        }
    }

    /// Reads the optional member `key` as a state; `Err` is a mismatch.
    pub fn read_optional(v: &serde_json::Value, key: &str) -> (r: Result<Option<TaskOutput>, ()>)
        ensures
            match r {
                Ok(o) => TaskOutputView::optional(value_model(*v), key@) == Some(
                    match o {
                        Some(t) => Some(t@),
                        None => None,
                    },
                ),
                Err(_) => TaskOutputView::optional(value_model(*v), key@) is None,
            },
    {
        match read_member(v, key) {
            None => Ok(None),
            Some(c) => match TaskOutput::from_value(c) {
                Some(t) => Ok(Some(t)),
                None => Err(()),
            },
        }
    }
}

/// How many images a task has made.
#[derive(Debug, Clone, PartialEq, Eq)]
pub struct ImageUsage {
    pub image_count: u32,
}

/// The content of an [`ImageUsage`].
pub struct ImageUsageView {
    pub image_count: u32,
}

impl View for ImageUsage {
    type V = ImageUsageView;

    open spec fn view(&self) -> ImageUsageView {
        ImageUsageView {
            image_count: self.image_count,
        }
    }
}

impl ImageUsageView {
    /// The usage that a wire value holds, if it has the shape of one.
    pub open spec fn from_json(j: JsonValue) -> Option<ImageUsageView> {
        let image_count = j.req_u32("image_count"@);
        if j is Object
            && image_count is Some {
            Some(
                ImageUsageView {
                    image_count: image_count->0,
                },
            )
        } else {
            None
        }
    }

    /// The required member `key`, read as a usage.
    pub open spec fn required(j: JsonValue, key: Seq<char>) -> Option<ImageUsageView> {
        match j.field(key) {
            Some(c) => ImageUsageView::from_json(c),
            None => None,
        }
    }

    /// The optional member `key`, read as a usage; the outer `None` is a mismatch.
    pub open spec fn optional(j: JsonValue, key: Seq<char>) -> Option<Option<ImageUsageView>> {
        match j.member(key) {
            None => Some(None),
            Some(c) => match ImageUsageView::from_json(c) {
                Some(x) => Some(Some(x)),
                None => None,
            },
        }
    }
}

impl ImageUsage {
    /// Reads a usage out of a wire value.
    pub fn from_value(v: &serde_json::Value) -> (r: Option<ImageUsage>)
        ensures
            match r {
                Some(t) => ImageUsageView::from_json(value_model(*v)) == Some(t@),
                None => ImageUsageView::from_json(value_model(*v)) is None,
            },
    {
        if !value_is_object(v) {
            return None;
        }
        let image_count = match read_req_u32(v, "image_count") {
            Some(x) => x,
            None => return None,
        };
        Some(ImageUsage { image_count })
    }

    /// Reads the required member `key` as a usage.
    pub fn read_required(v: &serde_json::Value, key: &str) -> (r: Option<ImageUsage>)
        ensures
            match r {
                Some(t) => ImageUsageView::required(value_model(*v), key@) == Some(t@),
                None => ImageUsageView::required(value_model(*v), key@) is None,
            },
    {
        match value_get(v, key) {
            Some(c) => ImageUsage::from_value(c),
            None => None,
        }
    }

    /// Reads the optional member `key` as a usage; `Err` is a mismatch.
    pub fn read_optional(v: &serde_json::Value, key: &str) -> (r: Result<Option<ImageUsage>, ()>)
        ensures
            match r {
                Ok(o) => ImageUsageView::optional(value_model(*v), key@) == Some(
                    match o {
                        Some(t) => Some(t@),
                        None => None,
                    },
                ),
                Err(_) => ImageUsageView::optional(value_model(*v), key@) is None,
            },
    {
        match read_member(v, key) {
            None => Ok(None),
            Some(c) => match ImageUsage::from_value(c) {
                Some(t) => Ok(Some(t)),
                None => Err(()),
            },
        }
    }
}

/// The answer to a query for a background task.
#[derive(Debug, Clone, PartialEq, Eq)]
pub struct TaskResult {
    pub request_id: String,
    pub output: TaskOutput,
    pub usage: Option<ImageUsage>,
}

/// The content of a [`TaskResult`].
pub struct TaskResultView {
    pub request_id: Seq<char>,
    pub output: TaskOutputView,
    pub usage: Option<ImageUsageView>,
}

impl View for TaskResult {
    type V = TaskResultView;

    open spec fn view(&self) -> TaskResultView {
        TaskResultView {
            request_id: self.request_id@,
            output: self.output@,
            usage: match self.usage {
                Some(x) => Some(x@),
                None => None,
            },
        }
    }
}

impl TaskResultView {
    /// The answer that a wire value holds, if it has the shape of one.
    pub open spec fn from_json(j: JsonValue) -> Option<TaskResultView> {
        let request_id = j.req_text("request_id"@);
        let output = TaskOutputView::required(j, "output"@);
        let usage = ImageUsageView::optional(j, "usage"@);
        if j is Object
            && request_id is Some
            && output is Some
            && usage is Some {
            Some(
                TaskResultView {
                    request_id: request_id->0,
                    output: output->0,
                    usage: usage->0,
                },
            )
        } else {
            None
        }
    }
}

impl TaskResult {
    /// Reads an answer out of a wire value.
    pub fn from_value(v: &serde_json::Value) -> (r: Option<TaskResult>)
        ensures
            match r {
                Some(t) => TaskResultView::from_json(value_model(*v)) == Some(t@),
                None => TaskResultView::from_json(value_model(*v)) is None,
            },
    {
        if !value_is_object(v) {
            return None;
        }
        let request_id = match read_req_text(v, "request_id") {
            Some(x) => x,
            None => return None,
        };
        let output = match TaskOutput::read_required(v, "output") {
            Some(x) => x,
            None => return None,
        };
        let usage = match ImageUsage::read_optional(v, "usage") {
            Ok(x) => x,
            Err(_) => return None,
        };
        Some(TaskResult { request_id, output, usage })
    }

    /// Reads an answer from the text of a body. A text that is no JSON
    /// document, or a document in another shape, is a deserialization error
    /// that keeps the text.
    pub fn decode(text: &str) -> (r: Result<TaskResult, DashScopeError>)
        ensures
            match r {
                Ok(t) => parsed(text@) is Ok && TaskResultView::from_json(parsed(text@)->Ok_0) == Some(
                    t@,
                ),
                Err(e) => (parsed(text@) is Err || TaskResultView::from_json(parsed(text@)->Ok_0) is None)
                    && e@ == unreadable(text@),
            },
    {
        match parse_value(text) {
            Ok(v) => match TaskResult::from_value(&v) {
                Some(t) => Ok(t),
                None => Err(wrong_shape(text)),
            },
            Err(e) => Err(not_json(&e, text)),
        }
    }
}

} // verus!
