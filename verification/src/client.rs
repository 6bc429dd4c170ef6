//! What the client decides about an answer: whether it is the body asked
//! for, an error that is worth another attempt, or one that is not; and
//! when a stream of answers has come to its end.

use crate::body::{not_json, unreadable, wrong_shape};
use crate::error::{ApiError, ApiErrorView, DashScopeError, DashScopeErrorView};
use crate::json::{parse_value, parsed, str_eq, value_as_array, value_as_str, value_get, value_model, JsonValue};
use vstd::prelude::*;

verus! {

/// The status with which the service says that the caller asks too often.
pub const TOO_MANY_REQUESTS: u16 = 429;

/// What one attempt at a request has come to.
#[derive(Debug, Clone, PartialEq, Eq)]
pub enum Attempt {
    /// The service has answered; this is the body.
    Done(String),
    /// The service was busy. The attempt is to be made again after a pause.
    Retry(DashScopeError),
    /// The request has failed for good.
    GiveUp(DashScopeError),
}

/// The content of an [`Attempt`].
pub enum AttemptView {
    Done(Seq<char>),
    Retry(DashScopeErrorView),
    GiveUp(DashScopeErrorView),
}

impl View for Attempt {
    type V = AttemptView;

    open spec fn view(&self) -> AttemptView {
        match self {
            Attempt::Done(b) => AttemptView::Done(b@),
            Attempt::Retry(e) => AttemptView::Retry(e@),
            Attempt::GiveUp(e) => AttemptView::GiveUp(e@),
        }
    }
}

/// Whether a status says success.
pub open spec fn is_success(status: u16) -> bool {
    200 <= status <= 299
}

/// What an answer with the given status and body comes to. With a status of
/// success the body is the answer. Otherwise the body must be an error
/// object, else the request fails with a deserialization error; with status
/// 429 the error is worth another attempt, with every other status it is not.
pub open spec fn judged(status: u16, body: Seq<char>) -> AttemptView {
    if is_success(status) {
        AttemptView::Done(body)
    } else {
        match parsed(body) {
            Ok(j) => match ApiErrorView::from_json(j) {
                Some(e) => if status == TOO_MANY_REQUESTS {
                    AttemptView::Retry(DashScopeErrorView::ApiError(e))
                } else {
                    AttemptView::GiveUp(DashScopeErrorView::ApiError(e))
                },
                None => AttemptView::GiveUp(unreadable(body)),
            },
            Err(_) => AttemptView::GiveUp(unreadable(body)),
        }
    }
}

/// Judges an answer by its status and body.
pub fn judge_response(status: u16, body: String) -> (r: Attempt)
    ensures
        r@ == judged(status, body@),
{
    if 200 <= status && status <= 299 {
        return Attempt::Done(body);
    }
    let value = match parse_value(body.as_str()) {
        Ok(v) => v,
        Err(e) => return Attempt::GiveUp(not_json(&e, body.as_str())),
    };
    match ApiError::from_value(&value) {
        Some(error) => if status == TOO_MANY_REQUESTS {
            Attempt::Retry(DashScopeError::ApiError(error))
        } else {
            Attempt::GiveUp(DashScopeError::ApiError(error))
        },
        None => Attempt::GiveUp(wrong_shape(body.as_str())),
    }
}

/// An attempt is made again exactly when the service says that the caller
/// asks too often and says so with an error object; every other status that
/// is no success ends the request, as does a body that cannot be read.
pub proof fn lemma_retry_only_when_busy(status: u16, body: Seq<char>)
    ensures
        judged(status, body) is Retry <==> status == TOO_MANY_REQUESTS && parsed(body) is Ok
            && ApiErrorView::from_json(parsed(body)->Ok_0) is Some,
        judged(status, body) is Done <==> is_success(status),
        !is_success(status) && status != TOO_MANY_REQUESTS ==> judged(status, body) is GiveUp,
{
}

/// The reason for which a streamed answer has ended, where the document of
/// a chunk names one: the text at `output.choices[0].finish_reason`.
pub open spec fn finish_reason(j: JsonValue) -> Option<Seq<char>> {
    match j.field("output"@) {
        Some(output) => match output.field("choices"@) {
            Some(JsonValue::Array(choices)) => if choices.len() > 0 {
                choices[0].req_text("finish_reason"@)
            } else {
                None
            },
            _ => None,
        },
        None => None,
    }
}

/// Whether the document of a chunk is the last of its stream: its finish
/// reason is `stop`.
pub fn is_last_chunk(v: &serde_json::Value) -> (r: bool)
    ensures
        r == (finish_reason(value_model(*v)) == Some("stop"@)),
{
    let output = match value_get(v, "output") {
        Some(o) => o,
        None => return false,
    };
    let choices = match value_get(output, "choices") {
        Some(c) => match value_as_array(c) {
            Some(a) => a,
            None => return false,
        },
        None => return false,
    };
    if choices.len() == 0 {
        return false;
    }
    proof {
        assert(crate::json::models(choices@)[0] == value_model(choices@[0]));
    }
    match value_get(&choices[0], "finish_reason") {
        Some(reason) => match value_as_str(reason) {
            Some(s) => str_eq(s, "stop"),
            None => false,
        },
        None => false,
    }
}

/// Whether the text of a chunk is the last of its stream. A text that is no
/// JSON document is a deserialization error that keeps the text.
pub fn stream_finished(data: &str) -> (r: Result<bool, DashScopeError>)
    ensures
        match r {
            Ok(last) => parsed(data@) is Ok && last == (finish_reason(parsed(data@)->Ok_0) == Some(
                "stop"@,
            )),
            Err(e) => parsed(data@) is Err && e@ == unreadable(data@),
        },
{
    match parse_value(data) {
        Ok(v) => Ok(is_last_chunk(&v)),
        Err(e) => Err(not_json(&e, data)),
    }
}

/// The error for a stream that broke; the text says how.
pub fn stream_error(message: String) -> (r: DashScopeError)
    ensures
        r@ == DashScopeErrorView::StreamError(message@),
{
    DashScopeError::StreamError(message)
}

} // verus!
